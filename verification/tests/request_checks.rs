use dceapi::is_valid_column_id;
use dceapi::validate_article_id;
use dceapi::validate_article_page_request;
use dceapi::validate_variety_id;
use dceapi::Error;
use dceapi::GetArticleByPageRequest;

fn page_request(column_id: &str, site_id: i32) -> GetArticleByPageRequest {
    GetArticleByPageRequest {
        column_id: column_id.to_string(),
        page_no: 1,
        page_size: 20,
        site_id,
    }
}

#[test]
fn valid_column_ids_are_the_documented_six() {
    for id in ["244", "245", "246", "248", "1076", "242"] {
        assert!(is_valid_column_id(id), "{} should be valid", id);
    }
    for id in ["", "243", "24", "2444", "1077", "abc"] {
        assert!(!is_valid_column_id(id), "{} should be invalid", id);
    }
}

#[test]
fn article_page_request_rejects_unknown_column() {
    match validate_article_page_request(page_request("999", 5)) {
        Err(Error::Validation { field, message }) => {
            assert_eq!(field, "column_id");
            assert_eq!(
                message,
                "invalid column_id, must be one of: 244, 245, 246, 248, 1076, 242"
            );
        }
        other => panic!("expected Validation error, got {:?}", other),
    }
}

#[test]
fn article_page_request_fills_default_site_id() {
    let out = validate_article_page_request(page_request("244", 0)).unwrap();
    assert_eq!(out.site_id, 5);
    assert_eq!(out.column_id, "244");
    assert_eq!(out.page_no, 1);
    assert_eq!(out.page_size, 20);
}

#[test]
fn article_page_request_keeps_set_site_id() {
    let out = validate_article_page_request(page_request("242", 9)).unwrap();
    assert_eq!(out.site_id, 9);
}

#[test]
fn article_id_must_not_be_empty() {
    match validate_article_id("") {
        Err(Error::Validation { field, message }) => {
            assert_eq!(field, "article_id");
            assert_eq!(message, "article_id is required");
        }
        other => panic!("expected Validation error, got {:?}", other),
    }
    assert!(validate_article_id("12345").is_ok());
}

#[test]
fn variety_id_must_not_be_empty() {
    match validate_variety_id("") {
        Err(Error::Validation { field, message }) => {
            assert_eq!(field, "variety_id");
            assert_eq!(message, "variety_id is required");
        }
        other => panic!("expected Validation error, got {:?}", other),
    }
    assert!(validate_variety_id("all").is_ok());
    assert!(validate_variety_id("i").is_ok());
}
