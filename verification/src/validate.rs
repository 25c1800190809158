//! Request checks the services make before any network call.

use vstd::prelude::*;

use crate::error::Error;
use crate::models::GetArticleByPageRequest;
use crate::text::str_eq;

verus! {

/// The column IDs the article endpoints accept.
pub open spec fn spec_is_valid_column_id(s: Seq<char>) -> bool {
    ||| s == "244"@
    ||| s == "245"@
    ||| s == "246"@
    ||| s == "248"@
    ||| s == "1076"@
    ||| s == "242"@
}

/// Whether a column ID is one the article endpoints accept.
pub fn is_valid_column_id(column_id: &str) -> (r: bool)
    ensures
        r == spec_is_valid_column_id(column_id@),
{
    str_eq(column_id, "244") || str_eq(column_id, "245") || str_eq(column_id, "246") || str_eq(
        column_id,
        "248",
    ) || str_eq(column_id, "1076") || str_eq(column_id, "242")
}

/// Check and complete a paginated-article request: reject an unknown column
/// ID before any network call, and substitute the default site ID for an
/// unset one.
pub fn validate_article_page_request(req: GetArticleByPageRequest) -> (r: Result<
    GetArticleByPageRequest,
    Error,
>)
    ensures
        !spec_is_valid_column_id(req.column_id@) ==> (r matches Err(e)
            && e matches Error::Validation { field, message } && field@ == "column_id"@ && message@
            == "invalid column_id, must be one of: 244, 245, 246, 248, 1076, 242"@),
        spec_is_valid_column_id(req.column_id@) ==> (r matches Ok(p) && p == (GetArticleByPageRequest {
            site_id: if req.site_id == 0 {
                5i32
            } else {
                req.site_id
            },
            ..req
        })),
{
    if !is_valid_column_id(req.column_id.as_str()) {
        return Err(
            Error::validation(
                "column_id".to_owned(),
                "invalid column_id, must be one of: 244, 245, 246, 248, 1076, 242".to_owned(),
            ),
        );
    }
    let site_id: i32 = if req.site_id == 0 {
        5
    } else {
        req.site_id
    };
    Ok(GetArticleByPageRequest { site_id, ..req })
}

/// Reject an empty article ID before any network call.
pub fn validate_article_id(article_id: &str) -> (r: Result<(), Error>)
    ensures
        article_id@.len() == 0 ==> (r matches Err(e) && e matches Error::Validation {
            field,
            message,
        } && field@ == "article_id"@ && message@ == "article_id is required"@),
        article_id@.len() > 0 ==> r matches Ok(()),
{
    if article_id.is_empty() {
        Err(Error::validation("article_id".to_owned(), "article_id is required".to_owned()))
    } else {
        Ok(())
    }
}

/// Reject an empty variety ID before any network call.
pub fn validate_variety_id(variety_id: &str) -> (r: Result<(), Error>)
    ensures
        variety_id@.len() == 0 ==> (r matches Err(e) && e matches Error::Validation {
            field,
            message,
        } && field@ == "variety_id"@ && message@ == "variety_id is required"@),
        variety_id@.len() > 0 ==> r matches Ok(()),
{
    if variety_id.is_empty() {
        Err(Error::validation("variety_id".to_owned(), "variety_id is required".to_owned()))
    } else {
        Ok(())
    }
}

} // verus!
