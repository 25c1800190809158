//! Typed client library for a commodity exchange's public REST API.
//!
//! The verified core of the library is the bearer-token lifecycle (acquire,
//! cache, expire with a safety buffer, refresh) and the transport protocol
//! that retries a request exactly once after a server-reported token expiry.
//! Around that core stand the response-envelope decoder, the request
//! validation rules, and the plain data models of the API.

mod codec;
mod config;
mod error;
mod http;
mod json;
mod models;
mod text;
mod token;
mod validate;

pub use codec::coerce_i64;
pub use codec::decode_token_payload;
pub use codec::decode_trade_date;
pub use codec::parse_envelope;
pub use config::Config;
pub use config::DEFAULT_BASE_URL;
pub use config::DEFAULT_LANG;
pub use config::DEFAULT_TIMEOUT_SECS;
pub use config::DEFAULT_TRADE_TYPE;
pub use error::spec_error_message;
pub use error::Error;
pub use error::ErrorCode;
pub use http::FlowAction;
pub use http::FlowPhase;
pub use http::RequestFlow;
pub use http::RequestOptions;
pub use http::bearer_value;
pub use http::join_url;
pub use http::lemma_non_retry_codes;
pub use http::lemma_one_shot_retry;
pub use http::spec_flow_step;
pub use models::ApiResponse;
pub use models::ArbitrageContractRequest;
pub use models::Article;
pub use models::BondedDelivery;
pub use models::BondedDeliveryRequest;
pub use models::ContractInfo;
pub use models::ContractInfoRequest;
pub use models::ContractMonthMaxOpeni;
pub use models::ContractMonthMaxPrice;
pub use models::ContractMonthMaxRequest;
pub use models::ContractMonthMaxTurnover;
pub use models::ContractMonthMaxVolume;
pub use models::DailyRankingRequest;
pub use models::DailyRankingResponse;
pub use models::DayTradeParamRequest;
pub use models::DeliveryCost;
pub use models::DeliveryData;
pub use models::DeliveryDataRequest;
pub use models::DeliveryMatch;
pub use models::DeliveryMatchRequest;
pub use models::DivisionPriceInfoRequest;
pub use models::FactorySpotAgio;
pub use models::FactorySpotAgioRequest;
pub use models::GetArticleByPageRequest;
pub use models::GetArticleByPageResponse;
pub use models::MainSeriesInfo;
pub use models::MainSeriesInfoRequest;
pub use models::MarginArbiPerfPara;
pub use models::MarginArbiPerfParaRequest;
pub use models::MonthQuotesRequest;
pub use models::NewContractInfo;
pub use models::NewContractInfoRequest;
pub use models::PhaseRankingRequest;
pub use models::PlywoodDeliveryCommodity;
pub use models::PlywoodDeliveryCommodityRequest;
pub use models::Quote;
pub use models::QuotesRequest;
pub use models::Ranking;
pub use models::RiseFallEvent;
pub use models::RiseFallEventRequest;
pub use models::RollDeliverySellerIntention;
pub use models::RollDeliverySellerIntentionRequest;
pub use models::SettleParam;
pub use models::SettleParamRequest;
pub use models::TcCongregateDelivery;
pub use models::TcCongregateDeliveryRequest;
pub use models::TdBondedDelivery;
pub use models::TdBondedDeliveryRequest;
pub use models::TradingParam;
pub use models::TradingParamRequest;
pub use models::Variety;
pub use models::VarietyMonthYearStat;
pub use models::VarietyMonthYearStatRequest;
pub use models::WarehousePremium;
pub use models::WarehousePremiumResponse;
pub use models::WarehouseReceipt;
pub use models::WarehouseReceiptDetail;
pub use models::WarehouseReceiptRequest;
pub use models::WeekQuotesRequest;
pub use models::TokenResponse;
pub use models::TradeDate;
pub use text::lemma_decimal_round_trip;
pub use text::parse_i64;
pub use text::spec_all_digits;
pub use text::spec_digits_seq;
pub use text::spec_digits_val;
pub use text::spec_int_decimal;
pub use text::spec_nat_decimal;
pub use text::spec_parse_i64;
pub use text::str_eq;
pub use token::TokenCache;
pub use validate::is_valid_column_id;
pub use validate::spec_is_valid_column_id;
pub use validate::validate_article_id;
pub use validate::validate_article_page_request;
pub use validate::validate_variety_id;
pub use token::AUTH_ENDPOINT;
pub use token::TOKEN_EXPIRY_BUFFER;
pub use token::TOKEN_EXPIRY_SECONDS;
pub use token::auth_error_for;
pub use token::lemma_expiry_buffer;
pub use token::lemma_no_redundant_refresh;
pub use token::spec_auth_reason;
pub use token::spec_effective_window;
pub use token::spec_expiry_time;
pub use token::spec_install;
