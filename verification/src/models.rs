//! Data models of the API: the uniform response envelope and the typed
//! request and response records of the endpoints.

use vstd::prelude::*;

verus! {

/// The uniform wrapper every server response uses.
#[derive(Debug, Clone)]
pub struct ApiResponse {
    /// Response code.
    pub code: i32,
    /// Response message ("msg" in the wire format, with "message" accepted
    /// as an alias; empty when the server sent neither).
    pub msg: String,
    /// Response data, forwarded untouched to the caller's decoder; `None`
    /// when the server sent no data member.
    pub data: Option<serde_json::Value>,
}

/// Token payload from the authentication endpoint.
#[derive(Debug, Clone)]
pub struct TokenResponse {
    /// Token type (e.g., "Bearer").
    pub token_type: String,
    /// Access token.
    pub access_token: String,
    /// Token lifetime in seconds, as the server declared it.
    pub expires_in: i32,
}

/// Trade date information.
#[derive(Debug, Clone)]
pub struct TradeDate {
    /// Trade date string ("tradeDate" in the wire format).
    pub date: String,
}

/// Article information.
#[derive(Debug, Clone)]
pub struct Article {
    /// Article ID.
    pub id: String,
    /// Article version.
    pub version: String,
    /// Article title.
    pub title: String,
    /// Article subtitle.
    pub sub_title: String,
    /// Article summary.
    pub summary: String,
    /// Source ID.
    pub source_id: String,
    /// Display date.
    pub show_date: String,
    /// Release date.
    pub release_date: String,
    /// Article content.
    pub content: String,
    /// Keywords.
    pub keywords: String,
    /// Entity type (e.g., "HTML").
    pub entity_type: String,
    /// Title image URL.
    pub title_image_url: String,
    /// Article static URL.
    pub article_static_url: String,
    /// Article dynamic URL.
    pub article_dynamic_url: String,
    /// Page name.
    pub page_name: String,
    /// Creation date.
    pub create_date: String,
}

/// Request for paginated article list.
#[derive(Debug, Clone)]
pub struct GetArticleByPageRequest {
    /// Column ID (e.g., "244" for announcements).
    pub column_id: String,
    /// Page number (1-indexed).
    pub page_no: i32,
    /// Page size.
    pub page_size: i32,
    /// Site ID. Defaults to 5.
    pub site_id: i32,
}

/// Response for paginated article list.
#[derive(Debug, Clone)]
pub struct GetArticleByPageResponse {
    /// Column ID.
    pub column_id: String,
    /// Status code.
    pub status: String,
    /// Status information.
    pub status_info: String,
    /// List of articles.
    pub result_list: Vec<Article>,
    /// Total count of articles.
    pub total_count: i32,
}

/// Variety (commodity) information.
#[derive(Debug, Clone)]
pub struct Variety {
    /// Variety code/ID.
    pub code: String,
    /// Variety name in Chinese.
    pub name: String,
    /// Variety name in English.
    pub english_name: String,
    /// Picture URL.
    pub pic: String,
    /// Variety type.
    pub variety_type: String,
}

/// Quote data for a contract.
#[derive(Debug, Clone)]
pub struct Quote {
    /// Variety name.
    pub variety: String,
    /// Variety order/code.
    pub variety_order: String,
    /// Contract ID.
    pub contract_id: String,
    /// Delivery month (for night quotes).
    pub deliv_month: String,
    /// Open price.
    pub open: String,
    /// High price.
    pub high: String,
    /// Low price.
    pub low: String,
    /// Close price.
    pub close: String,
    /// Last clearing price (前结算价).
    pub last_clear: String,
    /// Last price (最新价, for night quotes).
    pub last_price: String,
    /// Clearing/settlement price (结算价).
    pub clear_price: String,
    /// Price difference (涨跌).
    pub diff: String,
    /// Price difference 1 (涨跌1).
    pub diff1: String,
    /// Declare price (买价/卖价, for night quotes).
    pub declare_price: String,
    /// Volume (成交量).
    pub volume: i64,
    /// Open interest (持仓量).
    pub open_interest: i64,
    /// Open interest difference (持仓量变化).
    pub diff_i: i64,
    /// Turnover (成交额).
    pub turnover: String,
    /// Variety name in English.
    pub variety_en: String,
    /// Turnover in English format.
    pub turnover_en: String,
    /// Delta (期权).
    pub delta: String,
    /// Exercise quantity sum (行权量).
    pub match_qty_sum: i64,
    /// Turnover difference.
    pub diff_t: String,
    /// Volume rate (期权期货成交比).
    pub volumn_rate: String,
    /// Open interest rate (期权期货持仓比).
    pub open_interest_rate: String,
    /// Period over period change.
    pub period_over_period_chg: String,
    /// Volume difference.
    pub diff_v: Option<i64>,
    /// Implied volatility (隐含波动率).
    pub implied_volatility: String,
    /// Series ID (期权系列).
    pub series_id: String,
    /// Average open interest (日均持仓量).
    pub avg_open_interest: i64,
}

/// Request for day/night quotes.
#[derive(Debug, Clone)]
pub struct QuotesRequest {
    /// Variety ID.
    pub variety_id: Option<String>,
    /// Variety code (for night quotes).
    pub variety: Option<String>,
    /// Trade date (YYYYMMDD format).
    pub trade_date: String,
    /// Trade type ("1" = futures, "2" = options).
    pub trade_type: String,
    /// Language.
    pub lang: Option<String>,
    /// Statistics type for options: 0=contract, 1=series, 2=variety.
    pub statistics_type: Option<i32>,
}

/// Request for weekly quotes.
#[derive(Debug, Clone)]
pub struct WeekQuotesRequest {
    /// Variety code.
    pub variety_code: String,
    /// Year.
    pub year: i32,
    /// Week number.
    pub week: i32,
}

/// Request for monthly quotes.
#[derive(Debug, Clone)]
pub struct MonthQuotesRequest {
    /// Variety code.
    pub variety_code: String,
    /// Year.
    pub year: i32,
    /// Month.
    pub month: i32,
}

/// Delivery data.
#[derive(Debug, Clone)]
pub struct DeliveryData {
    /// Variety name.
    pub variety: String,
    /// Contract ID.
    pub contract_id: String,
    /// Delivery date.
    pub delivery_date: String,
    /// Delivery quantity.
    pub delivery_qty: i64,
    /// Delivery amount.
    pub delivery_amt: String,
}

/// Request for delivery data.
#[derive(Debug, Clone)]
pub struct DeliveryDataRequest {
    /// Variety ID.
    pub variety_id: String,
    /// Start month (YYYYMM format).
    pub start_month: String,
    /// End month (YYYYMM format).
    pub end_month: String,
    /// Variety type ("0" = physical delivery, "1" = average price delivery).
    pub variety_type: String,
}

/// Delivery match data.
#[derive(Debug, Clone)]
pub struct DeliveryMatch {
    /// Contract ID.
    pub contract_id: String,
    /// Match date.
    pub match_date: String,
    /// Buy member ID.
    pub buy_member_id: String,
    /// Sell member ID.
    pub sell_member_id: String,
    /// Delivery quantity.
    pub delivery_qty: i64,
    /// Delivery price.
    pub delivery_price: String,
}

/// Request for delivery match data.
#[derive(Debug, Clone)]
pub struct DeliveryMatchRequest {
    /// Variety ID.
    pub variety_id: String,
    /// Contract ID ("all" for all contracts).
    pub contract_id: String,
    /// Start month (YYYYMM format).
    pub start_month: String,
    /// End month (YYYYMM format).
    pub end_month: String,
}

/// Warehouse receipt daily report response.
#[derive(Debug, Clone)]
pub struct WarehouseReceipt {
    /// Entity list containing warehouse receipt details.
    pub entity_list: Vec<WarehouseReceiptDetail>,
    /// Whether has agio flag.
    pub if_agio_flag: String,
    /// Agio delivery type.
    pub agio_deli_type: String,
    /// Whether has agio brand flag.
    pub if_agio_brand_flag: String,
}

/// Warehouse receipt detail entry.
#[derive(Debug, Clone)]
pub struct WarehouseReceiptDetail {
    /// Variety order.
    pub variety_order: String,
    /// Group code order.
    pub group_code_order: String,
    /// Warehouse code order.
    pub wh_code_order: String,
    /// Warehouse type.
    pub wh_type: String,
    /// Variety name.
    pub variety: String,
    /// Generation date.
    pub gen_date: String,
    /// Warehouse abbreviation.
    pub wh_abbr: String,
    /// Delivery abbreviation.
    pub delivery_abbr: String,
    /// Yesterday's warehouse bill quantity (lots).
    pub last_wbill_qty: i64,
    /// Registered warehouse bill quantity.
    pub reg_wbill_qty: i64,
    /// Logout warehouse bill quantity.
    pub logout_wbill_qty: i64,
    /// Today's warehouse bill quantity (lots).
    pub wbill_qty: i64,
    /// Difference (lots).
    pub diff: i64,
}

/// Request for warehouse receipt data (daily report).
#[derive(Debug, Clone)]
pub struct WarehouseReceiptRequest {
    /// Variety ID ("all" for all varieties).
    pub variety_id: String,
    /// Trade date (YYYYMMDD format).
    pub trade_date: String,
}

/// Delivery cost data.
#[derive(Debug, Clone)]
pub struct DeliveryCost {
    /// Variety name.
    pub variety: String,
    /// Earnest rate.
    pub earnest_rate: String,
    /// Unit.
    pub unit: String,
    /// Delivery fee.
    pub delivery_fee: String,
    /// Fee rate.
    pub fee_rate: String,
    /// Start date.
    pub start_date: String,
    /// End date.
    pub end_date: String,
}

/// Warehouse premium data.
/// Warehouse premium response wrapper.
#[derive(Debug, Clone)]
pub struct WarehousePremiumResponse {
    /// Entity list containing warehouse premium details.
    pub entity_list: Vec<WarehousePremium>,
    /// Whether has agio flag.
    pub if_agio_flag: String,
}

/// Warehouse premium data.
#[derive(Debug, Clone)]
pub struct WarehousePremium {
    /// Variety ID.
    pub variety_id: String,
    /// Variety name.
    pub variety_name: String,
    /// Valid date.
    pub valid_date: String,
    /// Warehouse code.
    pub wh_code: String,
    /// Warehouse name.
    pub wh_name: String,
    /// Average premium (元/吨).
    pub avg_agio: String,
    /// Warehouse group abbreviation.
    pub wh_group_abbr: String,
    /// Brand abbreviation.
    pub brand_abbr: String,
}

/// Ranking data entry.
#[derive(Debug, Clone)]
pub struct Ranking {
    /// Rank position.
    pub rank: String,
    /// Volume member abbreviation.
    pub qty_abbr: String,
    /// Today's volume.
    pub today_qty: i64,
    /// Volume change.
    pub qty_sub: i64,
    /// Buy member abbreviation.
    pub buy_abbr: String,
    /// Today's buy quantity.
    pub today_buy_qty: i64,
    /// Buy quantity change.
    pub buy_sub: i64,
    /// Sell member abbreviation.
    pub sell_abbr: String,
    /// Today's sell quantity.
    pub today_sell_qty: i64,
    /// Sell quantity change.
    pub sell_sub: i64,
}

/// Request for daily ranking.
#[derive(Debug, Clone)]
pub struct DailyRankingRequest {
    /// Variety ID.
    pub variety_id: String,
    /// Contract ID.
    pub contract_id: String,
    /// Trade date.
    pub trade_date: String,
    /// Trade type ("1" = futures, "2" = options).
    pub trade_type: String,
}

/// Response for daily ranking.
#[derive(Debug, Clone)]
pub struct DailyRankingResponse {
    /// Contract ID.
    pub contract_id: String,
    /// Today's total volume.
    pub today_qty: i64,
    /// Volume change.
    pub qty_sub: i64,
    /// Today's buy quantity.
    pub today_buy_qty: i64,
    /// Buy quantity change.
    pub buy_sub: i64,
    /// Today's sell quantity.
    pub today_sell_qty: i64,
    /// Sell quantity change.
    pub sell_sub: i64,
    /// Volume ranking list.
    pub qty_future_list: Vec<Ranking>,
    /// Buy ranking list.
    pub buy_future_list: Vec<Ranking>,
    /// Sell ranking list.
    pub sell_future_list: Vec<Ranking>,
}

/// Request for phase ranking.
#[derive(Debug, Clone)]
pub struct PhaseRankingRequest {
    /// Variety code.
    pub variety: String,
    /// Start month.
    pub start_month: String,
    /// End month.
    pub end_month: String,
    /// Trade type.
    pub trade_type: String,
}

/// Request for day trade parameters.
#[derive(Debug, Clone)]
pub struct DayTradeParamRequest {
    /// Variety ID.
    pub variety_id: String,
    /// Trade type.
    pub trade_type: String,
    /// Language.
    pub lang: String,
}

/// Contract information.
#[derive(Debug, Clone)]
pub struct ContractInfo {
    /// Contract ID.
    pub contract_id: String,
    /// Variety code.
    pub variety: String,
    /// Variety order.
    pub variety_order: String,
    /// Contract unit.
    pub unit: i32,
    /// Minimum tick.
    pub tick: String,
    /// Start trade date.
    pub start_trade_date: String,
    /// End trade date.
    pub end_trade_date: String,
    /// End delivery date.
    pub end_delivery_date: String,
    /// Trade type.
    pub trade_type: String,
}

/// Request for contract information.
#[derive(Debug, Clone)]
pub struct ContractInfoRequest {
    /// Variety ID.
    pub variety_id: String,
    /// Trade type.
    pub trade_type: String,
    /// Language.
    pub lang: String,
}

/// Request for arbitrage contracts.
#[derive(Debug, Clone)]
pub struct ArbitrageContractRequest {
    /// Language.
    pub lang: String,
}

/// Settlement parameter data.
#[derive(Debug, Clone)]
pub struct SettleParam {
    /// Variety code.
    pub variety: String,
    /// Variety order.
    pub variety_order: String,
    /// Contract ID.
    pub contract_id: String,
    /// Clearing/settlement price.
    pub clear_price: String,
    /// Open fee.
    pub open_fee: String,
    /// Offset fee.
    pub offset_fee: String,
    /// Short open fee (intraday).
    pub short_open_fee: String,
    /// Short offset fee (intraday).
    pub short_offset_fee: String,
    /// Position limit style.
    pub style: String,
    /// Speculative buy margin rate.
    pub spec_buy_rate: String,
    /// Speculative sell margin rate.
    pub spec_sell_rate: String,
    /// Hedge buy margin rate.
    pub hedge_buy_rate: String,
    /// Hedge sell margin rate.
    pub hedge_sell_rate: String,
}

/// Request for settlement parameters.
#[derive(Debug, Clone)]
pub struct SettleParamRequest {
    /// Variety ID.
    pub variety_id: String,
    /// Trade date.
    pub trade_date: String,
    /// Trade type.
    pub trade_type: String,
    /// Language.
    pub lang: String,
}

/// Request for variety month/year statistics.
#[derive(Debug, Clone)]
pub struct VarietyMonthYearStatRequest {
    /// Trade month (YYYYMM format).
    pub trade_month: String,
    /// Trade type ("1" = futures, "2" = options).
    pub trade_type: String,
    /// Language ("zh" or "en").
    pub lang: String,
}

/// Variety monthly/yearly statistics.
#[derive(Debug, Clone)]
pub struct VarietyMonthYearStat {
    /// Variety name.
    pub variety: String,
    /// This month volume.
    pub this_month_volumn: i64,
    /// Volume year-over-year comparison.
    pub volumn_balance: String,
    /// Volume month-over-month comparison.
    pub volumn_chain: String,
    /// This year volume.
    pub this_year_volumn: i64,
    /// Year volume year-over-year comparison.
    pub year_volumn_chain: String,
    /// This month turnover.
    pub this_month_turnover: String,
    /// Turnover year-over-year comparison.
    pub turnover_balance: String,
    /// Turnover month-over-month comparison.
    pub turnover_chain: String,
    /// This year turnover.
    pub this_year_turnover: String,
    /// Year turnover year-over-year comparison.
    pub year_turnover_chain: String,
    /// This month open interest.
    pub this_month_openi: i64,
    /// Open interest year-over-year comparison.
    pub openi_balance: String,
    /// Open interest month-over-month comparison.
    pub openi_chain: String,
}

/// Request for contract monthly max statistics.
#[derive(Debug, Clone)]
pub struct ContractMonthMaxRequest {
    /// Start month (YYYYMM format).
    pub start_month: String,
    /// End month (YYYYMM format).
    pub end_month: String,
    /// Statistics content: "0"=volume, "1"=turnover, "2"=open_interest, "3"=price.
    pub stat_content: String,
    /// Trade type ("1" = futures, "2" = options).
    pub trade_type: String,
    /// Language ("zh" or "en").
    pub lang: String,
}

/// Contract monthly max - Volume statistics.
#[derive(Debug, Clone)]
pub struct ContractMonthMaxVolume {
    /// Contract ID.
    pub contract_id: String,
    /// Total volume.
    pub sum_amount: i64,
    /// Maximum volume.
    pub max_amount: i64,
    /// Date of maximum volume.
    pub max_amount_date: String,
    /// Minimum volume.
    pub min_amount: i64,
    /// Date of minimum volume.
    pub min_amount_date: String,
    /// Average daily volume.
    pub avg_amount: i64,
}

/// Contract monthly max - Turnover statistics.
#[derive(Debug, Clone)]
pub struct ContractMonthMaxTurnover {
    /// Contract ID.
    pub contract_id: String,
    /// Total turnover.
    pub sum_turnover: String,
    /// Maximum turnover.
    pub max_turnover: String,
    /// Date of maximum turnover.
    pub max_turnover_date: String,
    /// Minimum turnover.
    pub min_turnover: String,
    /// Date of minimum turnover.
    pub min_turnover_date: String,
    /// Average daily turnover.
    pub avg_turnover: String,
}

/// Contract monthly max - Open Interest statistics.
#[derive(Debug, Clone)]
pub struct ContractMonthMaxOpeni {
    /// Contract ID.
    pub contract_id: String,
    /// Total open interest.
    pub sum_openi: i64,
    /// Maximum open interest.
    pub max_openi: i64,
    /// Date of maximum open interest.
    pub max_openi_date: String,
    /// Minimum open interest.
    pub min_openi: i64,
    /// Date of minimum open interest.
    pub min_openi_date: String,
    /// Average daily open interest.
    pub avg_openi: i64,
}

/// Contract monthly max - Price statistics.
#[derive(Debug, Clone)]
pub struct ContractMonthMaxPrice {
    /// Contract ID.
    pub contract_id: String,
    /// Opening price at period start.
    pub open: String,
    /// Closing price at period end.
    pub close: String,
    /// Highest price.
    pub high: String,
    /// Date of highest price.
    pub high_date: String,
    /// Lowest price.
    pub low: String,
    /// Date of lowest price.
    pub low_date: String,
    /// Settlement price at period end.
    pub clear_price: String,
}

/// Request for rise/fall event (trading limit) query.
#[derive(Debug, Clone)]
pub struct RiseFallEventRequest {
    /// Start date (YYYYMMDD format).
    pub start_date: String,
    /// End date (YYYYMMDD format).
    pub end_date: String,
    /// Variety ID ("all" for all varieties).
    pub variety_id: String,
    /// Language ("zh" or "en").
    pub lang: String,
}

/// Rise/fall event (trading limit) information.
#[derive(Debug, Clone)]
pub struct RiseFallEvent {
    /// Trade date.
    pub trade_date: String,
    /// Contract ID.
    pub contract_id: String,
    /// Direction (limit up/down).
    pub direction: String,
    /// Number of times.
    pub times: i32,
}

/// Request for division price info.
#[derive(Debug, Clone)]
pub struct DivisionPriceInfoRequest {
    /// Variety ID.
    pub variety_id: String,
    /// Trade date (YYYYMMDD format).
    pub trade_date: String,
    /// Trade type ("1" = futures, "2" = options).
    pub trade_type: String,
}

/// Request for trading parameters by variety.
#[derive(Debug, Clone)]
pub struct TradingParamRequest {
    /// Language ("zh" or "en").
    pub lang: String,
}

/// Trading parameters for a variety.
#[derive(Debug, Clone)]
pub struct TradingParam {
    /// Variety ID.
    pub variety_id: String,
    /// Variety name.
    pub variety_name: String,
    /// Trading margin rate (speculation).
    pub trading_margin_rate_speculation: String,
    /// Trading margin rate (hedging).
    pub trading_margin_rate_hedging: String,
    /// Price limit for existing contracts.
    pub price_limit_existing_contract: String,
    /// Price limit for new contracts.
    pub price_limit_new_contract: String,
    /// Price limit for delivery month.
    pub price_limit_delivery_month: String,
    /// Trading margin rate (speculation) - Day N.
    pub trading_margin_rate_speculation_n: String,
    /// Trading margin rate (hedging) - Day N.
    pub trading_margin_rate_hedging_n: String,
    /// Settlement margin rate (speculation/hedging) - Day N.
    pub settlement_margin_rate_hedging_n: String,
    /// Price limit - Day N.
    pub price_limit_n: String,
    /// Trading margin rate (speculation/hedging) - Day N+1.
    pub trading_margin_rate_n1: String,
    /// Settlement margin rate (speculation/hedging) - Day N+1.
    pub settlement_margin_rate_hedging_n1: String,
    /// Price limit - Day N+1.
    pub price_limit_n1: String,
    /// Trading margin rate (speculation/hedging) - Day N+2.
    pub trading_margin_rate_n2: String,
    /// Price limit - Day N+2.
    pub price_limit_n2: String,
    /// Trading limit.
    pub trading_limit: String,
    /// Speculative open fee.
    pub spec_open_fee: String,
    /// Speculative offset fee.
    pub spec_offset_fee: String,
    /// Speculative short open fee (intraday).
    pub spec_short_open_fee: String,
    /// Speculative short offset fee (intraday).
    pub spec_short_offset_fee: String,
    /// Hedge open fee.
    pub hedge_open_fee: String,
    /// Hedge offset fee.
    pub hedge_offset_fee: String,
    /// Hedge short open fee (intraday).
    pub hedge_short_open_fee: String,
    /// Hedge short offset fee (intraday).
    pub hedge_short_offset_fee: String,
    /// Fee style.
    pub fee_style: String,
    /// Fee style (English).
    pub fee_style_en: String,
    /// Delivery fee.
    pub delivery_fee: String,
    /// Maximum hand (order size).
    pub max_hand: String,
}

/// Request for margin arbitrage performance parameters.
#[derive(Debug, Clone)]
pub struct MarginArbiPerfParaRequest {
    /// Variety ID.
    pub variety_id: String,
}

/// Margin arbitrage performance parameters.
#[derive(Debug, Clone)]
pub struct MarginArbiPerfPara {
    /// Variety.
    pub variety: String,
    /// Strategy name.
    pub strategy_name: String,
    /// Trading margin rate (speculation).
    pub trading_margin_rate_speculation: String,
    /// Trading margin rate (hedging).
    pub trading_margin_rate_hedging: String,
    /// Open fee.
    pub open_fee: String,
    /// Offset fee.
    pub offset_fee: String,
    /// Short open fee.
    pub short_open_fee: String,
    /// Short offset fee.
    pub short_offset_fee: String,
}

/// Request for new contract information.
#[derive(Debug, Clone)]
pub struct NewContractInfoRequest {
    /// Trade date (YYYYMMDD format).
    pub trade_date: String,
    /// Trade type ("1" = futures, "2" = options).
    pub trade_type: String,
    /// Language.
    pub lang: Option<String>,
}

/// New contract information.
#[derive(Debug, Clone)]
pub struct NewContractInfo {
    /// Trade type.
    pub trade_type: String,
    /// Variety.
    pub variety: String,
    /// Variety order.
    pub variety_order: String,
    /// Contract ID.
    pub contract_id: String,
    /// Start trade date.
    pub start_trade_date: String,
    /// Reference price unit.
    pub ref_price_unit: String,
    /// No rise limit.
    pub no_rise_limit: String,
    /// No fall limit.
    pub no_fall_limit: String,
}

/// Request for main series information (做市商持续报价合约).
#[derive(Debug, Clone)]
pub struct MainSeriesInfoRequest {
    /// Variety ID ("all" for all varieties).
    pub variety_id: String,
    /// Trade date (YYYYMMDD format).
    pub trade_date: String,
}

/// Main series information (market maker contracts).
#[derive(Debug, Clone)]
pub struct MainSeriesInfo {
    /// Trade date.
    pub trade_date: String,
    /// Variety ID.
    pub variety_id: String,
    /// Series ID.
    pub series_id: String,
    /// Contract ID.
    pub contract_id: String,
}

/// Request for TC congregate delivery (一次性交割卖方仓单查询).
#[derive(Debug, Clone)]
pub struct TcCongregateDeliveryRequest {
    /// Variety code ("all" for all varieties).
    pub variety: String,
    /// Contract month (YYYYMM format).
    pub contract_month: String,
}

/// TC congregate delivery information.
#[derive(Debug, Clone)]
pub struct TcCongregateDelivery {
    /// Variety ID.
    pub variety_id: String,
    /// Variety name.
    pub variety_name: String,
    /// Contract.
    pub contract: String,
    /// Warehouse name.
    pub warehouse_name: String,
    /// Warehouse bill quantity.
    pub wbill_quantity: String,
    /// Agreeable place.
    pub agreeable_place: String,
    /// Agreeable brand.
    pub agreeable_brand: String,
    /// Agreeable quality.
    pub agreeable_quality: String,
    /// Agreeable quantity.
    pub agreeable_quantity: String,
    /// Agreeable spread.
    pub agreeable_spread: String,
    /// Contacts.
    pub contracts: String,
    /// Contact way (method).
    pub contract_way: String,
    /// Warehouse group name.
    pub wh_group_name: String,
}

/// Request for roll delivery seller intention (滚动交割卖方交割意向表).
#[derive(Debug, Clone)]
pub struct RollDeliverySellerIntentionRequest {
    /// Variety code ("all" for all varieties).
    pub variety: String,
    /// Query date (YYYYMMDD format).
    pub date: String,
}

/// Roll delivery seller intention.
#[derive(Debug, Clone)]
pub struct RollDeliverySellerIntention {
    /// Variety ID.
    pub variety_id: String,
    /// Variety name.
    pub variety_name: String,
    /// Contract.
    pub contract: String,
    /// Type (e.g. 仓库/车板).
    pub type_: String,
    /// Warehouse code.
    pub warehouse_code: String,
    /// Warehouse name.
    pub warehouse_name: String,
    /// Quantity (string in doc).
    pub quantity: String,
    /// Agreeable place.
    pub agreeable_place: String,
    /// Agreeable brand.
    pub agreeable_brand: String,
    /// Agreeable quality.
    pub agreeable_quality: String,
    /// Agreeable quantity.
    pub agreeable_quantity: String,
    /// Agreeable spread.
    pub agreeable_spread: String,
    /// Contacts.
    pub contracts: String,
    /// Contact way (method).
    pub contract_way: String,
    /// Trade date.
    pub trade_date: String,
    /// Warehouse group name.
    pub wh_group_name: String,
    /// Delivery way.
    pub delivery_way: String,
}

/// Request for bonded delivery settlement price (交割结算价).
#[derive(Debug, Clone)]
pub struct BondedDeliveryRequest {
    /// Start date (YYYYMMDD format).
    pub start_date: String,
    /// End date (YYYYMMDD format).
    pub end_date: String,
}

/// Bonded delivery settlement price.
#[derive(Debug, Clone)]
pub struct BondedDelivery {
    /// Delivery date.
    pub delivery_date: String,
    /// Delivery way.
    pub delivery_way: String,
    /// Variety ID (e.g. i-铁矿石).
    pub variety_id: String,
    /// Contract ID.
    pub contract_id: String,
    /// Warehouse abbreviation.
    pub wh_abbr: String,
    /// Bonded delivery price.
    pub bonded_delivery_price: String,
    /// Delivery price.
    pub delivery_price: String,
}

/// Request for TD bonded delivery settlement price (保税交割结算价).
#[derive(Debug, Clone)]
pub struct TdBondedDeliveryRequest {
    /// Start date (YYYYMMDD format).
    pub start_date: String,
    /// End date (YYYYMMDD format).
    pub end_date: String,
}

/// TD bonded delivery settlement price (same structure as BondedDelivery).
pub type TdBondedDelivery = BondedDelivery;

/// Request for factory spot agio (basis spread).
#[derive(Debug, Clone)]
pub struct FactorySpotAgioRequest {
    /// Variety ID.
    pub variety_id: String,
    /// Trade date (YYYYMMDD format).
    pub trade_date: String,
}

/// Factory spot agio (price difference for fiberboard).
#[derive(Debug, Clone)]
pub struct FactorySpotAgio {
    /// Sequence number.
    pub seq_no: String,
    /// Factory abbreviation (Warehouse abbreviation).
    pub wh_abbr: String,
    /// Variety ID.
    pub variety_id: String,
    /// Variety name.
    pub variety_name: String,
    /// Warehouse code.
    pub wh_code: String,
    /// Thickness (mm).
    pub bh: String,
    /// Density min (g/cm3).
    pub mdmin: String,
    /// Density max (g/cm3).
    pub mdmax: String,
    /// Formaldehyde (mg/m3).
    pub jq: String,
    /// Price difference (Agio).
    pub agio: String,
    /// Min exchange amount.
    pub min_exchange_amount: String,
    /// Warehouse address.
    pub wh_addr: String,
    /// Contact person.
    pub connect_person: String,
    /// Telephone.
    pub tel: String,
}

/// Request for plywood delivery commodity.
#[derive(Debug, Clone)]
pub struct PlywoodDeliveryCommodityRequest {
    /// Variety ID.
    pub variety_id: String,
}

/// Plywood delivery commodity.
#[derive(Debug, Clone)]
pub struct PlywoodDeliveryCommodity {
    /// Apply ID.
    pub apply_id: String,
    /// Warehouse name.
    pub wh_name: String,
    /// Warehouse abbreviation.
    pub wh_abbr: String,
    /// Upload file ID.
    pub upload_file_id: String,
    /// File size.
    pub file_size: i64,
    /// Upload file name.
    pub upload_file_name: String,
}


} // verus!
