//! Typed requests: one variant per request kind, each with its fields in
//! wire order, and their encoding into a payload.
use vstd::prelude::*;
use crate::catalog::ServerReqMsgDiscriminants;
use crate::field::{FieldValue, WireFloat};
use crate::request::{fits_layout, make_request, request_payload, RequestArg};

verus! {

/// A request to the gateway. Composite values (contracts, orders, execution
/// filters, scanner subscriptions) are held as their already-encoded run of
/// NUL-terminated fields; floats are held in wire form.
#[derive(Clone, Debug)]
pub enum ServerReqMsg {
    ReqMktData {
        version: i32,
        req_id: i32,
        contract: String,
        trading_class: String,
        generic_tick_list: String,
        snapshot: bool,
        regulatory_snapshot: bool,
        mkt_data_options: String,
    },
    CancelMktData {
        version: i32,
        req_id: i32,
    },
    PlaceOrder {
        version: i32,
        order_id: i32,
        contract: String,
        trading_class: String,
        sec_id_type: String,
        sec_id: String,
        order: String,
    },
    CancelOrder {
        version: i32,
        order_id: i32,
    },
    ReqOpenOrders {
        version: i32,
    },
    ReqAcctData {
        version: i32,
        subscribe: bool,
        acct_code: String,
    },
    ReqExecutions {
        version: i32,
        req_id: i32,
        exec_filter: String,
    },
    ReqIds {
        version: i32,
        num_ids: i32,
    },
    ReqContractData {
        version: i32,
        req_id: i32,
        contract: String,
        trading_class: String,
        include_expired: bool,
        sec_id_type: String,
        sec_id: String,
    },
    ReqMktDepth {
        version: i32,
        req_id: i32,
        contract: String,
        trading_class: String,
        num_rows: i32,
        is_smart_depth: bool,
        mkt_depth_options: String,
    },
    CancelMktDepth {
        version: i32,
        req_id: i32,
        is_smart_depth: bool,
    },
    ReqNewsBulletins {
        version: i32,
        all_msgs: bool,
    },
    CancelNewsBulletins {
        version: i32,
    },
    SetServerLoglevel {
        version: i32,
        log_level: i32,
    },
    ReqAutoOpenOrders {
        version: i32,
        auto_bind: bool,
    },
    ReqAllOpenOrders {
        version: i32,
    },
    ReqManagedAccts {
        version: i32,
    },
    ReqFa {
        version: i32,
        fa_data: i32,
    },
    ReplaceFa {
        version: i32,
        fa_data: i32,
        cxml: String,
    },
    ReqHistoricalData {
        version: i32,
        req_id: i32,
        contract: String,
        trading_class: String,
        include_expired: bool,
        keep_up_to_date: bool,
        chart_options: String,
    },
    ExerciseOptions {
        version: i32,
        req_id: i32,
        contract: String,
        trading_class: String,
        exercise_action: i32,
        exercise_quantity: i32,
        account: String,
        over_ride: i32,
    },
    ReqScannerSubscription {
        version: i32,
        req_id: i32,
        subscription: String,
        scanner_subscription_filter: String,
        scanner_subscription_options: String,
    },
    CancelScannerSubscription {
        version: i32,
        req_id: i32,
    },
    ReqScannerParameters {
        version: i32,
    },
    CancelHistoricalData {
        version: i32,
        req_id: i32,
    },
    ReqCurrentTime {
        version: i32,
    },
    ReqRealTimeBars {
        version: i32,
        req_id: i32,
        contract: String,
        trading_class: String,
        bar_size: i32,
        what_to_show: String,
        use_rth: bool,
        real_time_bars_options: String,
    },
    CancelRealTimeBars {
        version: i32,
        req_id: i32,
    },
    ReqFundamentalData {
        version: i32,
        req_id: i32,
        contract: String,
        report_type: String,
        tags_value_count: i32,
        fund_data_opt: String,
    },
    CancelFundamentalData {
        version: i32,
        req_id: i32,
    },
    ReqCalcImpliedVolat {
        version: i32,
        req_id: i32,
        contract: String,
        trading_class: String,
        option_price: WireFloat,
        under_price: WireFloat,
        tag_values_cnt: usize,
        impl_vol_opt: String,
    },
    ReqCalcOptionPrice {
        version: i32,
        req_id: i32,
        contract: String,
        trading_class: String,
        volatility: WireFloat,
        under_price: WireFloat,
        tag_values_cnt: usize,
        opt_prc_opt: String,
    },
    CancelCalcImpliedVolat {
        version: i32,
        req_id: i32,
    },
    CancelCalcOptionPrice {
        version: i32,
        req_id: i32,
    },
    ReqGlobalCancel {
        version: i32,
    },
    ReqMarketDataType {
        version: i32,
        market_data_type: i32,
    },
    ReqPositions {
        version: i32,
    },
    ReqAccountSummary {
        version: i32,
        req_id: i32,
        group_name: String,
        tags: String,
    },
    CancelAccountSummary {
        version: i32,
        req_id: i32,
    },
    CancelPositions {
        version: i32,
    },
    VerifyRequest {
        version: i32,
        api_name: String,
        api_version: String,
    },
    VerifyMessage {
        version: i32,
        api_data: String,
    },
    QueryDisplayGroups {
        version: i32,
        req_id: i32,
    },
    SubscribeToGroupEvents {
        version: i32,
        req_id: i32,
        group_id: i32,
    },
    UpdateDisplayGroup {
        version: i32,
        req_id: i32,
        contract_info: String,
    },
    UnsubscribeFromGroupEvents {
        version: i32,
        req_id: i32,
    },
    StartApi {
        version: i32,
        client_id: String,
    },
    VerifyAndAuthRequest {
        version: i32,
        api_name: String,
        api_version: String,
        opaque_isv_key: String,
    },
    VerifyAndAuthMessage {
        version: i32,
        api_data: String,
        xyz_response: String,
    },
    ReqPositionsMulti {
        version: i32,
        req_id: i32,
        account: String,
        model_code: String,
    },
    CancelPositionsMulti {
        version: i32,
        req_id: i32,
    },
    ReqAccountUpdatesMulti {
        version: i32,
        req_id: i32,
        account: String,
        model_code: String,
        ledger_and_nlv: bool,
    },
    CancelAccountUpdatesMulti {
        version: i32,
        req_id: i32,
    },
    ReqSecDefOptParams {
        req_id: i32,
        underlying_symbol: String,
        fut_fop_exchange: String,
        underlying_sec_type: String,
        underlying_con_id: i32,
    },
    ReqSoftDollarTiers {
        req_id: i32,
    },
    ReqFamilyCodes,
    ReqMatchingSymbols {
        req_id: i32,
        pattern: String,
    },
    ReqMktDepthExchanges,
    ReqSmartComponents {
        req_id: i32,
        bbo_exchange: String,
    },
    ReqNewsArticle {
        req_id: i32,
        provider_code: String,
        article_id: String,
        news_article_options: String,
    },
    ReqNewsProviders,
    ReqHistoricalNews {
        req_id: i32,
        con_id: i32,
        provider_codes: String,
        start_date_time: String,
        end_date_time: String,
        total_results: i32,
        historical_news_options: String,
    },
    ReqHeadTimestamp {
        req_id: i32,
        contract: String,
        trading_class: String,
        include_expired: bool,
        use_rth: i32,
        what_to_show: String,
        format_date: i32,
    },
    ReqHistogramData {
        ticker_id: i32,
        contract: String,
        trading_class: String,
        include_expired: bool,
        use_rth: bool,
        time_period: String,
    },
    CancelHistogramData {
        ticker_id: i32,
    },
    CancelHeadTimestamp {
        req_id: i32,
    },
    ReqMarketRule {
        market_rule_id: i32,
    },
    ReqPnl {
        req_id: i32,
        account: String,
        model_code: String,
    },
    CancelPnl {
        req_id: i32,
    },
    ReqPnlSingle {
        req_id: i32,
        account: String,
        model_code: String,
        con_id: i32,
    },
    CancelPnlSingle {
        req_id: i32,
    },
    ReqHistoricalTicks {
        req_id: i32,
        contract: String,
        trading_class: String,
        include_expired: bool,
        start_date_time: String,
        end_date_time: String,
        number_of_ticks: i32,
        what_to_show: String,
        use_rth: i32,
        ignore_size: bool,
        misc_options: String,
    },
    ReqTickByTickData {
        req_id: i32,
        contract: String,
        trading_class: String,
        tick_type: String,
        number_of_ticks: i32,
        ignore_size: bool,
    },
    CancelTickByTickData {
        req_id: i32,
    },
    ReqCompletedOrders {
        api_only: bool,
    },
}

impl ServerReqMsg {
    /// The catalog entry of the request.
    pub open spec fn spec_kind(self) -> ServerReqMsgDiscriminants {
        match self {
            ServerReqMsg::ReqMktData { .. } => ServerReqMsgDiscriminants::ReqMktData,
            ServerReqMsg::CancelMktData { .. } => ServerReqMsgDiscriminants::CancelMktData,
            ServerReqMsg::PlaceOrder { .. } => ServerReqMsgDiscriminants::PlaceOrder,
            ServerReqMsg::CancelOrder { .. } => ServerReqMsgDiscriminants::CancelOrder,
            ServerReqMsg::ReqOpenOrders { .. } => ServerReqMsgDiscriminants::ReqOpenOrders,
            ServerReqMsg::ReqAcctData { .. } => ServerReqMsgDiscriminants::ReqAcctData,
            ServerReqMsg::ReqExecutions { .. } => ServerReqMsgDiscriminants::ReqExecutions,
            ServerReqMsg::ReqIds { .. } => ServerReqMsgDiscriminants::ReqIds,
            ServerReqMsg::ReqContractData { .. } => ServerReqMsgDiscriminants::ReqContractData,
            ServerReqMsg::ReqMktDepth { .. } => ServerReqMsgDiscriminants::ReqMktDepth,
            ServerReqMsg::CancelMktDepth { .. } => ServerReqMsgDiscriminants::CancelMktDepth,
            ServerReqMsg::ReqNewsBulletins { .. } => ServerReqMsgDiscriminants::ReqNewsBulletins,
            ServerReqMsg::CancelNewsBulletins { .. } => ServerReqMsgDiscriminants::CancelNewsBulletins,
            ServerReqMsg::SetServerLoglevel { .. } => ServerReqMsgDiscriminants::SetServerLoglevel,
            ServerReqMsg::ReqAutoOpenOrders { .. } => ServerReqMsgDiscriminants::ReqAutoOpenOrders,
            ServerReqMsg::ReqAllOpenOrders { .. } => ServerReqMsgDiscriminants::ReqAllOpenOrders,
            ServerReqMsg::ReqManagedAccts { .. } => ServerReqMsgDiscriminants::ReqManagedAccts,
            ServerReqMsg::ReqFa { .. } => ServerReqMsgDiscriminants::ReqFa,
            ServerReqMsg::ReplaceFa { .. } => ServerReqMsgDiscriminants::ReplaceFa,
            ServerReqMsg::ReqHistoricalData { .. } => ServerReqMsgDiscriminants::ReqHistoricalData,
            ServerReqMsg::ExerciseOptions { .. } => ServerReqMsgDiscriminants::ExerciseOptions,
            ServerReqMsg::ReqScannerSubscription { .. } => ServerReqMsgDiscriminants::ReqScannerSubscription,
            ServerReqMsg::CancelScannerSubscription { .. } => ServerReqMsgDiscriminants::CancelScannerSubscription,
            ServerReqMsg::ReqScannerParameters { .. } => ServerReqMsgDiscriminants::ReqScannerParameters,
            ServerReqMsg::CancelHistoricalData { .. } => ServerReqMsgDiscriminants::CancelHistoricalData,
            ServerReqMsg::ReqCurrentTime { .. } => ServerReqMsgDiscriminants::ReqCurrentTime,
            ServerReqMsg::ReqRealTimeBars { .. } => ServerReqMsgDiscriminants::ReqRealTimeBars,
            ServerReqMsg::CancelRealTimeBars { .. } => ServerReqMsgDiscriminants::CancelRealTimeBars,
            ServerReqMsg::ReqFundamentalData { .. } => ServerReqMsgDiscriminants::ReqFundamentalData,
            ServerReqMsg::CancelFundamentalData { .. } => ServerReqMsgDiscriminants::CancelFundamentalData,
            ServerReqMsg::ReqCalcImpliedVolat { .. } => ServerReqMsgDiscriminants::ReqCalcImpliedVolat,
            ServerReqMsg::ReqCalcOptionPrice { .. } => ServerReqMsgDiscriminants::ReqCalcOptionPrice,
            ServerReqMsg::CancelCalcImpliedVolat { .. } => ServerReqMsgDiscriminants::CancelCalcImpliedVolat,
            ServerReqMsg::CancelCalcOptionPrice { .. } => ServerReqMsgDiscriminants::CancelCalcOptionPrice,
            ServerReqMsg::ReqGlobalCancel { .. } => ServerReqMsgDiscriminants::ReqGlobalCancel,
            ServerReqMsg::ReqMarketDataType { .. } => ServerReqMsgDiscriminants::ReqMarketDataType,
            ServerReqMsg::ReqPositions { .. } => ServerReqMsgDiscriminants::ReqPositions,
            ServerReqMsg::ReqAccountSummary { .. } => ServerReqMsgDiscriminants::ReqAccountSummary,
            ServerReqMsg::CancelAccountSummary { .. } => ServerReqMsgDiscriminants::CancelAccountSummary,
            ServerReqMsg::CancelPositions { .. } => ServerReqMsgDiscriminants::CancelPositions,
            ServerReqMsg::VerifyRequest { .. } => ServerReqMsgDiscriminants::VerifyRequest,
            ServerReqMsg::VerifyMessage { .. } => ServerReqMsgDiscriminants::VerifyMessage,
            ServerReqMsg::QueryDisplayGroups { .. } => ServerReqMsgDiscriminants::QueryDisplayGroups,
            ServerReqMsg::SubscribeToGroupEvents { .. } => ServerReqMsgDiscriminants::SubscribeToGroupEvents,
            ServerReqMsg::UpdateDisplayGroup { .. } => ServerReqMsgDiscriminants::UpdateDisplayGroup,
            ServerReqMsg::UnsubscribeFromGroupEvents { .. } => ServerReqMsgDiscriminants::UnsubscribeFromGroupEvents,
            ServerReqMsg::StartApi { .. } => ServerReqMsgDiscriminants::StartApi,
            ServerReqMsg::VerifyAndAuthRequest { .. } => ServerReqMsgDiscriminants::VerifyAndAuthRequest,
            ServerReqMsg::VerifyAndAuthMessage { .. } => ServerReqMsgDiscriminants::VerifyAndAuthMessage,
            ServerReqMsg::ReqPositionsMulti { .. } => ServerReqMsgDiscriminants::ReqPositionsMulti,
            ServerReqMsg::CancelPositionsMulti { .. } => ServerReqMsgDiscriminants::CancelPositionsMulti,
            ServerReqMsg::ReqAccountUpdatesMulti { .. } => ServerReqMsgDiscriminants::ReqAccountUpdatesMulti,
            ServerReqMsg::CancelAccountUpdatesMulti { .. } => ServerReqMsgDiscriminants::CancelAccountUpdatesMulti,
            ServerReqMsg::ReqSecDefOptParams { .. } => ServerReqMsgDiscriminants::ReqSecDefOptParams,
            ServerReqMsg::ReqSoftDollarTiers { .. } => ServerReqMsgDiscriminants::ReqSoftDollarTiers,
            ServerReqMsg::ReqFamilyCodes { .. } => ServerReqMsgDiscriminants::ReqFamilyCodes,
            ServerReqMsg::ReqMatchingSymbols { .. } => ServerReqMsgDiscriminants::ReqMatchingSymbols,
            ServerReqMsg::ReqMktDepthExchanges { .. } => ServerReqMsgDiscriminants::ReqMktDepthExchanges,
            ServerReqMsg::ReqSmartComponents { .. } => ServerReqMsgDiscriminants::ReqSmartComponents,
            ServerReqMsg::ReqNewsArticle { .. } => ServerReqMsgDiscriminants::ReqNewsArticle,
            ServerReqMsg::ReqNewsProviders { .. } => ServerReqMsgDiscriminants::ReqNewsProviders,
            ServerReqMsg::ReqHistoricalNews { .. } => ServerReqMsgDiscriminants::ReqHistoricalNews,
            ServerReqMsg::ReqHeadTimestamp { .. } => ServerReqMsgDiscriminants::ReqHeadTimestamp,
            ServerReqMsg::ReqHistogramData { .. } => ServerReqMsgDiscriminants::ReqHistogramData,
            ServerReqMsg::CancelHistogramData { .. } => ServerReqMsgDiscriminants::CancelHistogramData,
            ServerReqMsg::CancelHeadTimestamp { .. } => ServerReqMsgDiscriminants::CancelHeadTimestamp,
            ServerReqMsg::ReqMarketRule { .. } => ServerReqMsgDiscriminants::ReqMarketRule,
            ServerReqMsg::ReqPnl { .. } => ServerReqMsgDiscriminants::ReqPnl,
            ServerReqMsg::CancelPnl { .. } => ServerReqMsgDiscriminants::CancelPnl,
            ServerReqMsg::ReqPnlSingle { .. } => ServerReqMsgDiscriminants::ReqPnlSingle,
            ServerReqMsg::CancelPnlSingle { .. } => ServerReqMsgDiscriminants::CancelPnlSingle,
            ServerReqMsg::ReqHistoricalTicks { .. } => ServerReqMsgDiscriminants::ReqHistoricalTicks,
            ServerReqMsg::ReqTickByTickData { .. } => ServerReqMsgDiscriminants::ReqTickByTickData,
            ServerReqMsg::CancelTickByTickData { .. } => ServerReqMsgDiscriminants::CancelTickByTickData,
            ServerReqMsg::ReqCompletedOrders { .. } => ServerReqMsgDiscriminants::ReqCompletedOrders,
        }
    }

    /// The version the request carries; 0 for kinds that send none.
    pub open spec fn spec_version(self) -> i32 {
        match self {
            ServerReqMsg::ReqMktData { version, .. } => version,
            ServerReqMsg::CancelMktData { version, .. } => version,
            ServerReqMsg::PlaceOrder { version, .. } => version,
            ServerReqMsg::CancelOrder { version, .. } => version,
            ServerReqMsg::ReqOpenOrders { version, .. } => version,
            ServerReqMsg::ReqAcctData { version, .. } => version,
            ServerReqMsg::ReqExecutions { version, .. } => version,
            ServerReqMsg::ReqIds { version, .. } => version,
            ServerReqMsg::ReqContractData { version, .. } => version,
            ServerReqMsg::ReqMktDepth { version, .. } => version,
            ServerReqMsg::CancelMktDepth { version, .. } => version,
            ServerReqMsg::ReqNewsBulletins { version, .. } => version,
            ServerReqMsg::CancelNewsBulletins { version, .. } => version,
            ServerReqMsg::SetServerLoglevel { version, .. } => version,
            ServerReqMsg::ReqAutoOpenOrders { version, .. } => version,
            ServerReqMsg::ReqAllOpenOrders { version, .. } => version,
            ServerReqMsg::ReqManagedAccts { version, .. } => version,
            ServerReqMsg::ReqFa { version, .. } => version,
            ServerReqMsg::ReplaceFa { version, .. } => version,
            ServerReqMsg::ReqHistoricalData { version, .. } => version,
            ServerReqMsg::ExerciseOptions { version, .. } => version,
            ServerReqMsg::ReqScannerSubscription { version, .. } => version,
            ServerReqMsg::CancelScannerSubscription { version, .. } => version,
            ServerReqMsg::ReqScannerParameters { version, .. } => version,
            ServerReqMsg::CancelHistoricalData { version, .. } => version,
            ServerReqMsg::ReqCurrentTime { version, .. } => version,
            ServerReqMsg::ReqRealTimeBars { version, .. } => version,
            ServerReqMsg::CancelRealTimeBars { version, .. } => version,
            ServerReqMsg::ReqFundamentalData { version, .. } => version,
            ServerReqMsg::CancelFundamentalData { version, .. } => version,
            ServerReqMsg::ReqCalcImpliedVolat { version, .. } => version,
            ServerReqMsg::ReqCalcOptionPrice { version, .. } => version,
            ServerReqMsg::CancelCalcImpliedVolat { version, .. } => version,
            ServerReqMsg::CancelCalcOptionPrice { version, .. } => version,
            ServerReqMsg::ReqGlobalCancel { version, .. } => version,
            ServerReqMsg::ReqMarketDataType { version, .. } => version,
            ServerReqMsg::ReqPositions { version, .. } => version,
            ServerReqMsg::ReqAccountSummary { version, .. } => version,
            ServerReqMsg::CancelAccountSummary { version, .. } => version,
            ServerReqMsg::CancelPositions { version, .. } => version,
            ServerReqMsg::VerifyRequest { version, .. } => version,
            ServerReqMsg::VerifyMessage { version, .. } => version,
            ServerReqMsg::QueryDisplayGroups { version, .. } => version,
            ServerReqMsg::SubscribeToGroupEvents { version, .. } => version,
            ServerReqMsg::UpdateDisplayGroup { version, .. } => version,
            ServerReqMsg::UnsubscribeFromGroupEvents { version, .. } => version,
            ServerReqMsg::StartApi { version, .. } => version,
            ServerReqMsg::VerifyAndAuthRequest { version, .. } => version,
            ServerReqMsg::VerifyAndAuthMessage { version, .. } => version,
            ServerReqMsg::ReqPositionsMulti { version, .. } => version,
            ServerReqMsg::CancelPositionsMulti { version, .. } => version,
            ServerReqMsg::ReqAccountUpdatesMulti { version, .. } => version,
            ServerReqMsg::CancelAccountUpdatesMulti { version, .. } => version,
            ServerReqMsg::ReqSecDefOptParams { .. } => 0,
            ServerReqMsg::ReqSoftDollarTiers { .. } => 0,
            ServerReqMsg::ReqFamilyCodes { .. } => 0,
            ServerReqMsg::ReqMatchingSymbols { .. } => 0,
            ServerReqMsg::ReqMktDepthExchanges { .. } => 0,
            ServerReqMsg::ReqSmartComponents { .. } => 0,
            ServerReqMsg::ReqNewsArticle { .. } => 0,
            ServerReqMsg::ReqNewsProviders { .. } => 0,
            ServerReqMsg::ReqHistoricalNews { .. } => 0,
            ServerReqMsg::ReqHeadTimestamp { .. } => 0,
            ServerReqMsg::ReqHistogramData { .. } => 0,
            ServerReqMsg::CancelHistogramData { .. } => 0,
            ServerReqMsg::CancelHeadTimestamp { .. } => 0,
            ServerReqMsg::ReqMarketRule { .. } => 0,
            ServerReqMsg::ReqPnl { .. } => 0,
            ServerReqMsg::CancelPnl { .. } => 0,
            ServerReqMsg::ReqPnlSingle { .. } => 0,
            ServerReqMsg::CancelPnlSingle { .. } => 0,
            ServerReqMsg::ReqHistoricalTicks { .. } => 0,
            ServerReqMsg::ReqTickByTickData { .. } => 0,
            ServerReqMsg::CancelTickByTickData { .. } => 0,
            ServerReqMsg::ReqCompletedOrders { .. } => 0,
        }
    }

    /// The request's arguments after the code and the version, in wire order.
    pub open spec fn spec_args(self) -> Seq<RequestArg> {
        match self {
            ServerReqMsg::ReqMktData { req_id, contract, trading_class, generic_tick_list, snapshot, regulatory_snapshot, mkt_data_options, .. } => seq![
                RequestArg::Value(FieldValue::Int(req_id)),
                RequestArg::Block(contract),
                RequestArg::Value(FieldValue::Text(trading_class)),
                RequestArg::Value(FieldValue::Text(generic_tick_list)),
                RequestArg::Value(FieldValue::Bool(snapshot)),
                RequestArg::Value(FieldValue::Bool(regulatory_snapshot)),
                RequestArg::Value(FieldValue::Text(mkt_data_options)),
            ],
            ServerReqMsg::CancelMktData { req_id, .. } => seq![
                RequestArg::Value(FieldValue::Int(req_id)),
            ],
            ServerReqMsg::PlaceOrder { order_id, contract, trading_class, sec_id_type, sec_id, order, .. } => seq![
                RequestArg::Value(FieldValue::Int(order_id)),
                RequestArg::Block(contract),
                RequestArg::Value(FieldValue::Text(trading_class)),
                RequestArg::Value(FieldValue::Text(sec_id_type)),
                RequestArg::Value(FieldValue::Text(sec_id)),
                RequestArg::Block(order),
            ],
            ServerReqMsg::CancelOrder { order_id, .. } => seq![
                RequestArg::Value(FieldValue::Int(order_id)),
            ],
            ServerReqMsg::ReqOpenOrders { .. } => Seq::empty(),
            ServerReqMsg::ReqAcctData { subscribe, acct_code, .. } => seq![
                RequestArg::Value(FieldValue::Bool(subscribe)),
                RequestArg::Value(FieldValue::Text(acct_code)),
            ],
            ServerReqMsg::ReqExecutions { req_id, exec_filter, .. } => seq![
                RequestArg::Value(FieldValue::Int(req_id)),
                RequestArg::Block(exec_filter),
            ],
            ServerReqMsg::ReqIds { num_ids, .. } => seq![
                RequestArg::Value(FieldValue::Int(num_ids)),
            ],
            ServerReqMsg::ReqContractData { req_id, contract, trading_class, include_expired, sec_id_type, sec_id, .. } => seq![
                RequestArg::Value(FieldValue::Int(req_id)),
                RequestArg::Block(contract),
                RequestArg::Value(FieldValue::Text(trading_class)),
                RequestArg::Value(FieldValue::Bool(include_expired)),
                RequestArg::Value(FieldValue::Text(sec_id_type)),
                RequestArg::Value(FieldValue::Text(sec_id)),
            ],
            ServerReqMsg::ReqMktDepth { req_id, contract, trading_class, num_rows, is_smart_depth, mkt_depth_options, .. } => seq![
                RequestArg::Value(FieldValue::Int(req_id)),
                RequestArg::Block(contract),
                RequestArg::Value(FieldValue::Text(trading_class)),
                RequestArg::Value(FieldValue::Int(num_rows)),
                RequestArg::Value(FieldValue::Bool(is_smart_depth)),
                RequestArg::Value(FieldValue::Text(mkt_depth_options)),
            ],
            ServerReqMsg::CancelMktDepth { req_id, is_smart_depth, .. } => seq![
                RequestArg::Value(FieldValue::Int(req_id)),
                RequestArg::Value(FieldValue::Bool(is_smart_depth)),
            ],
            ServerReqMsg::ReqNewsBulletins { all_msgs, .. } => seq![
                RequestArg::Value(FieldValue::Bool(all_msgs)),
            ],
            ServerReqMsg::CancelNewsBulletins { .. } => Seq::empty(),
            ServerReqMsg::SetServerLoglevel { log_level, .. } => seq![
                RequestArg::Value(FieldValue::Int(log_level)),
            ],
            ServerReqMsg::ReqAutoOpenOrders { auto_bind, .. } => seq![
                RequestArg::Value(FieldValue::Bool(auto_bind)),
            ],
            ServerReqMsg::ReqAllOpenOrders { .. } => Seq::empty(),
            ServerReqMsg::ReqManagedAccts { .. } => Seq::empty(),
            ServerReqMsg::ReqFa { fa_data, .. } => seq![
                RequestArg::Value(FieldValue::Int(fa_data)),
            ],
            ServerReqMsg::ReplaceFa { fa_data, cxml, .. } => seq![
                RequestArg::Value(FieldValue::Int(fa_data)),
                RequestArg::Value(FieldValue::Text(cxml)),
            ],
            ServerReqMsg::ReqHistoricalData { req_id, contract, trading_class, include_expired, keep_up_to_date, chart_options, .. } => seq![
                RequestArg::Value(FieldValue::Int(req_id)),
                RequestArg::Block(contract),
                RequestArg::Value(FieldValue::Text(trading_class)),
                RequestArg::Value(FieldValue::Bool(include_expired)),
                RequestArg::Value(FieldValue::Bool(keep_up_to_date)),
                RequestArg::Value(FieldValue::Text(chart_options)),
            ],
            ServerReqMsg::ExerciseOptions { req_id, contract, trading_class, exercise_action, exercise_quantity, account, over_ride, .. } => seq![
                RequestArg::Value(FieldValue::Int(req_id)),
                RequestArg::Block(contract),
                RequestArg::Value(FieldValue::Text(trading_class)),
                RequestArg::Value(FieldValue::Int(exercise_action)),
                RequestArg::Value(FieldValue::Int(exercise_quantity)),
                RequestArg::Value(FieldValue::Text(account)),
                RequestArg::Value(FieldValue::Int(over_ride)),
            ],
            ServerReqMsg::ReqScannerSubscription { req_id, subscription, scanner_subscription_filter, scanner_subscription_options, .. } => seq![
                RequestArg::Value(FieldValue::Int(req_id)),
                RequestArg::Block(subscription),
                RequestArg::Value(FieldValue::Text(scanner_subscription_filter)),
                RequestArg::Value(FieldValue::Text(scanner_subscription_options)),
            ],
            ServerReqMsg::CancelScannerSubscription { req_id, .. } => seq![
                RequestArg::Value(FieldValue::Int(req_id)),
            ],
            ServerReqMsg::ReqScannerParameters { .. } => Seq::empty(),
            ServerReqMsg::CancelHistoricalData { req_id, .. } => seq![
                RequestArg::Value(FieldValue::Int(req_id)),
            ],
            ServerReqMsg::ReqCurrentTime { .. } => Seq::empty(),
            ServerReqMsg::ReqRealTimeBars { req_id, contract, trading_class, bar_size, what_to_show, use_rth, real_time_bars_options, .. } => seq![
                RequestArg::Value(FieldValue::Int(req_id)),
                RequestArg::Block(contract),
                RequestArg::Value(FieldValue::Text(trading_class)),
                RequestArg::Value(FieldValue::Int(bar_size)),
                RequestArg::Value(FieldValue::Text(what_to_show)),
                RequestArg::Value(FieldValue::Bool(use_rth)),
                RequestArg::Value(FieldValue::Text(real_time_bars_options)),
            ],
            ServerReqMsg::CancelRealTimeBars { req_id, .. } => seq![
                RequestArg::Value(FieldValue::Int(req_id)),
            ],
            ServerReqMsg::ReqFundamentalData { req_id, contract, report_type, tags_value_count, fund_data_opt, .. } => seq![
                RequestArg::Value(FieldValue::Int(req_id)),
                RequestArg::Block(contract),
                RequestArg::Value(FieldValue::Text(report_type)),
                RequestArg::Value(FieldValue::Int(tags_value_count)),
                RequestArg::Value(FieldValue::Text(fund_data_opt)),
            ],
            ServerReqMsg::CancelFundamentalData { req_id, .. } => seq![
                RequestArg::Value(FieldValue::Int(req_id)),
            ],
            ServerReqMsg::ReqCalcImpliedVolat { req_id, contract, trading_class, option_price, under_price, tag_values_cnt, impl_vol_opt, .. } => seq![
                RequestArg::Value(FieldValue::Int(req_id)),
                RequestArg::Block(contract),
                RequestArg::Value(FieldValue::Text(trading_class)),
                RequestArg::Value(FieldValue::Float(option_price)),
                RequestArg::Value(FieldValue::Float(under_price)),
                RequestArg::Value(FieldValue::Size(tag_values_cnt)),
                RequestArg::Value(FieldValue::Text(impl_vol_opt)),
            ],
            ServerReqMsg::ReqCalcOptionPrice { req_id, contract, trading_class, volatility, under_price, tag_values_cnt, opt_prc_opt, .. } => seq![
                RequestArg::Value(FieldValue::Int(req_id)),
                RequestArg::Block(contract),
                RequestArg::Value(FieldValue::Text(trading_class)),
                RequestArg::Value(FieldValue::Float(volatility)),
                RequestArg::Value(FieldValue::Float(under_price)),
                RequestArg::Value(FieldValue::Size(tag_values_cnt)),
                RequestArg::Value(FieldValue::Text(opt_prc_opt)),
            ],
            ServerReqMsg::CancelCalcImpliedVolat { req_id, .. } => seq![
                RequestArg::Value(FieldValue::Int(req_id)),
            ],
            ServerReqMsg::CancelCalcOptionPrice { req_id, .. } => seq![
                RequestArg::Value(FieldValue::Int(req_id)),
            ],
            ServerReqMsg::ReqGlobalCancel { .. } => Seq::empty(),
            ServerReqMsg::ReqMarketDataType { market_data_type, .. } => seq![
                RequestArg::Value(FieldValue::Int(market_data_type)),
            ],
            ServerReqMsg::ReqPositions { .. } => Seq::empty(),
            ServerReqMsg::ReqAccountSummary { req_id, group_name, tags, .. } => seq![
                RequestArg::Value(FieldValue::Int(req_id)),
                RequestArg::Value(FieldValue::Text(group_name)),
                RequestArg::Value(FieldValue::Text(tags)),
            ],
            ServerReqMsg::CancelAccountSummary { req_id, .. } => seq![
                RequestArg::Value(FieldValue::Int(req_id)),
            ],
            ServerReqMsg::CancelPositions { .. } => Seq::empty(),
            ServerReqMsg::VerifyRequest { api_name, api_version, .. } => seq![
                RequestArg::Value(FieldValue::Text(api_name)),
                RequestArg::Value(FieldValue::Text(api_version)),
            ],
            ServerReqMsg::VerifyMessage { api_data, .. } => seq![
                RequestArg::Value(FieldValue::Text(api_data)),
            ],
            ServerReqMsg::QueryDisplayGroups { req_id, .. } => seq![
                RequestArg::Value(FieldValue::Int(req_id)),
            ],
            ServerReqMsg::SubscribeToGroupEvents { req_id, group_id, .. } => seq![
                RequestArg::Value(FieldValue::Int(req_id)),
                RequestArg::Value(FieldValue::Int(group_id)),
            ],
            ServerReqMsg::UpdateDisplayGroup { req_id, contract_info, .. } => seq![
                RequestArg::Value(FieldValue::Int(req_id)),
                RequestArg::Value(FieldValue::Text(contract_info)),
            ],
            ServerReqMsg::UnsubscribeFromGroupEvents { req_id, .. } => seq![
                RequestArg::Value(FieldValue::Int(req_id)),
            ],
            ServerReqMsg::StartApi { client_id, .. } => seq![
                RequestArg::Value(FieldValue::Text(client_id)),
            ],
            ServerReqMsg::VerifyAndAuthRequest { api_name, api_version, opaque_isv_key, .. } => seq![
                RequestArg::Value(FieldValue::Text(api_name)),
                RequestArg::Value(FieldValue::Text(api_version)),
                RequestArg::Value(FieldValue::Text(opaque_isv_key)),
            ],
            ServerReqMsg::VerifyAndAuthMessage { api_data, xyz_response, .. } => seq![
                RequestArg::Value(FieldValue::Text(api_data)),
                RequestArg::Value(FieldValue::Text(xyz_response)),
            ],
            ServerReqMsg::ReqPositionsMulti { req_id, account, model_code, .. } => seq![
                RequestArg::Value(FieldValue::Int(req_id)),
                RequestArg::Value(FieldValue::Text(account)),
                RequestArg::Value(FieldValue::Text(model_code)),
            ],
            ServerReqMsg::CancelPositionsMulti { req_id, .. } => seq![
                RequestArg::Value(FieldValue::Int(req_id)),
            ],
            ServerReqMsg::ReqAccountUpdatesMulti { req_id, account, model_code, ledger_and_nlv, .. } => seq![
                RequestArg::Value(FieldValue::Int(req_id)),
                RequestArg::Value(FieldValue::Text(account)),
                RequestArg::Value(FieldValue::Text(model_code)),
                RequestArg::Value(FieldValue::Bool(ledger_and_nlv)),
            ],
            ServerReqMsg::CancelAccountUpdatesMulti { req_id, .. } => seq![
                RequestArg::Value(FieldValue::Int(req_id)),
            ],
            ServerReqMsg::ReqSecDefOptParams { req_id, underlying_symbol, fut_fop_exchange, underlying_sec_type, underlying_con_id, .. } => seq![
                RequestArg::Value(FieldValue::Int(req_id)),
                RequestArg::Value(FieldValue::Text(underlying_symbol)),
                RequestArg::Value(FieldValue::Text(fut_fop_exchange)),
                RequestArg::Value(FieldValue::Text(underlying_sec_type)),
                RequestArg::Value(FieldValue::Int(underlying_con_id)),
            ],
            ServerReqMsg::ReqSoftDollarTiers { req_id, .. } => seq![
                RequestArg::Value(FieldValue::Int(req_id)),
            ],
            ServerReqMsg::ReqFamilyCodes { .. } => Seq::empty(),
            ServerReqMsg::ReqMatchingSymbols { req_id, pattern, .. } => seq![
                RequestArg::Value(FieldValue::Int(req_id)),
                RequestArg::Value(FieldValue::Text(pattern)),
            ],
            ServerReqMsg::ReqMktDepthExchanges { .. } => Seq::empty(),
            ServerReqMsg::ReqSmartComponents { req_id, bbo_exchange, .. } => seq![
                RequestArg::Value(FieldValue::Int(req_id)),
                RequestArg::Value(FieldValue::Text(bbo_exchange)),
            ],
            ServerReqMsg::ReqNewsArticle { req_id, provider_code, article_id, news_article_options, .. } => seq![
                RequestArg::Value(FieldValue::Int(req_id)),
                RequestArg::Value(FieldValue::Text(provider_code)),
                RequestArg::Value(FieldValue::Text(article_id)),
                RequestArg::Value(FieldValue::Text(news_article_options)),
            ],
            ServerReqMsg::ReqNewsProviders { .. } => Seq::empty(),
            ServerReqMsg::ReqHistoricalNews { req_id, con_id, provider_codes, start_date_time, end_date_time, total_results, historical_news_options, .. } => seq![
                RequestArg::Value(FieldValue::Int(req_id)),
                RequestArg::Value(FieldValue::Int(con_id)),
                RequestArg::Value(FieldValue::Text(provider_codes)),
                RequestArg::Value(FieldValue::Text(start_date_time)),
                RequestArg::Value(FieldValue::Text(end_date_time)),
                RequestArg::Value(FieldValue::Int(total_results)),
                RequestArg::Value(FieldValue::Text(historical_news_options)),
            ],
            ServerReqMsg::ReqHeadTimestamp { req_id, contract, trading_class, include_expired, use_rth, what_to_show, format_date, .. } => seq![
                RequestArg::Value(FieldValue::Int(req_id)),
                RequestArg::Block(contract),
                RequestArg::Value(FieldValue::Text(trading_class)),
                RequestArg::Value(FieldValue::Bool(include_expired)),
                RequestArg::Value(FieldValue::Int(use_rth)),
                RequestArg::Value(FieldValue::Text(what_to_show)),
                RequestArg::Value(FieldValue::Int(format_date)),
            ],
            ServerReqMsg::ReqHistogramData { ticker_id, contract, trading_class, include_expired, use_rth, time_period, .. } => seq![
                RequestArg::Value(FieldValue::Int(ticker_id)),
                RequestArg::Block(contract),
                RequestArg::Value(FieldValue::Text(trading_class)),
                RequestArg::Value(FieldValue::Bool(include_expired)),
                RequestArg::Value(FieldValue::Bool(use_rth)),
                RequestArg::Value(FieldValue::Text(time_period)),
            ],
            ServerReqMsg::CancelHistogramData { ticker_id, .. } => seq![
                RequestArg::Value(FieldValue::Int(ticker_id)),
            ],
            ServerReqMsg::CancelHeadTimestamp { req_id, .. } => seq![
                RequestArg::Value(FieldValue::Int(req_id)),
            ],
            ServerReqMsg::ReqMarketRule { market_rule_id, .. } => seq![
                RequestArg::Value(FieldValue::Int(market_rule_id)),
            ],
            ServerReqMsg::ReqPnl { req_id, account, model_code, .. } => seq![
                RequestArg::Value(FieldValue::Int(req_id)),
                RequestArg::Value(FieldValue::Text(account)),
                RequestArg::Value(FieldValue::Text(model_code)),
            ],
            ServerReqMsg::CancelPnl { req_id, .. } => seq![
                RequestArg::Value(FieldValue::Int(req_id)),
            ],
            ServerReqMsg::ReqPnlSingle { req_id, account, model_code, con_id, .. } => seq![
                RequestArg::Value(FieldValue::Int(req_id)),
                RequestArg::Value(FieldValue::Text(account)),
                RequestArg::Value(FieldValue::Text(model_code)),
                RequestArg::Value(FieldValue::Int(con_id)),
            ],
            ServerReqMsg::CancelPnlSingle { req_id, .. } => seq![
                RequestArg::Value(FieldValue::Int(req_id)),
            ],
            ServerReqMsg::ReqHistoricalTicks { req_id, contract, trading_class, include_expired, start_date_time, end_date_time, number_of_ticks, what_to_show, use_rth, ignore_size, misc_options, .. } => seq![
                RequestArg::Value(FieldValue::Int(req_id)),
                RequestArg::Block(contract),
                RequestArg::Value(FieldValue::Text(trading_class)),
                RequestArg::Value(FieldValue::Bool(include_expired)),
                RequestArg::Value(FieldValue::Text(start_date_time)),
                RequestArg::Value(FieldValue::Text(end_date_time)),
                RequestArg::Value(FieldValue::Int(number_of_ticks)),
                RequestArg::Value(FieldValue::Text(what_to_show)),
                RequestArg::Value(FieldValue::Int(use_rth)),
                RequestArg::Value(FieldValue::Bool(ignore_size)),
                RequestArg::Value(FieldValue::Text(misc_options)),
            ],
            ServerReqMsg::ReqTickByTickData { req_id, contract, trading_class, tick_type, number_of_ticks, ignore_size, .. } => seq![
                RequestArg::Value(FieldValue::Int(req_id)),
                RequestArg::Block(contract),
                RequestArg::Value(FieldValue::Text(trading_class)),
                RequestArg::Value(FieldValue::Text(tick_type)),
                RequestArg::Value(FieldValue::Int(number_of_ticks)),
                RequestArg::Value(FieldValue::Bool(ignore_size)),
            ],
            ServerReqMsg::CancelTickByTickData { req_id, .. } => seq![
                RequestArg::Value(FieldValue::Int(req_id)),
            ],
            ServerReqMsg::ReqCompletedOrders { api_only, .. } => seq![
                RequestArg::Value(FieldValue::Bool(api_only)),
            ],
        }
    }

    /// The catalog entry of the request.
    pub fn kind(&self) -> (r: ServerReqMsgDiscriminants)
        ensures
            r == self.spec_kind(),
    {
        match self {
            ServerReqMsg::ReqMktData { .. } => ServerReqMsgDiscriminants::ReqMktData,
            ServerReqMsg::CancelMktData { .. } => ServerReqMsgDiscriminants::CancelMktData,
            ServerReqMsg::PlaceOrder { .. } => ServerReqMsgDiscriminants::PlaceOrder,
            ServerReqMsg::CancelOrder { .. } => ServerReqMsgDiscriminants::CancelOrder,
            ServerReqMsg::ReqOpenOrders { .. } => ServerReqMsgDiscriminants::ReqOpenOrders,
            ServerReqMsg::ReqAcctData { .. } => ServerReqMsgDiscriminants::ReqAcctData,
            ServerReqMsg::ReqExecutions { .. } => ServerReqMsgDiscriminants::ReqExecutions,
            ServerReqMsg::ReqIds { .. } => ServerReqMsgDiscriminants::ReqIds,
            ServerReqMsg::ReqContractData { .. } => ServerReqMsgDiscriminants::ReqContractData,
            ServerReqMsg::ReqMktDepth { .. } => ServerReqMsgDiscriminants::ReqMktDepth,
            ServerReqMsg::CancelMktDepth { .. } => ServerReqMsgDiscriminants::CancelMktDepth,
            ServerReqMsg::ReqNewsBulletins { .. } => ServerReqMsgDiscriminants::ReqNewsBulletins,
            ServerReqMsg::CancelNewsBulletins { .. } => ServerReqMsgDiscriminants::CancelNewsBulletins,
            ServerReqMsg::SetServerLoglevel { .. } => ServerReqMsgDiscriminants::SetServerLoglevel,
            ServerReqMsg::ReqAutoOpenOrders { .. } => ServerReqMsgDiscriminants::ReqAutoOpenOrders,
            ServerReqMsg::ReqAllOpenOrders { .. } => ServerReqMsgDiscriminants::ReqAllOpenOrders,
            ServerReqMsg::ReqManagedAccts { .. } => ServerReqMsgDiscriminants::ReqManagedAccts,
            ServerReqMsg::ReqFa { .. } => ServerReqMsgDiscriminants::ReqFa,
            ServerReqMsg::ReplaceFa { .. } => ServerReqMsgDiscriminants::ReplaceFa,
            ServerReqMsg::ReqHistoricalData { .. } => ServerReqMsgDiscriminants::ReqHistoricalData,
            ServerReqMsg::ExerciseOptions { .. } => ServerReqMsgDiscriminants::ExerciseOptions,
            ServerReqMsg::ReqScannerSubscription { .. } => ServerReqMsgDiscriminants::ReqScannerSubscription,
            ServerReqMsg::CancelScannerSubscription { .. } => ServerReqMsgDiscriminants::CancelScannerSubscription,
            ServerReqMsg::ReqScannerParameters { .. } => ServerReqMsgDiscriminants::ReqScannerParameters,
            ServerReqMsg::CancelHistoricalData { .. } => ServerReqMsgDiscriminants::CancelHistoricalData,
            ServerReqMsg::ReqCurrentTime { .. } => ServerReqMsgDiscriminants::ReqCurrentTime,
            ServerReqMsg::ReqRealTimeBars { .. } => ServerReqMsgDiscriminants::ReqRealTimeBars,
            ServerReqMsg::CancelRealTimeBars { .. } => ServerReqMsgDiscriminants::CancelRealTimeBars,
            ServerReqMsg::ReqFundamentalData { .. } => ServerReqMsgDiscriminants::ReqFundamentalData,
            ServerReqMsg::CancelFundamentalData { .. } => ServerReqMsgDiscriminants::CancelFundamentalData,
            ServerReqMsg::ReqCalcImpliedVolat { .. } => ServerReqMsgDiscriminants::ReqCalcImpliedVolat,
            ServerReqMsg::ReqCalcOptionPrice { .. } => ServerReqMsgDiscriminants::ReqCalcOptionPrice,
            ServerReqMsg::CancelCalcImpliedVolat { .. } => ServerReqMsgDiscriminants::CancelCalcImpliedVolat,
            ServerReqMsg::CancelCalcOptionPrice { .. } => ServerReqMsgDiscriminants::CancelCalcOptionPrice,
            ServerReqMsg::ReqGlobalCancel { .. } => ServerReqMsgDiscriminants::ReqGlobalCancel,
            ServerReqMsg::ReqMarketDataType { .. } => ServerReqMsgDiscriminants::ReqMarketDataType,
            ServerReqMsg::ReqPositions { .. } => ServerReqMsgDiscriminants::ReqPositions,
            ServerReqMsg::ReqAccountSummary { .. } => ServerReqMsgDiscriminants::ReqAccountSummary,
            ServerReqMsg::CancelAccountSummary { .. } => ServerReqMsgDiscriminants::CancelAccountSummary,
            ServerReqMsg::CancelPositions { .. } => ServerReqMsgDiscriminants::CancelPositions,
            ServerReqMsg::VerifyRequest { .. } => ServerReqMsgDiscriminants::VerifyRequest,
            ServerReqMsg::VerifyMessage { .. } => ServerReqMsgDiscriminants::VerifyMessage,
            ServerReqMsg::QueryDisplayGroups { .. } => ServerReqMsgDiscriminants::QueryDisplayGroups,
            ServerReqMsg::SubscribeToGroupEvents { .. } => ServerReqMsgDiscriminants::SubscribeToGroupEvents,
            ServerReqMsg::UpdateDisplayGroup { .. } => ServerReqMsgDiscriminants::UpdateDisplayGroup,
            ServerReqMsg::UnsubscribeFromGroupEvents { .. } => ServerReqMsgDiscriminants::UnsubscribeFromGroupEvents,
            ServerReqMsg::StartApi { .. } => ServerReqMsgDiscriminants::StartApi,
            ServerReqMsg::VerifyAndAuthRequest { .. } => ServerReqMsgDiscriminants::VerifyAndAuthRequest,
            ServerReqMsg::VerifyAndAuthMessage { .. } => ServerReqMsgDiscriminants::VerifyAndAuthMessage,
            ServerReqMsg::ReqPositionsMulti { .. } => ServerReqMsgDiscriminants::ReqPositionsMulti,
            ServerReqMsg::CancelPositionsMulti { .. } => ServerReqMsgDiscriminants::CancelPositionsMulti,
            ServerReqMsg::ReqAccountUpdatesMulti { .. } => ServerReqMsgDiscriminants::ReqAccountUpdatesMulti,
            ServerReqMsg::CancelAccountUpdatesMulti { .. } => ServerReqMsgDiscriminants::CancelAccountUpdatesMulti,
            ServerReqMsg::ReqSecDefOptParams { .. } => ServerReqMsgDiscriminants::ReqSecDefOptParams,
            ServerReqMsg::ReqSoftDollarTiers { .. } => ServerReqMsgDiscriminants::ReqSoftDollarTiers,
            ServerReqMsg::ReqFamilyCodes { .. } => ServerReqMsgDiscriminants::ReqFamilyCodes,
            ServerReqMsg::ReqMatchingSymbols { .. } => ServerReqMsgDiscriminants::ReqMatchingSymbols,
            ServerReqMsg::ReqMktDepthExchanges { .. } => ServerReqMsgDiscriminants::ReqMktDepthExchanges,
            ServerReqMsg::ReqSmartComponents { .. } => ServerReqMsgDiscriminants::ReqSmartComponents,
            ServerReqMsg::ReqNewsArticle { .. } => ServerReqMsgDiscriminants::ReqNewsArticle,
            ServerReqMsg::ReqNewsProviders { .. } => ServerReqMsgDiscriminants::ReqNewsProviders,
            ServerReqMsg::ReqHistoricalNews { .. } => ServerReqMsgDiscriminants::ReqHistoricalNews,
            ServerReqMsg::ReqHeadTimestamp { .. } => ServerReqMsgDiscriminants::ReqHeadTimestamp,
            ServerReqMsg::ReqHistogramData { .. } => ServerReqMsgDiscriminants::ReqHistogramData,
            ServerReqMsg::CancelHistogramData { .. } => ServerReqMsgDiscriminants::CancelHistogramData,
            ServerReqMsg::CancelHeadTimestamp { .. } => ServerReqMsgDiscriminants::CancelHeadTimestamp,
            ServerReqMsg::ReqMarketRule { .. } => ServerReqMsgDiscriminants::ReqMarketRule,
            ServerReqMsg::ReqPnl { .. } => ServerReqMsgDiscriminants::ReqPnl,
            ServerReqMsg::CancelPnl { .. } => ServerReqMsgDiscriminants::CancelPnl,
            ServerReqMsg::ReqPnlSingle { .. } => ServerReqMsgDiscriminants::ReqPnlSingle,
            ServerReqMsg::CancelPnlSingle { .. } => ServerReqMsgDiscriminants::CancelPnlSingle,
            ServerReqMsg::ReqHistoricalTicks { .. } => ServerReqMsgDiscriminants::ReqHistoricalTicks,
            ServerReqMsg::ReqTickByTickData { .. } => ServerReqMsgDiscriminants::ReqTickByTickData,
            ServerReqMsg::CancelTickByTickData { .. } => ServerReqMsgDiscriminants::CancelTickByTickData,
            ServerReqMsg::ReqCompletedOrders { .. } => ServerReqMsgDiscriminants::ReqCompletedOrders,
        }
    }

    /// The version the request carries; 0 for kinds that send none.
    pub fn version(&self) -> (r: i32)
        ensures
            r == self.spec_version(),
    {
        match self {
            ServerReqMsg::ReqMktData { version, .. } => *version,
            ServerReqMsg::CancelMktData { version, .. } => *version,
            ServerReqMsg::PlaceOrder { version, .. } => *version,
            ServerReqMsg::CancelOrder { version, .. } => *version,
            ServerReqMsg::ReqOpenOrders { version, .. } => *version,
            ServerReqMsg::ReqAcctData { version, .. } => *version,
            ServerReqMsg::ReqExecutions { version, .. } => *version,
            ServerReqMsg::ReqIds { version, .. } => *version,
            ServerReqMsg::ReqContractData { version, .. } => *version,
            ServerReqMsg::ReqMktDepth { version, .. } => *version,
            ServerReqMsg::CancelMktDepth { version, .. } => *version,
            ServerReqMsg::ReqNewsBulletins { version, .. } => *version,
            ServerReqMsg::CancelNewsBulletins { version, .. } => *version,
            ServerReqMsg::SetServerLoglevel { version, .. } => *version,
            ServerReqMsg::ReqAutoOpenOrders { version, .. } => *version,
            ServerReqMsg::ReqAllOpenOrders { version, .. } => *version,
            ServerReqMsg::ReqManagedAccts { version, .. } => *version,
            ServerReqMsg::ReqFa { version, .. } => *version,
            ServerReqMsg::ReplaceFa { version, .. } => *version,
            ServerReqMsg::ReqHistoricalData { version, .. } => *version,
            ServerReqMsg::ExerciseOptions { version, .. } => *version,
            ServerReqMsg::ReqScannerSubscription { version, .. } => *version,
            ServerReqMsg::CancelScannerSubscription { version, .. } => *version,
            ServerReqMsg::ReqScannerParameters { version, .. } => *version,
            ServerReqMsg::CancelHistoricalData { version, .. } => *version,
            ServerReqMsg::ReqCurrentTime { version, .. } => *version,
            ServerReqMsg::ReqRealTimeBars { version, .. } => *version,
            ServerReqMsg::CancelRealTimeBars { version, .. } => *version,
            ServerReqMsg::ReqFundamentalData { version, .. } => *version,
            ServerReqMsg::CancelFundamentalData { version, .. } => *version,
            ServerReqMsg::ReqCalcImpliedVolat { version, .. } => *version,
            ServerReqMsg::ReqCalcOptionPrice { version, .. } => *version,
            ServerReqMsg::CancelCalcImpliedVolat { version, .. } => *version,
            ServerReqMsg::CancelCalcOptionPrice { version, .. } => *version,
            ServerReqMsg::ReqGlobalCancel { version, .. } => *version,
            ServerReqMsg::ReqMarketDataType { version, .. } => *version,
            ServerReqMsg::ReqPositions { version, .. } => *version,
            ServerReqMsg::ReqAccountSummary { version, .. } => *version,
            ServerReqMsg::CancelAccountSummary { version, .. } => *version,
            ServerReqMsg::CancelPositions { version, .. } => *version,
            ServerReqMsg::VerifyRequest { version, .. } => *version,
            ServerReqMsg::VerifyMessage { version, .. } => *version,
            ServerReqMsg::QueryDisplayGroups { version, .. } => *version,
            ServerReqMsg::SubscribeToGroupEvents { version, .. } => *version,
            ServerReqMsg::UpdateDisplayGroup { version, .. } => *version,
            ServerReqMsg::UnsubscribeFromGroupEvents { version, .. } => *version,
            ServerReqMsg::StartApi { version, .. } => *version,
            ServerReqMsg::VerifyAndAuthRequest { version, .. } => *version,
            ServerReqMsg::VerifyAndAuthMessage { version, .. } => *version,
            ServerReqMsg::ReqPositionsMulti { version, .. } => *version,
            ServerReqMsg::CancelPositionsMulti { version, .. } => *version,
            ServerReqMsg::ReqAccountUpdatesMulti { version, .. } => *version,
            ServerReqMsg::CancelAccountUpdatesMulti { version, .. } => *version,
            ServerReqMsg::ReqSecDefOptParams { .. } => 0,
            ServerReqMsg::ReqSoftDollarTiers { .. } => 0,
            ServerReqMsg::ReqFamilyCodes { .. } => 0,
            ServerReqMsg::ReqMatchingSymbols { .. } => 0,
            ServerReqMsg::ReqMktDepthExchanges { .. } => 0,
            ServerReqMsg::ReqSmartComponents { .. } => 0,
            ServerReqMsg::ReqNewsArticle { .. } => 0,
            ServerReqMsg::ReqNewsProviders { .. } => 0,
            ServerReqMsg::ReqHistoricalNews { .. } => 0,
            ServerReqMsg::ReqHeadTimestamp { .. } => 0,
            ServerReqMsg::ReqHistogramData { .. } => 0,
            ServerReqMsg::CancelHistogramData { .. } => 0,
            ServerReqMsg::CancelHeadTimestamp { .. } => 0,
            ServerReqMsg::ReqMarketRule { .. } => 0,
            ServerReqMsg::ReqPnl { .. } => 0,
            ServerReqMsg::CancelPnl { .. } => 0,
            ServerReqMsg::ReqPnlSingle { .. } => 0,
            ServerReqMsg::CancelPnlSingle { .. } => 0,
            ServerReqMsg::ReqHistoricalTicks { .. } => 0,
            ServerReqMsg::ReqTickByTickData { .. } => 0,
            ServerReqMsg::CancelTickByTickData { .. } => 0,
            ServerReqMsg::ReqCompletedOrders { .. } => 0,
        }
    }

    /// The request's arguments after the code and the version, in wire order.
    pub fn args(&self) -> (r: Vec<RequestArg>)
        ensures
            r@ == self.spec_args(),
    {
        let r: Vec<RequestArg> = match self {
            ServerReqMsg::ReqMktData { req_id, contract, trading_class, generic_tick_list, snapshot, regulatory_snapshot, mkt_data_options, .. } => vec![
                RequestArg::Value(FieldValue::Int(*req_id)),
                RequestArg::Block(contract.clone()),
                RequestArg::Value(FieldValue::Text(trading_class.clone())),
                RequestArg::Value(FieldValue::Text(generic_tick_list.clone())),
                RequestArg::Value(FieldValue::Bool(*snapshot)),
                RequestArg::Value(FieldValue::Bool(*regulatory_snapshot)),
                RequestArg::Value(FieldValue::Text(mkt_data_options.clone())),
            ],
            ServerReqMsg::CancelMktData { req_id, .. } => vec![
                RequestArg::Value(FieldValue::Int(*req_id)),
            ],
            ServerReqMsg::PlaceOrder { order_id, contract, trading_class, sec_id_type, sec_id, order, .. } => vec![
                RequestArg::Value(FieldValue::Int(*order_id)),
                RequestArg::Block(contract.clone()),
                RequestArg::Value(FieldValue::Text(trading_class.clone())),
                RequestArg::Value(FieldValue::Text(sec_id_type.clone())),
                RequestArg::Value(FieldValue::Text(sec_id.clone())),
                RequestArg::Block(order.clone()),
            ],
            ServerReqMsg::CancelOrder { order_id, .. } => vec![
                RequestArg::Value(FieldValue::Int(*order_id)),
            ],
            ServerReqMsg::ReqOpenOrders { .. } => Vec::new(),
            ServerReqMsg::ReqAcctData { subscribe, acct_code, .. } => vec![
                RequestArg::Value(FieldValue::Bool(*subscribe)),
                RequestArg::Value(FieldValue::Text(acct_code.clone())),
            ],
            ServerReqMsg::ReqExecutions { req_id, exec_filter, .. } => vec![
                RequestArg::Value(FieldValue::Int(*req_id)),
                RequestArg::Block(exec_filter.clone()),
            ],
            ServerReqMsg::ReqIds { num_ids, .. } => vec![
                RequestArg::Value(FieldValue::Int(*num_ids)),
            ],
            ServerReqMsg::ReqContractData { req_id, contract, trading_class, include_expired, sec_id_type, sec_id, .. } => vec![
                RequestArg::Value(FieldValue::Int(*req_id)),
                RequestArg::Block(contract.clone()),
                RequestArg::Value(FieldValue::Text(trading_class.clone())),
                RequestArg::Value(FieldValue::Bool(*include_expired)),
                RequestArg::Value(FieldValue::Text(sec_id_type.clone())),
                RequestArg::Value(FieldValue::Text(sec_id.clone())),
            ],
            ServerReqMsg::ReqMktDepth { req_id, contract, trading_class, num_rows, is_smart_depth, mkt_depth_options, .. } => vec![
                RequestArg::Value(FieldValue::Int(*req_id)),
                RequestArg::Block(contract.clone()),
                RequestArg::Value(FieldValue::Text(trading_class.clone())),
                RequestArg::Value(FieldValue::Int(*num_rows)),
                RequestArg::Value(FieldValue::Bool(*is_smart_depth)),
                RequestArg::Value(FieldValue::Text(mkt_depth_options.clone())),
            ],
            ServerReqMsg::CancelMktDepth { req_id, is_smart_depth, .. } => vec![
                RequestArg::Value(FieldValue::Int(*req_id)),
                RequestArg::Value(FieldValue::Bool(*is_smart_depth)),
            ],
            ServerReqMsg::ReqNewsBulletins { all_msgs, .. } => vec![
                RequestArg::Value(FieldValue::Bool(*all_msgs)),
            ],
            ServerReqMsg::CancelNewsBulletins { .. } => Vec::new(),
            ServerReqMsg::SetServerLoglevel { log_level, .. } => vec![
                RequestArg::Value(FieldValue::Int(*log_level)),
            ],
            ServerReqMsg::ReqAutoOpenOrders { auto_bind, .. } => vec![
                RequestArg::Value(FieldValue::Bool(*auto_bind)),
            ],
            ServerReqMsg::ReqAllOpenOrders { .. } => Vec::new(),
            ServerReqMsg::ReqManagedAccts { .. } => Vec::new(),
            ServerReqMsg::ReqFa { fa_data, .. } => vec![
                RequestArg::Value(FieldValue::Int(*fa_data)),
            ],
            ServerReqMsg::ReplaceFa { fa_data, cxml, .. } => vec![
                RequestArg::Value(FieldValue::Int(*fa_data)),
                RequestArg::Value(FieldValue::Text(cxml.clone())),
            ],
            ServerReqMsg::ReqHistoricalData { req_id, contract, trading_class, include_expired, keep_up_to_date, chart_options, .. } => vec![
                RequestArg::Value(FieldValue::Int(*req_id)),
                RequestArg::Block(contract.clone()),
                RequestArg::Value(FieldValue::Text(trading_class.clone())),
                RequestArg::Value(FieldValue::Bool(*include_expired)),
                RequestArg::Value(FieldValue::Bool(*keep_up_to_date)),
                RequestArg::Value(FieldValue::Text(chart_options.clone())),
            ],
            ServerReqMsg::ExerciseOptions { req_id, contract, trading_class, exercise_action, exercise_quantity, account, over_ride, .. } => vec![
                RequestArg::Value(FieldValue::Int(*req_id)),
                RequestArg::Block(contract.clone()),
                RequestArg::Value(FieldValue::Text(trading_class.clone())),
                RequestArg::Value(FieldValue::Int(*exercise_action)),
                RequestArg::Value(FieldValue::Int(*exercise_quantity)),
                RequestArg::Value(FieldValue::Text(account.clone())),
                RequestArg::Value(FieldValue::Int(*over_ride)),
            ],
            ServerReqMsg::ReqScannerSubscription { req_id, subscription, scanner_subscription_filter, scanner_subscription_options, .. } => vec![
                RequestArg::Value(FieldValue::Int(*req_id)),
                RequestArg::Block(subscription.clone()),
                RequestArg::Value(FieldValue::Text(scanner_subscription_filter.clone())),
                RequestArg::Value(FieldValue::Text(scanner_subscription_options.clone())),
            ],
            ServerReqMsg::CancelScannerSubscription { req_id, .. } => vec![
                RequestArg::Value(FieldValue::Int(*req_id)),
            ],
            ServerReqMsg::ReqScannerParameters { .. } => Vec::new(),
            ServerReqMsg::CancelHistoricalData { req_id, .. } => vec![
                RequestArg::Value(FieldValue::Int(*req_id)),
            ],
            ServerReqMsg::ReqCurrentTime { .. } => Vec::new(),
            ServerReqMsg::ReqRealTimeBars { req_id, contract, trading_class, bar_size, what_to_show, use_rth, real_time_bars_options, .. } => vec![
                RequestArg::Value(FieldValue::Int(*req_id)),
                RequestArg::Block(contract.clone()),
                RequestArg::Value(FieldValue::Text(trading_class.clone())),
                RequestArg::Value(FieldValue::Int(*bar_size)),
                RequestArg::Value(FieldValue::Text(what_to_show.clone())),
                RequestArg::Value(FieldValue::Bool(*use_rth)),
                RequestArg::Value(FieldValue::Text(real_time_bars_options.clone())),
            ],
            ServerReqMsg::CancelRealTimeBars { req_id, .. } => vec![
                RequestArg::Value(FieldValue::Int(*req_id)),
            ],
            ServerReqMsg::ReqFundamentalData { req_id, contract, report_type, tags_value_count, fund_data_opt, .. } => vec![
                RequestArg::Value(FieldValue::Int(*req_id)),
                RequestArg::Block(contract.clone()),
                RequestArg::Value(FieldValue::Text(report_type.clone())),
                RequestArg::Value(FieldValue::Int(*tags_value_count)),
                RequestArg::Value(FieldValue::Text(fund_data_opt.clone())),
            ],
            ServerReqMsg::CancelFundamentalData { req_id, .. } => vec![
                RequestArg::Value(FieldValue::Int(*req_id)),
            ],
            ServerReqMsg::ReqCalcImpliedVolat { req_id, contract, trading_class, option_price, under_price, tag_values_cnt, impl_vol_opt, .. } => vec![
                RequestArg::Value(FieldValue::Int(*req_id)),
                RequestArg::Block(contract.clone()),
                RequestArg::Value(FieldValue::Text(trading_class.clone())),
                RequestArg::Value(FieldValue::Float(copy_float(option_price))),
                RequestArg::Value(FieldValue::Float(copy_float(under_price))),
                RequestArg::Value(FieldValue::Size(*tag_values_cnt)),
                RequestArg::Value(FieldValue::Text(impl_vol_opt.clone())),
            ],
            ServerReqMsg::ReqCalcOptionPrice { req_id, contract, trading_class, volatility, under_price, tag_values_cnt, opt_prc_opt, .. } => vec![
                RequestArg::Value(FieldValue::Int(*req_id)),
                RequestArg::Block(contract.clone()),
                RequestArg::Value(FieldValue::Text(trading_class.clone())),
                RequestArg::Value(FieldValue::Float(copy_float(volatility))),
                RequestArg::Value(FieldValue::Float(copy_float(under_price))),
                RequestArg::Value(FieldValue::Size(*tag_values_cnt)),
                RequestArg::Value(FieldValue::Text(opt_prc_opt.clone())),
            ],
            ServerReqMsg::CancelCalcImpliedVolat { req_id, .. } => vec![
                RequestArg::Value(FieldValue::Int(*req_id)),
            ],
            ServerReqMsg::CancelCalcOptionPrice { req_id, .. } => vec![
                RequestArg::Value(FieldValue::Int(*req_id)),
            ],
            ServerReqMsg::ReqGlobalCancel { .. } => Vec::new(),
            ServerReqMsg::ReqMarketDataType { market_data_type, .. } => vec![
                RequestArg::Value(FieldValue::Int(*market_data_type)),
            ],
            ServerReqMsg::ReqPositions { .. } => Vec::new(),
            ServerReqMsg::ReqAccountSummary { req_id, group_name, tags, .. } => vec![
                RequestArg::Value(FieldValue::Int(*req_id)),
                RequestArg::Value(FieldValue::Text(group_name.clone())),
                RequestArg::Value(FieldValue::Text(tags.clone())),
            ],
            ServerReqMsg::CancelAccountSummary { req_id, .. } => vec![
                RequestArg::Value(FieldValue::Int(*req_id)),
            ],
            ServerReqMsg::CancelPositions { .. } => Vec::new(),
            ServerReqMsg::VerifyRequest { api_name, api_version, .. } => vec![
                RequestArg::Value(FieldValue::Text(api_name.clone())),
                RequestArg::Value(FieldValue::Text(api_version.clone())),
            ],
            ServerReqMsg::VerifyMessage { api_data, .. } => vec![
                RequestArg::Value(FieldValue::Text(api_data.clone())),
            ],
            ServerReqMsg::QueryDisplayGroups { req_id, .. } => vec![
                RequestArg::Value(FieldValue::Int(*req_id)),
            ],
            ServerReqMsg::SubscribeToGroupEvents { req_id, group_id, .. } => vec![
                RequestArg::Value(FieldValue::Int(*req_id)),
                RequestArg::Value(FieldValue::Int(*group_id)),
            ],
            ServerReqMsg::UpdateDisplayGroup { req_id, contract_info, .. } => vec![
                RequestArg::Value(FieldValue::Int(*req_id)),
                RequestArg::Value(FieldValue::Text(contract_info.clone())),
            ],
            ServerReqMsg::UnsubscribeFromGroupEvents { req_id, .. } => vec![
                RequestArg::Value(FieldValue::Int(*req_id)),
            ],
            ServerReqMsg::StartApi { client_id, .. } => vec![
                RequestArg::Value(FieldValue::Text(client_id.clone())),
            ],
            ServerReqMsg::VerifyAndAuthRequest { api_name, api_version, opaque_isv_key, .. } => vec![
                RequestArg::Value(FieldValue::Text(api_name.clone())),
                RequestArg::Value(FieldValue::Text(api_version.clone())),
                RequestArg::Value(FieldValue::Text(opaque_isv_key.clone())),
            ],
            ServerReqMsg::VerifyAndAuthMessage { api_data, xyz_response, .. } => vec![
                RequestArg::Value(FieldValue::Text(api_data.clone())),
                RequestArg::Value(FieldValue::Text(xyz_response.clone())),
            ],
            ServerReqMsg::ReqPositionsMulti { req_id, account, model_code, .. } => vec![
                RequestArg::Value(FieldValue::Int(*req_id)),
                RequestArg::Value(FieldValue::Text(account.clone())),
                RequestArg::Value(FieldValue::Text(model_code.clone())),
            ],
            ServerReqMsg::CancelPositionsMulti { req_id, .. } => vec![
                RequestArg::Value(FieldValue::Int(*req_id)),
            ],
            ServerReqMsg::ReqAccountUpdatesMulti { req_id, account, model_code, ledger_and_nlv, .. } => vec![
                RequestArg::Value(FieldValue::Int(*req_id)),
                RequestArg::Value(FieldValue::Text(account.clone())),
                RequestArg::Value(FieldValue::Text(model_code.clone())),
                RequestArg::Value(FieldValue::Bool(*ledger_and_nlv)),
            ],
            ServerReqMsg::CancelAccountUpdatesMulti { req_id, .. } => vec![
                RequestArg::Value(FieldValue::Int(*req_id)),
            ],
            ServerReqMsg::ReqSecDefOptParams { req_id, underlying_symbol, fut_fop_exchange, underlying_sec_type, underlying_con_id, .. } => vec![
                RequestArg::Value(FieldValue::Int(*req_id)),
                RequestArg::Value(FieldValue::Text(underlying_symbol.clone())),
                RequestArg::Value(FieldValue::Text(fut_fop_exchange.clone())),
                RequestArg::Value(FieldValue::Text(underlying_sec_type.clone())),
                RequestArg::Value(FieldValue::Int(*underlying_con_id)),
            ],
            ServerReqMsg::ReqSoftDollarTiers { req_id, .. } => vec![
                RequestArg::Value(FieldValue::Int(*req_id)),
            ],
            ServerReqMsg::ReqFamilyCodes { .. } => Vec::new(),
            ServerReqMsg::ReqMatchingSymbols { req_id, pattern, .. } => vec![
                RequestArg::Value(FieldValue::Int(*req_id)),
                RequestArg::Value(FieldValue::Text(pattern.clone())),
            ],
            ServerReqMsg::ReqMktDepthExchanges { .. } => Vec::new(),
            ServerReqMsg::ReqSmartComponents { req_id, bbo_exchange, .. } => vec![
                RequestArg::Value(FieldValue::Int(*req_id)),
                RequestArg::Value(FieldValue::Text(bbo_exchange.clone())),
            ],
            ServerReqMsg::ReqNewsArticle { req_id, provider_code, article_id, news_article_options, .. } => vec![
                RequestArg::Value(FieldValue::Int(*req_id)),
                RequestArg::Value(FieldValue::Text(provider_code.clone())),
                RequestArg::Value(FieldValue::Text(article_id.clone())),
                RequestArg::Value(FieldValue::Text(news_article_options.clone())),
            ],
            ServerReqMsg::ReqNewsProviders { .. } => Vec::new(),
            ServerReqMsg::ReqHistoricalNews { req_id, con_id, provider_codes, start_date_time, end_date_time, total_results, historical_news_options, .. } => vec![
                RequestArg::Value(FieldValue::Int(*req_id)),
                RequestArg::Value(FieldValue::Int(*con_id)),
                RequestArg::Value(FieldValue::Text(provider_codes.clone())),
                RequestArg::Value(FieldValue::Text(start_date_time.clone())),
                RequestArg::Value(FieldValue::Text(end_date_time.clone())),
                RequestArg::Value(FieldValue::Int(*total_results)),
                RequestArg::Value(FieldValue::Text(historical_news_options.clone())),
            ],
            ServerReqMsg::ReqHeadTimestamp { req_id, contract, trading_class, include_expired, use_rth, what_to_show, format_date, .. } => vec![
                RequestArg::Value(FieldValue::Int(*req_id)),
                RequestArg::Block(contract.clone()),
                RequestArg::Value(FieldValue::Text(trading_class.clone())),
                RequestArg::Value(FieldValue::Bool(*include_expired)),
                RequestArg::Value(FieldValue::Int(*use_rth)),
                RequestArg::Value(FieldValue::Text(what_to_show.clone())),
                RequestArg::Value(FieldValue::Int(*format_date)),
            ],
            ServerReqMsg::ReqHistogramData { ticker_id, contract, trading_class, include_expired, use_rth, time_period, .. } => vec![
                RequestArg::Value(FieldValue::Int(*ticker_id)),
                RequestArg::Block(contract.clone()),
                RequestArg::Value(FieldValue::Text(trading_class.clone())),
                RequestArg::Value(FieldValue::Bool(*include_expired)),
                RequestArg::Value(FieldValue::Bool(*use_rth)),
                RequestArg::Value(FieldValue::Text(time_period.clone())),
            ],
            ServerReqMsg::CancelHistogramData { ticker_id, .. } => vec![
                RequestArg::Value(FieldValue::Int(*ticker_id)),
            ],
            ServerReqMsg::CancelHeadTimestamp { req_id, .. } => vec![
                RequestArg::Value(FieldValue::Int(*req_id)),
            ],
            ServerReqMsg::ReqMarketRule { market_rule_id, .. } => vec![
                RequestArg::Value(FieldValue::Int(*market_rule_id)),
            ],
            ServerReqMsg::ReqPnl { req_id, account, model_code, .. } => vec![
                RequestArg::Value(FieldValue::Int(*req_id)),
                RequestArg::Value(FieldValue::Text(account.clone())),
                RequestArg::Value(FieldValue::Text(model_code.clone())),
            ],
            ServerReqMsg::CancelPnl { req_id, .. } => vec![
                RequestArg::Value(FieldValue::Int(*req_id)),
            ],
            ServerReqMsg::ReqPnlSingle { req_id, account, model_code, con_id, .. } => vec![
                RequestArg::Value(FieldValue::Int(*req_id)),
                RequestArg::Value(FieldValue::Text(account.clone())),
                RequestArg::Value(FieldValue::Text(model_code.clone())),
                RequestArg::Value(FieldValue::Int(*con_id)),
            ],
            ServerReqMsg::CancelPnlSingle { req_id, .. } => vec![
                RequestArg::Value(FieldValue::Int(*req_id)),
            ],
            ServerReqMsg::ReqHistoricalTicks { req_id, contract, trading_class, include_expired, start_date_time, end_date_time, number_of_ticks, what_to_show, use_rth, ignore_size, misc_options, .. } => vec![
                RequestArg::Value(FieldValue::Int(*req_id)),
                RequestArg::Block(contract.clone()),
                RequestArg::Value(FieldValue::Text(trading_class.clone())),
                RequestArg::Value(FieldValue::Bool(*include_expired)),
                RequestArg::Value(FieldValue::Text(start_date_time.clone())),
                RequestArg::Value(FieldValue::Text(end_date_time.clone())),
                RequestArg::Value(FieldValue::Int(*number_of_ticks)),
                RequestArg::Value(FieldValue::Text(what_to_show.clone())),
                RequestArg::Value(FieldValue::Int(*use_rth)),
                RequestArg::Value(FieldValue::Bool(*ignore_size)),
                RequestArg::Value(FieldValue::Text(misc_options.clone())),
            ],
            ServerReqMsg::ReqTickByTickData { req_id, contract, trading_class, tick_type, number_of_ticks, ignore_size, .. } => vec![
                RequestArg::Value(FieldValue::Int(*req_id)),
                RequestArg::Block(contract.clone()),
                RequestArg::Value(FieldValue::Text(trading_class.clone())),
                RequestArg::Value(FieldValue::Text(tick_type.clone())),
                RequestArg::Value(FieldValue::Int(*number_of_ticks)),
                RequestArg::Value(FieldValue::Bool(*ignore_size)),
            ],
            ServerReqMsg::CancelTickByTickData { req_id, .. } => vec![
                RequestArg::Value(FieldValue::Int(*req_id)),
            ],
            ServerReqMsg::ReqCompletedOrders { api_only, .. } => vec![
                RequestArg::Value(FieldValue::Bool(*api_only)),
            ],
        };
        r
    }

    /// Encodes the request's payload: its code field, its version field
    /// where the catalog gives the kind one, then its fields in wire order.
    pub fn encode_payload(&self) -> (r: String)
        ensures
            r@ == request_payload(self.spec_kind(), self.spec_version(), self.spec_args()),
    {
        proof {
            lemma_request_fits_layout(*self);
        }
        let args = self.args();
        match make_request(self.kind(), self.version(), &args) {
            Ok(s) => s,
            // never taken: the arguments fill the layout, as proved above
            Err(_) => String::new(),
        }
    }
}

/// A float field copied field by field, so that the copy is known to be
/// equal.
fn copy_float(f: &WireFloat) -> (r: WireFloat)
    ensures
        r == *f,
{
    WireFloat { bits: f.bits, text: f.text.clone() }
}

/// Every typed request fills its kind's layout in the catalog, slot by
/// slot: as many arguments as the layout has slots, each of the slot's kind.
pub proof fn lemma_request_fits_layout(m: ServerReqMsg)
    ensures
        fits_layout(m.spec_args(), m.spec_kind().spec_layout()),
{
}

} // verus!
