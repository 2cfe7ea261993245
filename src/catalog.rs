//! The message catalogs. Requests and responses each have their own table
//! of numeric codes; the two code spaces are independent and overlap (49 is
//! both the current-time request and the current-time response), which is
//! safe only because this side encodes requests and decodes responses and
//! never the other way round.
use vstd::prelude::*;
use crate::field::FieldKind;

verus! {

/// The kinds of financial-advisor configuration data.
#[derive(Clone, Copy, Debug, PartialEq, Eq, Structural)]
pub enum FAMessageDataTypes {
    Groups,
    Profiles,
    Aliases,
}

impl FAMessageDataTypes {
    /// The numeric code of each data kind.
    pub open spec fn spec_code(self) -> i32 {
        match self {
            FAMessageDataTypes::Groups => 1,
            FAMessageDataTypes::Profiles => 2,
            FAMessageDataTypes::Aliases => 3,
        }
    }

    /// The data kind that a numeric code names, if any.
    pub open spec fn spec_from_code(c: i32) -> Option<FAMessageDataTypes> {
        match c {
            1 => Some(FAMessageDataTypes::Groups),
            2 => Some(FAMessageDataTypes::Profiles),
            3 => Some(FAMessageDataTypes::Aliases),
            _ => None,
        }
    }

    /// The numeric code sent on the wire.
    pub fn code(&self) -> (r: i32)
        ensures
            r == self.spec_code(),
    {
        match self {
            FAMessageDataTypes::Groups => 1,
            FAMessageDataTypes::Profiles => 2,
            FAMessageDataTypes::Aliases => 3,
        }
    }

    /// The data kind named by a numeric code; `None` for a code with no entry.
    pub fn from_i32(c: i32) -> (r: Option<FAMessageDataTypes>)
        ensures
            r == Self::spec_from_code(c),
    {
        match c {
            1 => Some(FAMessageDataTypes::Groups),
            2 => Some(FAMessageDataTypes::Profiles),
            3 => Some(FAMessageDataTypes::Aliases),
            _ => None,
        }
    }
}

/// The kinds of response that the gateway sends.
#[derive(Clone, Copy, Debug, PartialEq, Eq, Structural)]
pub enum ServerRspMsgDiscriminants {
    TickPrice,
    TickSize,
    OrderStatus,
    ErrMsg,
    OpenOrder,
    AcctValue,
    PortfolioValue,
    AcctUpdateTime,
    NextValidId,
    ContractData,
    ExecutionData,
    MarketDepth,
    MarketDepthL2,
    NewsBulletins,
    ManagedAccts,
    ReceiveFa,
    HistoricalData,
    BondContractData,
    ScannerParameters,
    ScannerData,
    TickOptionComputation,
    TickGeneric,
    TickString,
    TickEfp,
    CurrentTime,
    RealTimeBars,
    FundamentalData,
    ContractDataEnd,
    OpenOrderEnd,
    AcctDownloadEnd,
    ExecutionDataEnd,
    DeltaNeutralValidation,
    TickSnapshotEnd,
    MarketDataType,
    CommissionReport,
    PositionData,
    PositionEnd,
    AccountSummary,
    AccountSummaryEnd,
    VerifyMessageApi,
    VerifyCompleted,
    DisplayGroupList,
    DisplayGroupUpdated,
    VerifyAndAuthMessageApi,
    VerifyAndAuthCompleted,
    PositionMulti,
    PositionMultiEnd,
    AccountUpdateMulti,
    AccountUpdateMultiEnd,
    SecurityDefinitionOptionParameter,
    SecurityDefinitionOptionParameterEnd,
    SoftDollarTiers,
    FamilyCodes,
    SymbolSamples,
    MktDepthExchanges,
    TickReqParams,
    SmartComponents,
    NewsArticle,
    TickNews,
    NewsProviders,
    HistoricalNews,
    HistoricalNewsEnd,
    HeadTimestamp,
    HistogramData,
    HistoricalDataUpdate,
    RerouteMktDataReq,
    RerouteMktDepthReq,
    MarketRule,
    Pnl,
    PnlSingle,
    HistoricalTicks,
    HistoricalTicksBidAsk,
    HistoricalTicksLast,
    TickByTick,
    OrderBound,
    CompletedOrder,
    CompletedOrdersEnd,
}

impl ServerRspMsgDiscriminants {
    /// The numeric code of each response kind.
    pub open spec fn spec_code(self) -> i32 {
        match self {
            ServerRspMsgDiscriminants::TickPrice => 1,
            ServerRspMsgDiscriminants::TickSize => 2,
            ServerRspMsgDiscriminants::OrderStatus => 3,
            ServerRspMsgDiscriminants::ErrMsg => 4,
            ServerRspMsgDiscriminants::OpenOrder => 5,
            ServerRspMsgDiscriminants::AcctValue => 6,
            ServerRspMsgDiscriminants::PortfolioValue => 7,
            ServerRspMsgDiscriminants::AcctUpdateTime => 8,
            ServerRspMsgDiscriminants::NextValidId => 9,
            ServerRspMsgDiscriminants::ContractData => 10,
            ServerRspMsgDiscriminants::ExecutionData => 11,
            ServerRspMsgDiscriminants::MarketDepth => 12,
            ServerRspMsgDiscriminants::MarketDepthL2 => 13,
            ServerRspMsgDiscriminants::NewsBulletins => 14,
            ServerRspMsgDiscriminants::ManagedAccts => 15,
            ServerRspMsgDiscriminants::ReceiveFa => 16,
            ServerRspMsgDiscriminants::HistoricalData => 17,
            ServerRspMsgDiscriminants::BondContractData => 18,
            ServerRspMsgDiscriminants::ScannerParameters => 19,
            ServerRspMsgDiscriminants::ScannerData => 20,
            ServerRspMsgDiscriminants::TickOptionComputation => 21,
            ServerRspMsgDiscriminants::TickGeneric => 45,
            ServerRspMsgDiscriminants::TickString => 46,
            ServerRspMsgDiscriminants::TickEfp => 47,
            ServerRspMsgDiscriminants::CurrentTime => 49,
            ServerRspMsgDiscriminants::RealTimeBars => 50,
            ServerRspMsgDiscriminants::FundamentalData => 51,
            ServerRspMsgDiscriminants::ContractDataEnd => 52,
            ServerRspMsgDiscriminants::OpenOrderEnd => 53,
            ServerRspMsgDiscriminants::AcctDownloadEnd => 54,
            ServerRspMsgDiscriminants::ExecutionDataEnd => 55,
            ServerRspMsgDiscriminants::DeltaNeutralValidation => 56,
            ServerRspMsgDiscriminants::TickSnapshotEnd => 57,
            ServerRspMsgDiscriminants::MarketDataType => 58,
            ServerRspMsgDiscriminants::CommissionReport => 59,
            ServerRspMsgDiscriminants::PositionData => 61,
            ServerRspMsgDiscriminants::PositionEnd => 62,
            ServerRspMsgDiscriminants::AccountSummary => 63,
            ServerRspMsgDiscriminants::AccountSummaryEnd => 64,
            ServerRspMsgDiscriminants::VerifyMessageApi => 65,
            ServerRspMsgDiscriminants::VerifyCompleted => 66,
            ServerRspMsgDiscriminants::DisplayGroupList => 67,
            ServerRspMsgDiscriminants::DisplayGroupUpdated => 68,
            ServerRspMsgDiscriminants::VerifyAndAuthMessageApi => 69,
            ServerRspMsgDiscriminants::VerifyAndAuthCompleted => 70,
            ServerRspMsgDiscriminants::PositionMulti => 71,
            ServerRspMsgDiscriminants::PositionMultiEnd => 72,
            ServerRspMsgDiscriminants::AccountUpdateMulti => 73,
            ServerRspMsgDiscriminants::AccountUpdateMultiEnd => 74,
            ServerRspMsgDiscriminants::SecurityDefinitionOptionParameter => 75,
            ServerRspMsgDiscriminants::SecurityDefinitionOptionParameterEnd => 76,
            ServerRspMsgDiscriminants::SoftDollarTiers => 77,
            ServerRspMsgDiscriminants::FamilyCodes => 78,
            ServerRspMsgDiscriminants::SymbolSamples => 79,
            ServerRspMsgDiscriminants::MktDepthExchanges => 80,
            ServerRspMsgDiscriminants::TickReqParams => 81,
            ServerRspMsgDiscriminants::SmartComponents => 82,
            ServerRspMsgDiscriminants::NewsArticle => 83,
            ServerRspMsgDiscriminants::TickNews => 84,
            ServerRspMsgDiscriminants::NewsProviders => 85,
            ServerRspMsgDiscriminants::HistoricalNews => 86,
            ServerRspMsgDiscriminants::HistoricalNewsEnd => 87,
            ServerRspMsgDiscriminants::HeadTimestamp => 88,
            ServerRspMsgDiscriminants::HistogramData => 89,
            ServerRspMsgDiscriminants::HistoricalDataUpdate => 90,
            ServerRspMsgDiscriminants::RerouteMktDataReq => 91,
            ServerRspMsgDiscriminants::RerouteMktDepthReq => 92,
            ServerRspMsgDiscriminants::MarketRule => 93,
            ServerRspMsgDiscriminants::Pnl => 94,
            ServerRspMsgDiscriminants::PnlSingle => 95,
            ServerRspMsgDiscriminants::HistoricalTicks => 96,
            ServerRspMsgDiscriminants::HistoricalTicksBidAsk => 97,
            ServerRspMsgDiscriminants::HistoricalTicksLast => 98,
            ServerRspMsgDiscriminants::TickByTick => 99,
            ServerRspMsgDiscriminants::OrderBound => 100,
            ServerRspMsgDiscriminants::CompletedOrder => 101,
            ServerRspMsgDiscriminants::CompletedOrdersEnd => 102,
        }
    }

    /// The response kind that a numeric code names, if any.
    pub open spec fn spec_from_code(c: i32) -> Option<ServerRspMsgDiscriminants> {
        match c {
            1 => Some(ServerRspMsgDiscriminants::TickPrice),
            2 => Some(ServerRspMsgDiscriminants::TickSize),
            3 => Some(ServerRspMsgDiscriminants::OrderStatus),
            4 => Some(ServerRspMsgDiscriminants::ErrMsg),
            5 => Some(ServerRspMsgDiscriminants::OpenOrder),
            6 => Some(ServerRspMsgDiscriminants::AcctValue),
            7 => Some(ServerRspMsgDiscriminants::PortfolioValue),
            8 => Some(ServerRspMsgDiscriminants::AcctUpdateTime),
            9 => Some(ServerRspMsgDiscriminants::NextValidId),
            10 => Some(ServerRspMsgDiscriminants::ContractData),
            11 => Some(ServerRspMsgDiscriminants::ExecutionData),
            12 => Some(ServerRspMsgDiscriminants::MarketDepth),
            13 => Some(ServerRspMsgDiscriminants::MarketDepthL2),
            14 => Some(ServerRspMsgDiscriminants::NewsBulletins),
            15 => Some(ServerRspMsgDiscriminants::ManagedAccts),
            16 => Some(ServerRspMsgDiscriminants::ReceiveFa),
            17 => Some(ServerRspMsgDiscriminants::HistoricalData),
            18 => Some(ServerRspMsgDiscriminants::BondContractData),
            19 => Some(ServerRspMsgDiscriminants::ScannerParameters),
            20 => Some(ServerRspMsgDiscriminants::ScannerData),
            21 => Some(ServerRspMsgDiscriminants::TickOptionComputation),
            45 => Some(ServerRspMsgDiscriminants::TickGeneric),
            46 => Some(ServerRspMsgDiscriminants::TickString),
            47 => Some(ServerRspMsgDiscriminants::TickEfp),
            49 => Some(ServerRspMsgDiscriminants::CurrentTime),
            50 => Some(ServerRspMsgDiscriminants::RealTimeBars),
            51 => Some(ServerRspMsgDiscriminants::FundamentalData),
            52 => Some(ServerRspMsgDiscriminants::ContractDataEnd),
            53 => Some(ServerRspMsgDiscriminants::OpenOrderEnd),
            54 => Some(ServerRspMsgDiscriminants::AcctDownloadEnd),
            55 => Some(ServerRspMsgDiscriminants::ExecutionDataEnd),
            56 => Some(ServerRspMsgDiscriminants::DeltaNeutralValidation),
            57 => Some(ServerRspMsgDiscriminants::TickSnapshotEnd),
            58 => Some(ServerRspMsgDiscriminants::MarketDataType),
            59 => Some(ServerRspMsgDiscriminants::CommissionReport),
            61 => Some(ServerRspMsgDiscriminants::PositionData),
            62 => Some(ServerRspMsgDiscriminants::PositionEnd),
            63 => Some(ServerRspMsgDiscriminants::AccountSummary),
            64 => Some(ServerRspMsgDiscriminants::AccountSummaryEnd),
            65 => Some(ServerRspMsgDiscriminants::VerifyMessageApi),
            66 => Some(ServerRspMsgDiscriminants::VerifyCompleted),
            67 => Some(ServerRspMsgDiscriminants::DisplayGroupList),
            68 => Some(ServerRspMsgDiscriminants::DisplayGroupUpdated),
            69 => Some(ServerRspMsgDiscriminants::VerifyAndAuthMessageApi),
            70 => Some(ServerRspMsgDiscriminants::VerifyAndAuthCompleted),
            71 => Some(ServerRspMsgDiscriminants::PositionMulti),
            72 => Some(ServerRspMsgDiscriminants::PositionMultiEnd),
            73 => Some(ServerRspMsgDiscriminants::AccountUpdateMulti),
            74 => Some(ServerRspMsgDiscriminants::AccountUpdateMultiEnd),
            75 => Some(ServerRspMsgDiscriminants::SecurityDefinitionOptionParameter),
            76 => Some(ServerRspMsgDiscriminants::SecurityDefinitionOptionParameterEnd),
            77 => Some(ServerRspMsgDiscriminants::SoftDollarTiers),
            78 => Some(ServerRspMsgDiscriminants::FamilyCodes),
            79 => Some(ServerRspMsgDiscriminants::SymbolSamples),
            80 => Some(ServerRspMsgDiscriminants::MktDepthExchanges),
            81 => Some(ServerRspMsgDiscriminants::TickReqParams),
            82 => Some(ServerRspMsgDiscriminants::SmartComponents),
            83 => Some(ServerRspMsgDiscriminants::NewsArticle),
            84 => Some(ServerRspMsgDiscriminants::TickNews),
            85 => Some(ServerRspMsgDiscriminants::NewsProviders),
            86 => Some(ServerRspMsgDiscriminants::HistoricalNews),
            87 => Some(ServerRspMsgDiscriminants::HistoricalNewsEnd),
            88 => Some(ServerRspMsgDiscriminants::HeadTimestamp),
            89 => Some(ServerRspMsgDiscriminants::HistogramData),
            90 => Some(ServerRspMsgDiscriminants::HistoricalDataUpdate),
            91 => Some(ServerRspMsgDiscriminants::RerouteMktDataReq),
            92 => Some(ServerRspMsgDiscriminants::RerouteMktDepthReq),
            93 => Some(ServerRspMsgDiscriminants::MarketRule),
            94 => Some(ServerRspMsgDiscriminants::Pnl),
            95 => Some(ServerRspMsgDiscriminants::PnlSingle),
            96 => Some(ServerRspMsgDiscriminants::HistoricalTicks),
            97 => Some(ServerRspMsgDiscriminants::HistoricalTicksBidAsk),
            98 => Some(ServerRspMsgDiscriminants::HistoricalTicksLast),
            99 => Some(ServerRspMsgDiscriminants::TickByTick),
            100 => Some(ServerRspMsgDiscriminants::OrderBound),
            101 => Some(ServerRspMsgDiscriminants::CompletedOrder),
            102 => Some(ServerRspMsgDiscriminants::CompletedOrdersEnd),
            _ => None,
        }
    }

    /// The numeric code sent on the wire.
    pub fn code(&self) -> (r: i32)
        ensures
            r == self.spec_code(),
    {
        match self {
            ServerRspMsgDiscriminants::TickPrice => 1,
            ServerRspMsgDiscriminants::TickSize => 2,
            ServerRspMsgDiscriminants::OrderStatus => 3,
            ServerRspMsgDiscriminants::ErrMsg => 4,
            ServerRspMsgDiscriminants::OpenOrder => 5,
            ServerRspMsgDiscriminants::AcctValue => 6,
            ServerRspMsgDiscriminants::PortfolioValue => 7,
            ServerRspMsgDiscriminants::AcctUpdateTime => 8,
            ServerRspMsgDiscriminants::NextValidId => 9,
            ServerRspMsgDiscriminants::ContractData => 10,
            ServerRspMsgDiscriminants::ExecutionData => 11,
            ServerRspMsgDiscriminants::MarketDepth => 12,
            ServerRspMsgDiscriminants::MarketDepthL2 => 13,
            ServerRspMsgDiscriminants::NewsBulletins => 14,
            ServerRspMsgDiscriminants::ManagedAccts => 15,
            ServerRspMsgDiscriminants::ReceiveFa => 16,
            ServerRspMsgDiscriminants::HistoricalData => 17,
            ServerRspMsgDiscriminants::BondContractData => 18,
            ServerRspMsgDiscriminants::ScannerParameters => 19,
            ServerRspMsgDiscriminants::ScannerData => 20,
            ServerRspMsgDiscriminants::TickOptionComputation => 21,
            ServerRspMsgDiscriminants::TickGeneric => 45,
            ServerRspMsgDiscriminants::TickString => 46,
            ServerRspMsgDiscriminants::TickEfp => 47,
            ServerRspMsgDiscriminants::CurrentTime => 49,
            ServerRspMsgDiscriminants::RealTimeBars => 50,
            ServerRspMsgDiscriminants::FundamentalData => 51,
            ServerRspMsgDiscriminants::ContractDataEnd => 52,
            ServerRspMsgDiscriminants::OpenOrderEnd => 53,
            ServerRspMsgDiscriminants::AcctDownloadEnd => 54,
            ServerRspMsgDiscriminants::ExecutionDataEnd => 55,
            ServerRspMsgDiscriminants::DeltaNeutralValidation => 56,
            ServerRspMsgDiscriminants::TickSnapshotEnd => 57,
            ServerRspMsgDiscriminants::MarketDataType => 58,
            ServerRspMsgDiscriminants::CommissionReport => 59,
            ServerRspMsgDiscriminants::PositionData => 61,
            ServerRspMsgDiscriminants::PositionEnd => 62,
            ServerRspMsgDiscriminants::AccountSummary => 63,
            ServerRspMsgDiscriminants::AccountSummaryEnd => 64,
            ServerRspMsgDiscriminants::VerifyMessageApi => 65,
            ServerRspMsgDiscriminants::VerifyCompleted => 66,
            ServerRspMsgDiscriminants::DisplayGroupList => 67,
            ServerRspMsgDiscriminants::DisplayGroupUpdated => 68,
            ServerRspMsgDiscriminants::VerifyAndAuthMessageApi => 69,
            ServerRspMsgDiscriminants::VerifyAndAuthCompleted => 70,
            ServerRspMsgDiscriminants::PositionMulti => 71,
            ServerRspMsgDiscriminants::PositionMultiEnd => 72,
            ServerRspMsgDiscriminants::AccountUpdateMulti => 73,
            ServerRspMsgDiscriminants::AccountUpdateMultiEnd => 74,
            ServerRspMsgDiscriminants::SecurityDefinitionOptionParameter => 75,
            ServerRspMsgDiscriminants::SecurityDefinitionOptionParameterEnd => 76,
            ServerRspMsgDiscriminants::SoftDollarTiers => 77,
            ServerRspMsgDiscriminants::FamilyCodes => 78,
            ServerRspMsgDiscriminants::SymbolSamples => 79,
            ServerRspMsgDiscriminants::MktDepthExchanges => 80,
            ServerRspMsgDiscriminants::TickReqParams => 81,
            ServerRspMsgDiscriminants::SmartComponents => 82,
            ServerRspMsgDiscriminants::NewsArticle => 83,
            ServerRspMsgDiscriminants::TickNews => 84,
            ServerRspMsgDiscriminants::NewsProviders => 85,
            ServerRspMsgDiscriminants::HistoricalNews => 86,
            ServerRspMsgDiscriminants::HistoricalNewsEnd => 87,
            ServerRspMsgDiscriminants::HeadTimestamp => 88,
            ServerRspMsgDiscriminants::HistogramData => 89,
            ServerRspMsgDiscriminants::HistoricalDataUpdate => 90,
            ServerRspMsgDiscriminants::RerouteMktDataReq => 91,
            ServerRspMsgDiscriminants::RerouteMktDepthReq => 92,
            ServerRspMsgDiscriminants::MarketRule => 93,
            ServerRspMsgDiscriminants::Pnl => 94,
            ServerRspMsgDiscriminants::PnlSingle => 95,
            ServerRspMsgDiscriminants::HistoricalTicks => 96,
            ServerRspMsgDiscriminants::HistoricalTicksBidAsk => 97,
            ServerRspMsgDiscriminants::HistoricalTicksLast => 98,
            ServerRspMsgDiscriminants::TickByTick => 99,
            ServerRspMsgDiscriminants::OrderBound => 100,
            ServerRspMsgDiscriminants::CompletedOrder => 101,
            ServerRspMsgDiscriminants::CompletedOrdersEnd => 102,
        }
    }

    /// The response kind named by a numeric code; `None` for a code with no entry.
    pub fn from_i32(c: i32) -> (r: Option<ServerRspMsgDiscriminants>)
        ensures
            r == Self::spec_from_code(c),
    {
        match c {
            1 => Some(ServerRspMsgDiscriminants::TickPrice),
            2 => Some(ServerRspMsgDiscriminants::TickSize),
            3 => Some(ServerRspMsgDiscriminants::OrderStatus),
            4 => Some(ServerRspMsgDiscriminants::ErrMsg),
            5 => Some(ServerRspMsgDiscriminants::OpenOrder),
            6 => Some(ServerRspMsgDiscriminants::AcctValue),
            7 => Some(ServerRspMsgDiscriminants::PortfolioValue),
            8 => Some(ServerRspMsgDiscriminants::AcctUpdateTime),
            9 => Some(ServerRspMsgDiscriminants::NextValidId),
            10 => Some(ServerRspMsgDiscriminants::ContractData),
            11 => Some(ServerRspMsgDiscriminants::ExecutionData),
            12 => Some(ServerRspMsgDiscriminants::MarketDepth),
            13 => Some(ServerRspMsgDiscriminants::MarketDepthL2),
            14 => Some(ServerRspMsgDiscriminants::NewsBulletins),
            15 => Some(ServerRspMsgDiscriminants::ManagedAccts),
            16 => Some(ServerRspMsgDiscriminants::ReceiveFa),
            17 => Some(ServerRspMsgDiscriminants::HistoricalData),
            18 => Some(ServerRspMsgDiscriminants::BondContractData),
            19 => Some(ServerRspMsgDiscriminants::ScannerParameters),
            20 => Some(ServerRspMsgDiscriminants::ScannerData),
            21 => Some(ServerRspMsgDiscriminants::TickOptionComputation),
            45 => Some(ServerRspMsgDiscriminants::TickGeneric),
            46 => Some(ServerRspMsgDiscriminants::TickString),
            47 => Some(ServerRspMsgDiscriminants::TickEfp),
            49 => Some(ServerRspMsgDiscriminants::CurrentTime),
            50 => Some(ServerRspMsgDiscriminants::RealTimeBars),
            51 => Some(ServerRspMsgDiscriminants::FundamentalData),
            52 => Some(ServerRspMsgDiscriminants::ContractDataEnd),
            53 => Some(ServerRspMsgDiscriminants::OpenOrderEnd),
            54 => Some(ServerRspMsgDiscriminants::AcctDownloadEnd),
            55 => Some(ServerRspMsgDiscriminants::ExecutionDataEnd),
            56 => Some(ServerRspMsgDiscriminants::DeltaNeutralValidation),
            57 => Some(ServerRspMsgDiscriminants::TickSnapshotEnd),
            58 => Some(ServerRspMsgDiscriminants::MarketDataType),
            59 => Some(ServerRspMsgDiscriminants::CommissionReport),
            61 => Some(ServerRspMsgDiscriminants::PositionData),
            62 => Some(ServerRspMsgDiscriminants::PositionEnd),
            63 => Some(ServerRspMsgDiscriminants::AccountSummary),
            64 => Some(ServerRspMsgDiscriminants::AccountSummaryEnd),
            65 => Some(ServerRspMsgDiscriminants::VerifyMessageApi),
            66 => Some(ServerRspMsgDiscriminants::VerifyCompleted),
            67 => Some(ServerRspMsgDiscriminants::DisplayGroupList),
            68 => Some(ServerRspMsgDiscriminants::DisplayGroupUpdated),
            69 => Some(ServerRspMsgDiscriminants::VerifyAndAuthMessageApi),
            70 => Some(ServerRspMsgDiscriminants::VerifyAndAuthCompleted),
            71 => Some(ServerRspMsgDiscriminants::PositionMulti),
            72 => Some(ServerRspMsgDiscriminants::PositionMultiEnd),
            73 => Some(ServerRspMsgDiscriminants::AccountUpdateMulti),
            74 => Some(ServerRspMsgDiscriminants::AccountUpdateMultiEnd),
            75 => Some(ServerRspMsgDiscriminants::SecurityDefinitionOptionParameter),
            76 => Some(ServerRspMsgDiscriminants::SecurityDefinitionOptionParameterEnd),
            77 => Some(ServerRspMsgDiscriminants::SoftDollarTiers),
            78 => Some(ServerRspMsgDiscriminants::FamilyCodes),
            79 => Some(ServerRspMsgDiscriminants::SymbolSamples),
            80 => Some(ServerRspMsgDiscriminants::MktDepthExchanges),
            81 => Some(ServerRspMsgDiscriminants::TickReqParams),
            82 => Some(ServerRspMsgDiscriminants::SmartComponents),
            83 => Some(ServerRspMsgDiscriminants::NewsArticle),
            84 => Some(ServerRspMsgDiscriminants::TickNews),
            85 => Some(ServerRspMsgDiscriminants::NewsProviders),
            86 => Some(ServerRspMsgDiscriminants::HistoricalNews),
            87 => Some(ServerRspMsgDiscriminants::HistoricalNewsEnd),
            88 => Some(ServerRspMsgDiscriminants::HeadTimestamp),
            89 => Some(ServerRspMsgDiscriminants::HistogramData),
            90 => Some(ServerRspMsgDiscriminants::HistoricalDataUpdate),
            91 => Some(ServerRspMsgDiscriminants::RerouteMktDataReq),
            92 => Some(ServerRspMsgDiscriminants::RerouteMktDepthReq),
            93 => Some(ServerRspMsgDiscriminants::MarketRule),
            94 => Some(ServerRspMsgDiscriminants::Pnl),
            95 => Some(ServerRspMsgDiscriminants::PnlSingle),
            96 => Some(ServerRspMsgDiscriminants::HistoricalTicks),
            97 => Some(ServerRspMsgDiscriminants::HistoricalTicksBidAsk),
            98 => Some(ServerRspMsgDiscriminants::HistoricalTicksLast),
            99 => Some(ServerRspMsgDiscriminants::TickByTick),
            100 => Some(ServerRspMsgDiscriminants::OrderBound),
            101 => Some(ServerRspMsgDiscriminants::CompletedOrder),
            102 => Some(ServerRspMsgDiscriminants::CompletedOrdersEnd),
            _ => None,
        }
    }
}

/// The kinds of request sent to the gateway.
#[derive(Clone, Copy, Debug, PartialEq, Eq, Structural)]
pub enum ServerReqMsgDiscriminants {
    ReqMktData,
    CancelMktData,
    PlaceOrder,
    CancelOrder,
    ReqOpenOrders,
    ReqAcctData,
    ReqExecutions,
    ReqIds,
    ReqContractData,
    ReqMktDepth,
    CancelMktDepth,
    ReqNewsBulletins,
    CancelNewsBulletins,
    SetServerLoglevel,
    ReqAutoOpenOrders,
    ReqAllOpenOrders,
    ReqManagedAccts,
    ReqFa,
    ReplaceFa,
    ReqHistoricalData,
    ExerciseOptions,
    ReqScannerSubscription,
    CancelScannerSubscription,
    ReqScannerParameters,
    CancelHistoricalData,
    ReqCurrentTime,
    ReqRealTimeBars,
    CancelRealTimeBars,
    ReqFundamentalData,
    CancelFundamentalData,
    ReqCalcImpliedVolat,
    ReqCalcOptionPrice,
    CancelCalcImpliedVolat,
    CancelCalcOptionPrice,
    ReqGlobalCancel,
    ReqMarketDataType,
    ReqPositions,
    ReqAccountSummary,
    CancelAccountSummary,
    CancelPositions,
    VerifyRequest,
    VerifyMessage,
    QueryDisplayGroups,
    SubscribeToGroupEvents,
    UpdateDisplayGroup,
    UnsubscribeFromGroupEvents,
    StartApi,
    VerifyAndAuthRequest,
    VerifyAndAuthMessage,
    ReqPositionsMulti,
    CancelPositionsMulti,
    ReqAccountUpdatesMulti,
    CancelAccountUpdatesMulti,
    ReqSecDefOptParams,
    ReqSoftDollarTiers,
    ReqFamilyCodes,
    ReqMatchingSymbols,
    ReqMktDepthExchanges,
    ReqSmartComponents,
    ReqNewsArticle,
    ReqNewsProviders,
    ReqHistoricalNews,
    ReqHeadTimestamp,
    ReqHistogramData,
    CancelHistogramData,
    CancelHeadTimestamp,
    ReqMarketRule,
    ReqPnl,
    CancelPnl,
    ReqPnlSingle,
    CancelPnlSingle,
    ReqHistoricalTicks,
    ReqTickByTickData,
    CancelTickByTickData,
    ReqCompletedOrders,
}

impl ServerReqMsgDiscriminants {
    /// The numeric code of each request kind.
    pub open spec fn spec_code(self) -> i32 {
        match self {
            ServerReqMsgDiscriminants::ReqMktData => 1,
            ServerReqMsgDiscriminants::CancelMktData => 2,
            ServerReqMsgDiscriminants::PlaceOrder => 3,
            ServerReqMsgDiscriminants::CancelOrder => 4,
            ServerReqMsgDiscriminants::ReqOpenOrders => 5,
            ServerReqMsgDiscriminants::ReqAcctData => 6,
            ServerReqMsgDiscriminants::ReqExecutions => 7,
            ServerReqMsgDiscriminants::ReqIds => 8,
            ServerReqMsgDiscriminants::ReqContractData => 9,
            ServerReqMsgDiscriminants::ReqMktDepth => 10,
            ServerReqMsgDiscriminants::CancelMktDepth => 11,
            ServerReqMsgDiscriminants::ReqNewsBulletins => 12,
            ServerReqMsgDiscriminants::CancelNewsBulletins => 13,
            ServerReqMsgDiscriminants::SetServerLoglevel => 14,
            ServerReqMsgDiscriminants::ReqAutoOpenOrders => 15,
            ServerReqMsgDiscriminants::ReqAllOpenOrders => 16,
            ServerReqMsgDiscriminants::ReqManagedAccts => 17,
            ServerReqMsgDiscriminants::ReqFa => 18,
            ServerReqMsgDiscriminants::ReplaceFa => 19,
            ServerReqMsgDiscriminants::ReqHistoricalData => 20,
            ServerReqMsgDiscriminants::ExerciseOptions => 21,
            ServerReqMsgDiscriminants::ReqScannerSubscription => 22,
            ServerReqMsgDiscriminants::CancelScannerSubscription => 23,
            ServerReqMsgDiscriminants::ReqScannerParameters => 24,
            ServerReqMsgDiscriminants::CancelHistoricalData => 25,
            ServerReqMsgDiscriminants::ReqCurrentTime => 49,
            ServerReqMsgDiscriminants::ReqRealTimeBars => 50,
            ServerReqMsgDiscriminants::CancelRealTimeBars => 51,
            ServerReqMsgDiscriminants::ReqFundamentalData => 52,
            ServerReqMsgDiscriminants::CancelFundamentalData => 53,
            ServerReqMsgDiscriminants::ReqCalcImpliedVolat => 54,
            ServerReqMsgDiscriminants::ReqCalcOptionPrice => 55,
            ServerReqMsgDiscriminants::CancelCalcImpliedVolat => 56,
            ServerReqMsgDiscriminants::CancelCalcOptionPrice => 57,
            ServerReqMsgDiscriminants::ReqGlobalCancel => 58,
            ServerReqMsgDiscriminants::ReqMarketDataType => 59,
            ServerReqMsgDiscriminants::ReqPositions => 61,
            ServerReqMsgDiscriminants::ReqAccountSummary => 62,
            ServerReqMsgDiscriminants::CancelAccountSummary => 63,
            ServerReqMsgDiscriminants::CancelPositions => 64,
            ServerReqMsgDiscriminants::VerifyRequest => 65,
            ServerReqMsgDiscriminants::VerifyMessage => 66,
            ServerReqMsgDiscriminants::QueryDisplayGroups => 67,
            ServerReqMsgDiscriminants::SubscribeToGroupEvents => 68,
            ServerReqMsgDiscriminants::UpdateDisplayGroup => 69,
            ServerReqMsgDiscriminants::UnsubscribeFromGroupEvents => 70,
            ServerReqMsgDiscriminants::StartApi => 71,
            ServerReqMsgDiscriminants::VerifyAndAuthRequest => 72,
            ServerReqMsgDiscriminants::VerifyAndAuthMessage => 73,
            ServerReqMsgDiscriminants::ReqPositionsMulti => 74,
            ServerReqMsgDiscriminants::CancelPositionsMulti => 75,
            ServerReqMsgDiscriminants::ReqAccountUpdatesMulti => 76,
            ServerReqMsgDiscriminants::CancelAccountUpdatesMulti => 77,
            ServerReqMsgDiscriminants::ReqSecDefOptParams => 78,
            ServerReqMsgDiscriminants::ReqSoftDollarTiers => 79,
            ServerReqMsgDiscriminants::ReqFamilyCodes => 80,
            ServerReqMsgDiscriminants::ReqMatchingSymbols => 81,
            ServerReqMsgDiscriminants::ReqMktDepthExchanges => 82,
            ServerReqMsgDiscriminants::ReqSmartComponents => 83,
            ServerReqMsgDiscriminants::ReqNewsArticle => 84,
            ServerReqMsgDiscriminants::ReqNewsProviders => 85,
            ServerReqMsgDiscriminants::ReqHistoricalNews => 86,
            ServerReqMsgDiscriminants::ReqHeadTimestamp => 87,
            ServerReqMsgDiscriminants::ReqHistogramData => 88,
            ServerReqMsgDiscriminants::CancelHistogramData => 89,
            ServerReqMsgDiscriminants::CancelHeadTimestamp => 90,
            ServerReqMsgDiscriminants::ReqMarketRule => 91,
            ServerReqMsgDiscriminants::ReqPnl => 92,
            ServerReqMsgDiscriminants::CancelPnl => 93,
            ServerReqMsgDiscriminants::ReqPnlSingle => 94,
            ServerReqMsgDiscriminants::CancelPnlSingle => 95,
            ServerReqMsgDiscriminants::ReqHistoricalTicks => 96,
            ServerReqMsgDiscriminants::ReqTickByTickData => 97,
            ServerReqMsgDiscriminants::CancelTickByTickData => 98,
            ServerReqMsgDiscriminants::ReqCompletedOrders => 99,
        }
    }

    /// The request kind that a numeric code names, if any.
    pub open spec fn spec_from_code(c: i32) -> Option<ServerReqMsgDiscriminants> {
        match c {
            1 => Some(ServerReqMsgDiscriminants::ReqMktData),
            2 => Some(ServerReqMsgDiscriminants::CancelMktData),
            3 => Some(ServerReqMsgDiscriminants::PlaceOrder),
            4 => Some(ServerReqMsgDiscriminants::CancelOrder),
            5 => Some(ServerReqMsgDiscriminants::ReqOpenOrders),
            6 => Some(ServerReqMsgDiscriminants::ReqAcctData),
            7 => Some(ServerReqMsgDiscriminants::ReqExecutions),
            8 => Some(ServerReqMsgDiscriminants::ReqIds),
            9 => Some(ServerReqMsgDiscriminants::ReqContractData),
            10 => Some(ServerReqMsgDiscriminants::ReqMktDepth),
            11 => Some(ServerReqMsgDiscriminants::CancelMktDepth),
            12 => Some(ServerReqMsgDiscriminants::ReqNewsBulletins),
            13 => Some(ServerReqMsgDiscriminants::CancelNewsBulletins),
            14 => Some(ServerReqMsgDiscriminants::SetServerLoglevel),
            15 => Some(ServerReqMsgDiscriminants::ReqAutoOpenOrders),
            16 => Some(ServerReqMsgDiscriminants::ReqAllOpenOrders),
            17 => Some(ServerReqMsgDiscriminants::ReqManagedAccts),
            18 => Some(ServerReqMsgDiscriminants::ReqFa),
            19 => Some(ServerReqMsgDiscriminants::ReplaceFa),
            20 => Some(ServerReqMsgDiscriminants::ReqHistoricalData),
            21 => Some(ServerReqMsgDiscriminants::ExerciseOptions),
            22 => Some(ServerReqMsgDiscriminants::ReqScannerSubscription),
            23 => Some(ServerReqMsgDiscriminants::CancelScannerSubscription),
            24 => Some(ServerReqMsgDiscriminants::ReqScannerParameters),
            25 => Some(ServerReqMsgDiscriminants::CancelHistoricalData),
            49 => Some(ServerReqMsgDiscriminants::ReqCurrentTime),
            50 => Some(ServerReqMsgDiscriminants::ReqRealTimeBars),
            51 => Some(ServerReqMsgDiscriminants::CancelRealTimeBars),
            52 => Some(ServerReqMsgDiscriminants::ReqFundamentalData),
            53 => Some(ServerReqMsgDiscriminants::CancelFundamentalData),
            54 => Some(ServerReqMsgDiscriminants::ReqCalcImpliedVolat),
            55 => Some(ServerReqMsgDiscriminants::ReqCalcOptionPrice),
            56 => Some(ServerReqMsgDiscriminants::CancelCalcImpliedVolat),
            57 => Some(ServerReqMsgDiscriminants::CancelCalcOptionPrice),
            58 => Some(ServerReqMsgDiscriminants::ReqGlobalCancel),
            59 => Some(ServerReqMsgDiscriminants::ReqMarketDataType),
            61 => Some(ServerReqMsgDiscriminants::ReqPositions),
            62 => Some(ServerReqMsgDiscriminants::ReqAccountSummary),
            63 => Some(ServerReqMsgDiscriminants::CancelAccountSummary),
            64 => Some(ServerReqMsgDiscriminants::CancelPositions),
            65 => Some(ServerReqMsgDiscriminants::VerifyRequest),
            66 => Some(ServerReqMsgDiscriminants::VerifyMessage),
            67 => Some(ServerReqMsgDiscriminants::QueryDisplayGroups),
            68 => Some(ServerReqMsgDiscriminants::SubscribeToGroupEvents),
            69 => Some(ServerReqMsgDiscriminants::UpdateDisplayGroup),
            70 => Some(ServerReqMsgDiscriminants::UnsubscribeFromGroupEvents),
            71 => Some(ServerReqMsgDiscriminants::StartApi),
            72 => Some(ServerReqMsgDiscriminants::VerifyAndAuthRequest),
            73 => Some(ServerReqMsgDiscriminants::VerifyAndAuthMessage),
            74 => Some(ServerReqMsgDiscriminants::ReqPositionsMulti),
            75 => Some(ServerReqMsgDiscriminants::CancelPositionsMulti),
            76 => Some(ServerReqMsgDiscriminants::ReqAccountUpdatesMulti),
            77 => Some(ServerReqMsgDiscriminants::CancelAccountUpdatesMulti),
            78 => Some(ServerReqMsgDiscriminants::ReqSecDefOptParams),
            79 => Some(ServerReqMsgDiscriminants::ReqSoftDollarTiers),
            80 => Some(ServerReqMsgDiscriminants::ReqFamilyCodes),
            81 => Some(ServerReqMsgDiscriminants::ReqMatchingSymbols),
            82 => Some(ServerReqMsgDiscriminants::ReqMktDepthExchanges),
            83 => Some(ServerReqMsgDiscriminants::ReqSmartComponents),
            84 => Some(ServerReqMsgDiscriminants::ReqNewsArticle),
            85 => Some(ServerReqMsgDiscriminants::ReqNewsProviders),
            86 => Some(ServerReqMsgDiscriminants::ReqHistoricalNews),
            87 => Some(ServerReqMsgDiscriminants::ReqHeadTimestamp),
            88 => Some(ServerReqMsgDiscriminants::ReqHistogramData),
            89 => Some(ServerReqMsgDiscriminants::CancelHistogramData),
            90 => Some(ServerReqMsgDiscriminants::CancelHeadTimestamp),
            91 => Some(ServerReqMsgDiscriminants::ReqMarketRule),
            92 => Some(ServerReqMsgDiscriminants::ReqPnl),
            93 => Some(ServerReqMsgDiscriminants::CancelPnl),
            94 => Some(ServerReqMsgDiscriminants::ReqPnlSingle),
            95 => Some(ServerReqMsgDiscriminants::CancelPnlSingle),
            96 => Some(ServerReqMsgDiscriminants::ReqHistoricalTicks),
            97 => Some(ServerReqMsgDiscriminants::ReqTickByTickData),
            98 => Some(ServerReqMsgDiscriminants::CancelTickByTickData),
            99 => Some(ServerReqMsgDiscriminants::ReqCompletedOrders),
            _ => None,
        }
    }

    /// The numeric code sent on the wire.
    pub fn code(&self) -> (r: i32)
        ensures
            r == self.spec_code(),
    {
        match self {
            ServerReqMsgDiscriminants::ReqMktData => 1,
            ServerReqMsgDiscriminants::CancelMktData => 2,
            ServerReqMsgDiscriminants::PlaceOrder => 3,
            ServerReqMsgDiscriminants::CancelOrder => 4,
            ServerReqMsgDiscriminants::ReqOpenOrders => 5,
            ServerReqMsgDiscriminants::ReqAcctData => 6,
            ServerReqMsgDiscriminants::ReqExecutions => 7,
            ServerReqMsgDiscriminants::ReqIds => 8,
            ServerReqMsgDiscriminants::ReqContractData => 9,
            ServerReqMsgDiscriminants::ReqMktDepth => 10,
            ServerReqMsgDiscriminants::CancelMktDepth => 11,
            ServerReqMsgDiscriminants::ReqNewsBulletins => 12,
            ServerReqMsgDiscriminants::CancelNewsBulletins => 13,
            ServerReqMsgDiscriminants::SetServerLoglevel => 14,
            ServerReqMsgDiscriminants::ReqAutoOpenOrders => 15,
            ServerReqMsgDiscriminants::ReqAllOpenOrders => 16,
            ServerReqMsgDiscriminants::ReqManagedAccts => 17,
            ServerReqMsgDiscriminants::ReqFa => 18,
            ServerReqMsgDiscriminants::ReplaceFa => 19,
            ServerReqMsgDiscriminants::ReqHistoricalData => 20,
            ServerReqMsgDiscriminants::ExerciseOptions => 21,
            ServerReqMsgDiscriminants::ReqScannerSubscription => 22,
            ServerReqMsgDiscriminants::CancelScannerSubscription => 23,
            ServerReqMsgDiscriminants::ReqScannerParameters => 24,
            ServerReqMsgDiscriminants::CancelHistoricalData => 25,
            ServerReqMsgDiscriminants::ReqCurrentTime => 49,
            ServerReqMsgDiscriminants::ReqRealTimeBars => 50,
            ServerReqMsgDiscriminants::CancelRealTimeBars => 51,
            ServerReqMsgDiscriminants::ReqFundamentalData => 52,
            ServerReqMsgDiscriminants::CancelFundamentalData => 53,
            ServerReqMsgDiscriminants::ReqCalcImpliedVolat => 54,
            ServerReqMsgDiscriminants::ReqCalcOptionPrice => 55,
            ServerReqMsgDiscriminants::CancelCalcImpliedVolat => 56,
            ServerReqMsgDiscriminants::CancelCalcOptionPrice => 57,
            ServerReqMsgDiscriminants::ReqGlobalCancel => 58,
            ServerReqMsgDiscriminants::ReqMarketDataType => 59,
            ServerReqMsgDiscriminants::ReqPositions => 61,
            ServerReqMsgDiscriminants::ReqAccountSummary => 62,
            ServerReqMsgDiscriminants::CancelAccountSummary => 63,
            ServerReqMsgDiscriminants::CancelPositions => 64,
            ServerReqMsgDiscriminants::VerifyRequest => 65,
            ServerReqMsgDiscriminants::VerifyMessage => 66,
            ServerReqMsgDiscriminants::QueryDisplayGroups => 67,
            ServerReqMsgDiscriminants::SubscribeToGroupEvents => 68,
            ServerReqMsgDiscriminants::UpdateDisplayGroup => 69,
            ServerReqMsgDiscriminants::UnsubscribeFromGroupEvents => 70,
            ServerReqMsgDiscriminants::StartApi => 71,
            ServerReqMsgDiscriminants::VerifyAndAuthRequest => 72,
            ServerReqMsgDiscriminants::VerifyAndAuthMessage => 73,
            ServerReqMsgDiscriminants::ReqPositionsMulti => 74,
            ServerReqMsgDiscriminants::CancelPositionsMulti => 75,
            ServerReqMsgDiscriminants::ReqAccountUpdatesMulti => 76,
            ServerReqMsgDiscriminants::CancelAccountUpdatesMulti => 77,
            ServerReqMsgDiscriminants::ReqSecDefOptParams => 78,
            ServerReqMsgDiscriminants::ReqSoftDollarTiers => 79,
            ServerReqMsgDiscriminants::ReqFamilyCodes => 80,
            ServerReqMsgDiscriminants::ReqMatchingSymbols => 81,
            ServerReqMsgDiscriminants::ReqMktDepthExchanges => 82,
            ServerReqMsgDiscriminants::ReqSmartComponents => 83,
            ServerReqMsgDiscriminants::ReqNewsArticle => 84,
            ServerReqMsgDiscriminants::ReqNewsProviders => 85,
            ServerReqMsgDiscriminants::ReqHistoricalNews => 86,
            ServerReqMsgDiscriminants::ReqHeadTimestamp => 87,
            ServerReqMsgDiscriminants::ReqHistogramData => 88,
            ServerReqMsgDiscriminants::CancelHistogramData => 89,
            ServerReqMsgDiscriminants::CancelHeadTimestamp => 90,
            ServerReqMsgDiscriminants::ReqMarketRule => 91,
            ServerReqMsgDiscriminants::ReqPnl => 92,
            ServerReqMsgDiscriminants::CancelPnl => 93,
            ServerReqMsgDiscriminants::ReqPnlSingle => 94,
            ServerReqMsgDiscriminants::CancelPnlSingle => 95,
            ServerReqMsgDiscriminants::ReqHistoricalTicks => 96,
            ServerReqMsgDiscriminants::ReqTickByTickData => 97,
            ServerReqMsgDiscriminants::CancelTickByTickData => 98,
            ServerReqMsgDiscriminants::ReqCompletedOrders => 99,
        }
    }

    /// The request kind named by a numeric code; `None` for a code with no entry.
    pub fn from_i32(c: i32) -> (r: Option<ServerReqMsgDiscriminants>)
        ensures
            r == Self::spec_from_code(c),
    {
        match c {
            1 => Some(ServerReqMsgDiscriminants::ReqMktData),
            2 => Some(ServerReqMsgDiscriminants::CancelMktData),
            3 => Some(ServerReqMsgDiscriminants::PlaceOrder),
            4 => Some(ServerReqMsgDiscriminants::CancelOrder),
            5 => Some(ServerReqMsgDiscriminants::ReqOpenOrders),
            6 => Some(ServerReqMsgDiscriminants::ReqAcctData),
            7 => Some(ServerReqMsgDiscriminants::ReqExecutions),
            8 => Some(ServerReqMsgDiscriminants::ReqIds),
            9 => Some(ServerReqMsgDiscriminants::ReqContractData),
            10 => Some(ServerReqMsgDiscriminants::ReqMktDepth),
            11 => Some(ServerReqMsgDiscriminants::CancelMktDepth),
            12 => Some(ServerReqMsgDiscriminants::ReqNewsBulletins),
            13 => Some(ServerReqMsgDiscriminants::CancelNewsBulletins),
            14 => Some(ServerReqMsgDiscriminants::SetServerLoglevel),
            15 => Some(ServerReqMsgDiscriminants::ReqAutoOpenOrders),
            16 => Some(ServerReqMsgDiscriminants::ReqAllOpenOrders),
            17 => Some(ServerReqMsgDiscriminants::ReqManagedAccts),
            18 => Some(ServerReqMsgDiscriminants::ReqFa),
            19 => Some(ServerReqMsgDiscriminants::ReplaceFa),
            20 => Some(ServerReqMsgDiscriminants::ReqHistoricalData),
            21 => Some(ServerReqMsgDiscriminants::ExerciseOptions),
            22 => Some(ServerReqMsgDiscriminants::ReqScannerSubscription),
            23 => Some(ServerReqMsgDiscriminants::CancelScannerSubscription),
            24 => Some(ServerReqMsgDiscriminants::ReqScannerParameters),
            25 => Some(ServerReqMsgDiscriminants::CancelHistoricalData),
            49 => Some(ServerReqMsgDiscriminants::ReqCurrentTime),
            50 => Some(ServerReqMsgDiscriminants::ReqRealTimeBars),
            51 => Some(ServerReqMsgDiscriminants::CancelRealTimeBars),
            52 => Some(ServerReqMsgDiscriminants::ReqFundamentalData),
            53 => Some(ServerReqMsgDiscriminants::CancelFundamentalData),
            54 => Some(ServerReqMsgDiscriminants::ReqCalcImpliedVolat),
            55 => Some(ServerReqMsgDiscriminants::ReqCalcOptionPrice),
            56 => Some(ServerReqMsgDiscriminants::CancelCalcImpliedVolat),
            57 => Some(ServerReqMsgDiscriminants::CancelCalcOptionPrice),
            58 => Some(ServerReqMsgDiscriminants::ReqGlobalCancel),
            59 => Some(ServerReqMsgDiscriminants::ReqMarketDataType),
            61 => Some(ServerReqMsgDiscriminants::ReqPositions),
            62 => Some(ServerReqMsgDiscriminants::ReqAccountSummary),
            63 => Some(ServerReqMsgDiscriminants::CancelAccountSummary),
            64 => Some(ServerReqMsgDiscriminants::CancelPositions),
            65 => Some(ServerReqMsgDiscriminants::VerifyRequest),
            66 => Some(ServerReqMsgDiscriminants::VerifyMessage),
            67 => Some(ServerReqMsgDiscriminants::QueryDisplayGroups),
            68 => Some(ServerReqMsgDiscriminants::SubscribeToGroupEvents),
            69 => Some(ServerReqMsgDiscriminants::UpdateDisplayGroup),
            70 => Some(ServerReqMsgDiscriminants::UnsubscribeFromGroupEvents),
            71 => Some(ServerReqMsgDiscriminants::StartApi),
            72 => Some(ServerReqMsgDiscriminants::VerifyAndAuthRequest),
            73 => Some(ServerReqMsgDiscriminants::VerifyAndAuthMessage),
            74 => Some(ServerReqMsgDiscriminants::ReqPositionsMulti),
            75 => Some(ServerReqMsgDiscriminants::CancelPositionsMulti),
            76 => Some(ServerReqMsgDiscriminants::ReqAccountUpdatesMulti),
            77 => Some(ServerReqMsgDiscriminants::CancelAccountUpdatesMulti),
            78 => Some(ServerReqMsgDiscriminants::ReqSecDefOptParams),
            79 => Some(ServerReqMsgDiscriminants::ReqSoftDollarTiers),
            80 => Some(ServerReqMsgDiscriminants::ReqFamilyCodes),
            81 => Some(ServerReqMsgDiscriminants::ReqMatchingSymbols),
            82 => Some(ServerReqMsgDiscriminants::ReqMktDepthExchanges),
            83 => Some(ServerReqMsgDiscriminants::ReqSmartComponents),
            84 => Some(ServerReqMsgDiscriminants::ReqNewsArticle),
            85 => Some(ServerReqMsgDiscriminants::ReqNewsProviders),
            86 => Some(ServerReqMsgDiscriminants::ReqHistoricalNews),
            87 => Some(ServerReqMsgDiscriminants::ReqHeadTimestamp),
            88 => Some(ServerReqMsgDiscriminants::ReqHistogramData),
            89 => Some(ServerReqMsgDiscriminants::CancelHistogramData),
            90 => Some(ServerReqMsgDiscriminants::CancelHeadTimestamp),
            91 => Some(ServerReqMsgDiscriminants::ReqMarketRule),
            92 => Some(ServerReqMsgDiscriminants::ReqPnl),
            93 => Some(ServerReqMsgDiscriminants::CancelPnl),
            94 => Some(ServerReqMsgDiscriminants::ReqPnlSingle),
            95 => Some(ServerReqMsgDiscriminants::CancelPnlSingle),
            96 => Some(ServerReqMsgDiscriminants::ReqHistoricalTicks),
            97 => Some(ServerReqMsgDiscriminants::ReqTickByTickData),
            98 => Some(ServerReqMsgDiscriminants::CancelTickByTickData),
            99 => Some(ServerReqMsgDiscriminants::ReqCompletedOrders),
            _ => None,
        }
    }

    /// Whether the request carries an explicit protocol version as its first
    /// payload field. Newer kinds leave it out: the version negotiated for
    /// the connection fixes their layout.
    pub open spec fn spec_has_version(self) -> bool {
        match self {
            ServerReqMsgDiscriminants::ReqMktData => true,
            ServerReqMsgDiscriminants::CancelMktData => true,
            ServerReqMsgDiscriminants::PlaceOrder => true,
            ServerReqMsgDiscriminants::CancelOrder => true,
            ServerReqMsgDiscriminants::ReqOpenOrders => true,
            ServerReqMsgDiscriminants::ReqAcctData => true,
            ServerReqMsgDiscriminants::ReqExecutions => true,
            ServerReqMsgDiscriminants::ReqIds => true,
            ServerReqMsgDiscriminants::ReqContractData => true,
            ServerReqMsgDiscriminants::ReqMktDepth => true,
            ServerReqMsgDiscriminants::CancelMktDepth => true,
            ServerReqMsgDiscriminants::ReqNewsBulletins => true,
            ServerReqMsgDiscriminants::CancelNewsBulletins => true,
            ServerReqMsgDiscriminants::SetServerLoglevel => true,
            ServerReqMsgDiscriminants::ReqAutoOpenOrders => true,
            ServerReqMsgDiscriminants::ReqAllOpenOrders => true,
            ServerReqMsgDiscriminants::ReqManagedAccts => true,
            ServerReqMsgDiscriminants::ReqFa => true,
            ServerReqMsgDiscriminants::ReplaceFa => true,
            ServerReqMsgDiscriminants::ReqHistoricalData => true,
            ServerReqMsgDiscriminants::ExerciseOptions => true,
            ServerReqMsgDiscriminants::ReqScannerSubscription => true,
            ServerReqMsgDiscriminants::CancelScannerSubscription => true,
            ServerReqMsgDiscriminants::ReqScannerParameters => true,
            ServerReqMsgDiscriminants::CancelHistoricalData => true,
            ServerReqMsgDiscriminants::ReqCurrentTime => true,
            ServerReqMsgDiscriminants::ReqRealTimeBars => true,
            ServerReqMsgDiscriminants::CancelRealTimeBars => true,
            ServerReqMsgDiscriminants::ReqFundamentalData => true,
            ServerReqMsgDiscriminants::CancelFundamentalData => true,
            ServerReqMsgDiscriminants::ReqCalcImpliedVolat => true,
            ServerReqMsgDiscriminants::ReqCalcOptionPrice => true,
            ServerReqMsgDiscriminants::CancelCalcImpliedVolat => true,
            ServerReqMsgDiscriminants::CancelCalcOptionPrice => true,
            ServerReqMsgDiscriminants::ReqGlobalCancel => true,
            ServerReqMsgDiscriminants::ReqMarketDataType => true,
            ServerReqMsgDiscriminants::ReqPositions => true,
            ServerReqMsgDiscriminants::ReqAccountSummary => true,
            ServerReqMsgDiscriminants::CancelAccountSummary => true,
            ServerReqMsgDiscriminants::CancelPositions => true,
            ServerReqMsgDiscriminants::VerifyRequest => true,
            ServerReqMsgDiscriminants::VerifyMessage => true,
            ServerReqMsgDiscriminants::QueryDisplayGroups => true,
            ServerReqMsgDiscriminants::SubscribeToGroupEvents => true,
            ServerReqMsgDiscriminants::UpdateDisplayGroup => true,
            ServerReqMsgDiscriminants::UnsubscribeFromGroupEvents => true,
            ServerReqMsgDiscriminants::StartApi => true,
            ServerReqMsgDiscriminants::VerifyAndAuthRequest => true,
            ServerReqMsgDiscriminants::VerifyAndAuthMessage => true,
            ServerReqMsgDiscriminants::ReqPositionsMulti => true,
            ServerReqMsgDiscriminants::CancelPositionsMulti => true,
            ServerReqMsgDiscriminants::ReqAccountUpdatesMulti => true,
            ServerReqMsgDiscriminants::CancelAccountUpdatesMulti => true,
            ServerReqMsgDiscriminants::ReqSecDefOptParams => false,
            ServerReqMsgDiscriminants::ReqSoftDollarTiers => false,
            ServerReqMsgDiscriminants::ReqFamilyCodes => false,
            ServerReqMsgDiscriminants::ReqMatchingSymbols => false,
            ServerReqMsgDiscriminants::ReqMktDepthExchanges => false,
            ServerReqMsgDiscriminants::ReqSmartComponents => false,
            ServerReqMsgDiscriminants::ReqNewsArticle => false,
            ServerReqMsgDiscriminants::ReqNewsProviders => false,
            ServerReqMsgDiscriminants::ReqHistoricalNews => false,
            ServerReqMsgDiscriminants::ReqHeadTimestamp => false,
            ServerReqMsgDiscriminants::ReqHistogramData => false,
            ServerReqMsgDiscriminants::CancelHistogramData => false,
            ServerReqMsgDiscriminants::CancelHeadTimestamp => false,
            ServerReqMsgDiscriminants::ReqMarketRule => false,
            ServerReqMsgDiscriminants::ReqPnl => false,
            ServerReqMsgDiscriminants::CancelPnl => false,
            ServerReqMsgDiscriminants::ReqPnlSingle => false,
            ServerReqMsgDiscriminants::CancelPnlSingle => false,
            ServerReqMsgDiscriminants::ReqHistoricalTicks => false,
            ServerReqMsgDiscriminants::ReqTickByTickData => false,
            ServerReqMsgDiscriminants::CancelTickByTickData => false,
            ServerReqMsgDiscriminants::ReqCompletedOrders => false,
        }
    }

    /// Whether the version field is sent; see `spec_has_version`.
    pub fn has_version(&self) -> (r: bool)
        ensures
            r == self.spec_has_version(),
    {
        match self {
            ServerReqMsgDiscriminants::ReqMktData => true,
            ServerReqMsgDiscriminants::CancelMktData => true,
            ServerReqMsgDiscriminants::PlaceOrder => true,
            ServerReqMsgDiscriminants::CancelOrder => true,
            ServerReqMsgDiscriminants::ReqOpenOrders => true,
            ServerReqMsgDiscriminants::ReqAcctData => true,
            ServerReqMsgDiscriminants::ReqExecutions => true,
            ServerReqMsgDiscriminants::ReqIds => true,
            ServerReqMsgDiscriminants::ReqContractData => true,
            ServerReqMsgDiscriminants::ReqMktDepth => true,
            ServerReqMsgDiscriminants::CancelMktDepth => true,
            ServerReqMsgDiscriminants::ReqNewsBulletins => true,
            ServerReqMsgDiscriminants::CancelNewsBulletins => true,
            ServerReqMsgDiscriminants::SetServerLoglevel => true,
            ServerReqMsgDiscriminants::ReqAutoOpenOrders => true,
            ServerReqMsgDiscriminants::ReqAllOpenOrders => true,
            ServerReqMsgDiscriminants::ReqManagedAccts => true,
            ServerReqMsgDiscriminants::ReqFa => true,
            ServerReqMsgDiscriminants::ReplaceFa => true,
            ServerReqMsgDiscriminants::ReqHistoricalData => true,
            ServerReqMsgDiscriminants::ExerciseOptions => true,
            ServerReqMsgDiscriminants::ReqScannerSubscription => true,
            ServerReqMsgDiscriminants::CancelScannerSubscription => true,
            ServerReqMsgDiscriminants::ReqScannerParameters => true,
            ServerReqMsgDiscriminants::CancelHistoricalData => true,
            ServerReqMsgDiscriminants::ReqCurrentTime => true,
            ServerReqMsgDiscriminants::ReqRealTimeBars => true,
            ServerReqMsgDiscriminants::CancelRealTimeBars => true,
            ServerReqMsgDiscriminants::ReqFundamentalData => true,
            ServerReqMsgDiscriminants::CancelFundamentalData => true,
            ServerReqMsgDiscriminants::ReqCalcImpliedVolat => true,
            ServerReqMsgDiscriminants::ReqCalcOptionPrice => true,
            ServerReqMsgDiscriminants::CancelCalcImpliedVolat => true,
            ServerReqMsgDiscriminants::CancelCalcOptionPrice => true,
            ServerReqMsgDiscriminants::ReqGlobalCancel => true,
            ServerReqMsgDiscriminants::ReqMarketDataType => true,
            ServerReqMsgDiscriminants::ReqPositions => true,
            ServerReqMsgDiscriminants::ReqAccountSummary => true,
            ServerReqMsgDiscriminants::CancelAccountSummary => true,
            ServerReqMsgDiscriminants::CancelPositions => true,
            ServerReqMsgDiscriminants::VerifyRequest => true,
            ServerReqMsgDiscriminants::VerifyMessage => true,
            ServerReqMsgDiscriminants::QueryDisplayGroups => true,
            ServerReqMsgDiscriminants::SubscribeToGroupEvents => true,
            ServerReqMsgDiscriminants::UpdateDisplayGroup => true,
            ServerReqMsgDiscriminants::UnsubscribeFromGroupEvents => true,
            ServerReqMsgDiscriminants::StartApi => true,
            ServerReqMsgDiscriminants::VerifyAndAuthRequest => true,
            ServerReqMsgDiscriminants::VerifyAndAuthMessage => true,
            ServerReqMsgDiscriminants::ReqPositionsMulti => true,
            ServerReqMsgDiscriminants::CancelPositionsMulti => true,
            ServerReqMsgDiscriminants::ReqAccountUpdatesMulti => true,
            ServerReqMsgDiscriminants::CancelAccountUpdatesMulti => true,
            ServerReqMsgDiscriminants::ReqSecDefOptParams => false,
            ServerReqMsgDiscriminants::ReqSoftDollarTiers => false,
            ServerReqMsgDiscriminants::ReqFamilyCodes => false,
            ServerReqMsgDiscriminants::ReqMatchingSymbols => false,
            ServerReqMsgDiscriminants::ReqMktDepthExchanges => false,
            ServerReqMsgDiscriminants::ReqSmartComponents => false,
            ServerReqMsgDiscriminants::ReqNewsArticle => false,
            ServerReqMsgDiscriminants::ReqNewsProviders => false,
            ServerReqMsgDiscriminants::ReqHistoricalNews => false,
            ServerReqMsgDiscriminants::ReqHeadTimestamp => false,
            ServerReqMsgDiscriminants::ReqHistogramData => false,
            ServerReqMsgDiscriminants::CancelHistogramData => false,
            ServerReqMsgDiscriminants::CancelHeadTimestamp => false,
            ServerReqMsgDiscriminants::ReqMarketRule => false,
            ServerReqMsgDiscriminants::ReqPnl => false,
            ServerReqMsgDiscriminants::CancelPnl => false,
            ServerReqMsgDiscriminants::ReqPnlSingle => false,
            ServerReqMsgDiscriminants::CancelPnlSingle => false,
            ServerReqMsgDiscriminants::ReqHistoricalTicks => false,
            ServerReqMsgDiscriminants::ReqTickByTickData => false,
            ServerReqMsgDiscriminants::CancelTickByTickData => false,
            ServerReqMsgDiscriminants::ReqCompletedOrders => false,
        }
    }

    /// The kinds of the request's fields after the code and the version, in
    /// wire order. A `Block` is a composite value (a contract, an order, an
    /// execution filter or a scanner subscription) sent as its own run of
    /// fields.
    pub open spec fn spec_layout(self) -> Seq<FieldKind> {
        match self {
            ServerReqMsgDiscriminants::ReqMktData => seq![FieldKind::Int, FieldKind::Block, FieldKind::Text, FieldKind::Text, FieldKind::Bool, FieldKind::Bool, FieldKind::Text],
            ServerReqMsgDiscriminants::CancelMktData => seq![FieldKind::Int],
            ServerReqMsgDiscriminants::PlaceOrder => seq![FieldKind::Int, FieldKind::Block, FieldKind::Text, FieldKind::Text, FieldKind::Text, FieldKind::Block],
            ServerReqMsgDiscriminants::CancelOrder => seq![FieldKind::Int],
            ServerReqMsgDiscriminants::ReqOpenOrders => seq![],
            ServerReqMsgDiscriminants::ReqAcctData => seq![FieldKind::Bool, FieldKind::Text],
            ServerReqMsgDiscriminants::ReqExecutions => seq![FieldKind::Int, FieldKind::Block],
            ServerReqMsgDiscriminants::ReqIds => seq![FieldKind::Int],
            ServerReqMsgDiscriminants::ReqContractData => seq![FieldKind::Int, FieldKind::Block, FieldKind::Text, FieldKind::Bool, FieldKind::Text, FieldKind::Text],
            ServerReqMsgDiscriminants::ReqMktDepth => seq![FieldKind::Int, FieldKind::Block, FieldKind::Text, FieldKind::Int, FieldKind::Bool, FieldKind::Text],
            ServerReqMsgDiscriminants::CancelMktDepth => seq![FieldKind::Int, FieldKind::Bool],
            ServerReqMsgDiscriminants::ReqNewsBulletins => seq![FieldKind::Bool],
            ServerReqMsgDiscriminants::CancelNewsBulletins => seq![],
            ServerReqMsgDiscriminants::SetServerLoglevel => seq![FieldKind::Int],
            ServerReqMsgDiscriminants::ReqAutoOpenOrders => seq![FieldKind::Bool],
            ServerReqMsgDiscriminants::ReqAllOpenOrders => seq![],
            ServerReqMsgDiscriminants::ReqManagedAccts => seq![],
            ServerReqMsgDiscriminants::ReqFa => seq![FieldKind::Int],
            ServerReqMsgDiscriminants::ReplaceFa => seq![FieldKind::Int, FieldKind::Text],
            ServerReqMsgDiscriminants::ReqHistoricalData => seq![FieldKind::Int, FieldKind::Block, FieldKind::Text, FieldKind::Bool, FieldKind::Bool, FieldKind::Text],
            ServerReqMsgDiscriminants::ExerciseOptions => seq![FieldKind::Int, FieldKind::Block, FieldKind::Text, FieldKind::Int, FieldKind::Int, FieldKind::Text, FieldKind::Int],
            ServerReqMsgDiscriminants::ReqScannerSubscription => seq![FieldKind::Int, FieldKind::Block, FieldKind::Text, FieldKind::Text],
            ServerReqMsgDiscriminants::CancelScannerSubscription => seq![FieldKind::Int],
            ServerReqMsgDiscriminants::ReqScannerParameters => seq![],
            ServerReqMsgDiscriminants::CancelHistoricalData => seq![FieldKind::Int],
            ServerReqMsgDiscriminants::ReqCurrentTime => seq![],
            ServerReqMsgDiscriminants::ReqRealTimeBars => seq![FieldKind::Int, FieldKind::Block, FieldKind::Text, FieldKind::Int, FieldKind::Text, FieldKind::Bool, FieldKind::Text],
            ServerReqMsgDiscriminants::CancelRealTimeBars => seq![FieldKind::Int],
            ServerReqMsgDiscriminants::ReqFundamentalData => seq![FieldKind::Int, FieldKind::Block, FieldKind::Text, FieldKind::Int, FieldKind::Text],
            ServerReqMsgDiscriminants::CancelFundamentalData => seq![FieldKind::Int],
            ServerReqMsgDiscriminants::ReqCalcImpliedVolat => seq![FieldKind::Int, FieldKind::Block, FieldKind::Text, FieldKind::Float, FieldKind::Float, FieldKind::Size, FieldKind::Text],
            ServerReqMsgDiscriminants::ReqCalcOptionPrice => seq![FieldKind::Int, FieldKind::Block, FieldKind::Text, FieldKind::Float, FieldKind::Float, FieldKind::Size, FieldKind::Text],
            ServerReqMsgDiscriminants::CancelCalcImpliedVolat => seq![FieldKind::Int],
            ServerReqMsgDiscriminants::CancelCalcOptionPrice => seq![FieldKind::Int],
            ServerReqMsgDiscriminants::ReqGlobalCancel => seq![],
            ServerReqMsgDiscriminants::ReqMarketDataType => seq![FieldKind::Int],
            ServerReqMsgDiscriminants::ReqPositions => seq![],
            ServerReqMsgDiscriminants::ReqAccountSummary => seq![FieldKind::Int, FieldKind::Text, FieldKind::Text],
            ServerReqMsgDiscriminants::CancelAccountSummary => seq![FieldKind::Int],
            ServerReqMsgDiscriminants::CancelPositions => seq![],
            ServerReqMsgDiscriminants::VerifyRequest => seq![FieldKind::Text, FieldKind::Text],
            ServerReqMsgDiscriminants::VerifyMessage => seq![FieldKind::Text],
            ServerReqMsgDiscriminants::QueryDisplayGroups => seq![FieldKind::Int],
            ServerReqMsgDiscriminants::SubscribeToGroupEvents => seq![FieldKind::Int, FieldKind::Int],
            ServerReqMsgDiscriminants::UpdateDisplayGroup => seq![FieldKind::Int, FieldKind::Text],
            ServerReqMsgDiscriminants::UnsubscribeFromGroupEvents => seq![FieldKind::Int],
            ServerReqMsgDiscriminants::StartApi => seq![FieldKind::Text],
            ServerReqMsgDiscriminants::VerifyAndAuthRequest => seq![FieldKind::Text, FieldKind::Text, FieldKind::Text],
            ServerReqMsgDiscriminants::VerifyAndAuthMessage => seq![FieldKind::Text, FieldKind::Text],
            ServerReqMsgDiscriminants::ReqPositionsMulti => seq![FieldKind::Int, FieldKind::Text, FieldKind::Text],
            ServerReqMsgDiscriminants::CancelPositionsMulti => seq![FieldKind::Int],
            ServerReqMsgDiscriminants::ReqAccountUpdatesMulti => seq![FieldKind::Int, FieldKind::Text, FieldKind::Text, FieldKind::Bool],
            ServerReqMsgDiscriminants::CancelAccountUpdatesMulti => seq![FieldKind::Int],
            ServerReqMsgDiscriminants::ReqSecDefOptParams => seq![FieldKind::Int, FieldKind::Text, FieldKind::Text, FieldKind::Text, FieldKind::Int],
            ServerReqMsgDiscriminants::ReqSoftDollarTiers => seq![FieldKind::Int],
            ServerReqMsgDiscriminants::ReqFamilyCodes => seq![],
            ServerReqMsgDiscriminants::ReqMatchingSymbols => seq![FieldKind::Int, FieldKind::Text],
            ServerReqMsgDiscriminants::ReqMktDepthExchanges => seq![],
            ServerReqMsgDiscriminants::ReqSmartComponents => seq![FieldKind::Int, FieldKind::Text],
            ServerReqMsgDiscriminants::ReqNewsArticle => seq![FieldKind::Int, FieldKind::Text, FieldKind::Text, FieldKind::Text],
            ServerReqMsgDiscriminants::ReqNewsProviders => seq![],
            ServerReqMsgDiscriminants::ReqHistoricalNews => seq![FieldKind::Int, FieldKind::Int, FieldKind::Text, FieldKind::Text, FieldKind::Text, FieldKind::Int, FieldKind::Text],
            ServerReqMsgDiscriminants::ReqHeadTimestamp => seq![FieldKind::Int, FieldKind::Block, FieldKind::Text, FieldKind::Bool, FieldKind::Int, FieldKind::Text, FieldKind::Int],
            ServerReqMsgDiscriminants::ReqHistogramData => seq![FieldKind::Int, FieldKind::Block, FieldKind::Text, FieldKind::Bool, FieldKind::Bool, FieldKind::Text],
            ServerReqMsgDiscriminants::CancelHistogramData => seq![FieldKind::Int],
            ServerReqMsgDiscriminants::CancelHeadTimestamp => seq![FieldKind::Int],
            ServerReqMsgDiscriminants::ReqMarketRule => seq![FieldKind::Int],
            ServerReqMsgDiscriminants::ReqPnl => seq![FieldKind::Int, FieldKind::Text, FieldKind::Text],
            ServerReqMsgDiscriminants::CancelPnl => seq![FieldKind::Int],
            ServerReqMsgDiscriminants::ReqPnlSingle => seq![FieldKind::Int, FieldKind::Text, FieldKind::Text, FieldKind::Int],
            ServerReqMsgDiscriminants::CancelPnlSingle => seq![FieldKind::Int],
            ServerReqMsgDiscriminants::ReqHistoricalTicks => seq![FieldKind::Int, FieldKind::Block, FieldKind::Text, FieldKind::Bool, FieldKind::Text, FieldKind::Text, FieldKind::Int, FieldKind::Text, FieldKind::Int, FieldKind::Bool, FieldKind::Text],
            ServerReqMsgDiscriminants::ReqTickByTickData => seq![FieldKind::Int, FieldKind::Block, FieldKind::Text, FieldKind::Text, FieldKind::Int, FieldKind::Bool],
            ServerReqMsgDiscriminants::CancelTickByTickData => seq![FieldKind::Int],
            ServerReqMsgDiscriminants::ReqCompletedOrders => seq![FieldKind::Bool],
        }
    }

    /// The field layout; see `spec_layout`.
    pub fn layout(&self) -> (r: Vec<FieldKind>)
        ensures
            r@ == self.spec_layout(),
    {
        let r: Vec<FieldKind> = match self {
            ServerReqMsgDiscriminants::ReqMktData => vec![FieldKind::Int, FieldKind::Block, FieldKind::Text, FieldKind::Text, FieldKind::Bool, FieldKind::Bool, FieldKind::Text],
            ServerReqMsgDiscriminants::CancelMktData => vec![FieldKind::Int],
            ServerReqMsgDiscriminants::PlaceOrder => vec![FieldKind::Int, FieldKind::Block, FieldKind::Text, FieldKind::Text, FieldKind::Text, FieldKind::Block],
            ServerReqMsgDiscriminants::CancelOrder => vec![FieldKind::Int],
            ServerReqMsgDiscriminants::ReqOpenOrders => vec![],
            ServerReqMsgDiscriminants::ReqAcctData => vec![FieldKind::Bool, FieldKind::Text],
            ServerReqMsgDiscriminants::ReqExecutions => vec![FieldKind::Int, FieldKind::Block],
            ServerReqMsgDiscriminants::ReqIds => vec![FieldKind::Int],
            ServerReqMsgDiscriminants::ReqContractData => vec![FieldKind::Int, FieldKind::Block, FieldKind::Text, FieldKind::Bool, FieldKind::Text, FieldKind::Text],
            ServerReqMsgDiscriminants::ReqMktDepth => vec![FieldKind::Int, FieldKind::Block, FieldKind::Text, FieldKind::Int, FieldKind::Bool, FieldKind::Text],
            ServerReqMsgDiscriminants::CancelMktDepth => vec![FieldKind::Int, FieldKind::Bool],
            ServerReqMsgDiscriminants::ReqNewsBulletins => vec![FieldKind::Bool],
            ServerReqMsgDiscriminants::CancelNewsBulletins => vec![],
            ServerReqMsgDiscriminants::SetServerLoglevel => vec![FieldKind::Int],
            ServerReqMsgDiscriminants::ReqAutoOpenOrders => vec![FieldKind::Bool],
            ServerReqMsgDiscriminants::ReqAllOpenOrders => vec![],
            ServerReqMsgDiscriminants::ReqManagedAccts => vec![],
            ServerReqMsgDiscriminants::ReqFa => vec![FieldKind::Int],
            ServerReqMsgDiscriminants::ReplaceFa => vec![FieldKind::Int, FieldKind::Text],
            ServerReqMsgDiscriminants::ReqHistoricalData => vec![FieldKind::Int, FieldKind::Block, FieldKind::Text, FieldKind::Bool, FieldKind::Bool, FieldKind::Text],
            ServerReqMsgDiscriminants::ExerciseOptions => vec![FieldKind::Int, FieldKind::Block, FieldKind::Text, FieldKind::Int, FieldKind::Int, FieldKind::Text, FieldKind::Int],
            ServerReqMsgDiscriminants::ReqScannerSubscription => vec![FieldKind::Int, FieldKind::Block, FieldKind::Text, FieldKind::Text],
            ServerReqMsgDiscriminants::CancelScannerSubscription => vec![FieldKind::Int],
            ServerReqMsgDiscriminants::ReqScannerParameters => vec![],
            ServerReqMsgDiscriminants::CancelHistoricalData => vec![FieldKind::Int],
            ServerReqMsgDiscriminants::ReqCurrentTime => vec![],
            ServerReqMsgDiscriminants::ReqRealTimeBars => vec![FieldKind::Int, FieldKind::Block, FieldKind::Text, FieldKind::Int, FieldKind::Text, FieldKind::Bool, FieldKind::Text],
            ServerReqMsgDiscriminants::CancelRealTimeBars => vec![FieldKind::Int],
            ServerReqMsgDiscriminants::ReqFundamentalData => vec![FieldKind::Int, FieldKind::Block, FieldKind::Text, FieldKind::Int, FieldKind::Text],
            ServerReqMsgDiscriminants::CancelFundamentalData => vec![FieldKind::Int],
            ServerReqMsgDiscriminants::ReqCalcImpliedVolat => vec![FieldKind::Int, FieldKind::Block, FieldKind::Text, FieldKind::Float, FieldKind::Float, FieldKind::Size, FieldKind::Text],
            ServerReqMsgDiscriminants::ReqCalcOptionPrice => vec![FieldKind::Int, FieldKind::Block, FieldKind::Text, FieldKind::Float, FieldKind::Float, FieldKind::Size, FieldKind::Text],
            ServerReqMsgDiscriminants::CancelCalcImpliedVolat => vec![FieldKind::Int],
            ServerReqMsgDiscriminants::CancelCalcOptionPrice => vec![FieldKind::Int],
            ServerReqMsgDiscriminants::ReqGlobalCancel => vec![],
            ServerReqMsgDiscriminants::ReqMarketDataType => vec![FieldKind::Int],
            ServerReqMsgDiscriminants::ReqPositions => vec![],
            ServerReqMsgDiscriminants::ReqAccountSummary => vec![FieldKind::Int, FieldKind::Text, FieldKind::Text],
            ServerReqMsgDiscriminants::CancelAccountSummary => vec![FieldKind::Int],
            ServerReqMsgDiscriminants::CancelPositions => vec![],
            ServerReqMsgDiscriminants::VerifyRequest => vec![FieldKind::Text, FieldKind::Text],
            ServerReqMsgDiscriminants::VerifyMessage => vec![FieldKind::Text],
            ServerReqMsgDiscriminants::QueryDisplayGroups => vec![FieldKind::Int],
            ServerReqMsgDiscriminants::SubscribeToGroupEvents => vec![FieldKind::Int, FieldKind::Int],
            ServerReqMsgDiscriminants::UpdateDisplayGroup => vec![FieldKind::Int, FieldKind::Text],
            ServerReqMsgDiscriminants::UnsubscribeFromGroupEvents => vec![FieldKind::Int],
            ServerReqMsgDiscriminants::StartApi => vec![FieldKind::Text],
            ServerReqMsgDiscriminants::VerifyAndAuthRequest => vec![FieldKind::Text, FieldKind::Text, FieldKind::Text],
            ServerReqMsgDiscriminants::VerifyAndAuthMessage => vec![FieldKind::Text, FieldKind::Text],
            ServerReqMsgDiscriminants::ReqPositionsMulti => vec![FieldKind::Int, FieldKind::Text, FieldKind::Text],
            ServerReqMsgDiscriminants::CancelPositionsMulti => vec![FieldKind::Int],
            ServerReqMsgDiscriminants::ReqAccountUpdatesMulti => vec![FieldKind::Int, FieldKind::Text, FieldKind::Text, FieldKind::Bool],
            ServerReqMsgDiscriminants::CancelAccountUpdatesMulti => vec![FieldKind::Int],
            ServerReqMsgDiscriminants::ReqSecDefOptParams => vec![FieldKind::Int, FieldKind::Text, FieldKind::Text, FieldKind::Text, FieldKind::Int],
            ServerReqMsgDiscriminants::ReqSoftDollarTiers => vec![FieldKind::Int],
            ServerReqMsgDiscriminants::ReqFamilyCodes => vec![],
            ServerReqMsgDiscriminants::ReqMatchingSymbols => vec![FieldKind::Int, FieldKind::Text],
            ServerReqMsgDiscriminants::ReqMktDepthExchanges => vec![],
            ServerReqMsgDiscriminants::ReqSmartComponents => vec![FieldKind::Int, FieldKind::Text],
            ServerReqMsgDiscriminants::ReqNewsArticle => vec![FieldKind::Int, FieldKind::Text, FieldKind::Text, FieldKind::Text],
            ServerReqMsgDiscriminants::ReqNewsProviders => vec![],
            ServerReqMsgDiscriminants::ReqHistoricalNews => vec![FieldKind::Int, FieldKind::Int, FieldKind::Text, FieldKind::Text, FieldKind::Text, FieldKind::Int, FieldKind::Text],
            ServerReqMsgDiscriminants::ReqHeadTimestamp => vec![FieldKind::Int, FieldKind::Block, FieldKind::Text, FieldKind::Bool, FieldKind::Int, FieldKind::Text, FieldKind::Int],
            ServerReqMsgDiscriminants::ReqHistogramData => vec![FieldKind::Int, FieldKind::Block, FieldKind::Text, FieldKind::Bool, FieldKind::Bool, FieldKind::Text],
            ServerReqMsgDiscriminants::CancelHistogramData => vec![FieldKind::Int],
            ServerReqMsgDiscriminants::CancelHeadTimestamp => vec![FieldKind::Int],
            ServerReqMsgDiscriminants::ReqMarketRule => vec![FieldKind::Int],
            ServerReqMsgDiscriminants::ReqPnl => vec![FieldKind::Int, FieldKind::Text, FieldKind::Text],
            ServerReqMsgDiscriminants::CancelPnl => vec![FieldKind::Int],
            ServerReqMsgDiscriminants::ReqPnlSingle => vec![FieldKind::Int, FieldKind::Text, FieldKind::Text, FieldKind::Int],
            ServerReqMsgDiscriminants::CancelPnlSingle => vec![FieldKind::Int],
            ServerReqMsgDiscriminants::ReqHistoricalTicks => vec![FieldKind::Int, FieldKind::Block, FieldKind::Text, FieldKind::Bool, FieldKind::Text, FieldKind::Text, FieldKind::Int, FieldKind::Text, FieldKind::Int, FieldKind::Bool, FieldKind::Text],
            ServerReqMsgDiscriminants::ReqTickByTickData => vec![FieldKind::Int, FieldKind::Block, FieldKind::Text, FieldKind::Text, FieldKind::Int, FieldKind::Bool],
            ServerReqMsgDiscriminants::CancelTickByTickData => vec![FieldKind::Int],
            ServerReqMsgDiscriminants::ReqCompletedOrders => vec![FieldKind::Bool],
        };
        r
    }
}

/// The data kind codes form a bijection: each data kind has one code, reading
/// its code back gives that data kind, and a code that names a data kind is
/// that data kind's code.
pub proof fn lemma_fa_data_codes_bijective(d: FAMessageDataTypes, c: i32)
    ensures
        FAMessageDataTypes::spec_from_code(d.spec_code()) == Some(d),
        FAMessageDataTypes::spec_from_code(c) matches Some(e) ==> e.spec_code() == c,
{
}

/// The response kind codes form a bijection: each response kind has one code, reading
/// its code back gives that response kind, and a code that names a response kind is
/// that response kind's code.
pub proof fn lemma_response_codes_bijective(d: ServerRspMsgDiscriminants, c: i32)
    ensures
        ServerRspMsgDiscriminants::spec_from_code(d.spec_code()) == Some(d),
        ServerRspMsgDiscriminants::spec_from_code(c) matches Some(e) ==> e.spec_code() == c,
{
}

/// The request kind codes form a bijection: each request kind has one code, reading
/// its code back gives that request kind, and a code that names a request kind is
/// that request kind's code.
pub proof fn lemma_request_codes_bijective(d: ServerReqMsgDiscriminants, c: i32)
    ensures
        ServerReqMsgDiscriminants::spec_from_code(d.spec_code()) == Some(d),
        ServerReqMsgDiscriminants::spec_from_code(c) matches Some(e) ==> e.spec_code() == c,
{
}

} // verus!
