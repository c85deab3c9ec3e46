//! Plain-value models of the records the broker's transport layer hands in:
//! scaled quantities, money values, operation records and position
//! snapshots.  The transport delivers wire messages; the binary around this
//! library converts them field by field into these types before any
//! aggregation runs.
use vstd::prelude::*;
use vstd::string::StringExecFns;

verus! {

/// A scaled number from the wire: integer units and a nano fraction.
#[derive(Clone, Copy, PartialEq, Eq, Structural, Debug)]
pub struct RawQuotation {
    pub units: i64,
    pub nano: i32,
}

/// A money amount from the wire: units, nano fraction and a currency code.
#[derive(Clone, PartialEq, Eq, Debug)]
pub struct RawMoney {
    pub currency: String,
    pub units: i64,
    pub nano: i32,
}

/// A point in time from the wire: seconds since the Unix epoch.
#[derive(Clone, Copy, PartialEq, Eq, Structural, Debug)]
pub struct RawTimestamp {
    pub seconds: i64,
}

/// Execution state of an operation.
#[derive(Clone, Copy, PartialEq, Eq, Structural, Debug)]
pub enum OperationState {
    Unspecified,
    Executed,
    Canceled,
    Progress,
}

/// The closed set of operation-type codes the broker reports.
#[derive(Clone, Copy, PartialEq, Eq, Structural, Debug)]
pub enum OperationKind {
    Unspecified,
    Input,
    BondTax,
    OutputSecurities,
    Overnight,
    Tax,
    BondRepaymentFull,
    SellCard,
    DividendTax,
    Output,
    BondRepayment,
    TaxCorrection,
    ServiceFee,
    BenefitTax,
    MarginFee,
    Buy,
    BuyCard,
    InputSecurities,
    SellMargin,
    BrokerFee,
    BuyMargin,
    Dividend,
    Sell,
    Coupon,
    SuccessFee,
    DividendTransfer,
    AccruingVarmargin,
    WritingOffVarmargin,
    DeliveryBuy,
    DeliverySell,
    TrackMfee,
    TrackPfee,
    TaxProgressive,
    BondTaxProgressive,
    DividendTaxProgressive,
    BenefitTaxProgressive,
    TaxCorrectionProgressive,
    TaxRepoProgressive,
    TaxRepo,
    TaxRepoHold,
    TaxRepoRefund,
    TaxRepoHoldProgressive,
    TaxRepoRefundProgressive,
    DivExt,
    TaxCorrectionCoupon,
    CashFee,
    OutFee,
    OutStampDuty,
    OutputSwift,
    InputSwift,
    OutputAcquiring,
    InputAcquiring,
    OutputPenalty,
    AdviceFee,
    TransIisBs,
    TransBsBs,
    OutMulti,
    InpMulti,
    OverPlacement,
    OverCom,
    OverIncome,
    OptionExpiration,
    FutureExpiration,
}

/// One transaction from an instrument's account history.
#[derive(Clone, PartialEq, Debug)]
pub struct RawOperation {
    pub id: String,
    pub currency: String,
    pub payment: Option<RawMoney>,
    pub price: Option<RawMoney>,
    pub state: OperationState,
    pub quantity: i64,
    pub quantity_rest: i64,
    pub date: Option<RawTimestamp>,
    pub type_text: String,
    pub operation_type: OperationKind,
}

/// A position snapshot from the portfolio query.
#[derive(Clone, PartialEq, Debug)]
pub struct RawPosition {
    pub figi: String,
    pub instrument_type: String,
    pub quantity: Option<RawQuotation>,
    pub average_position_price: Option<RawMoney>,
    pub current_price: Option<RawMoney>,
}

/// Identity of an instrument as the instrument search returns it.
#[derive(Clone, PartialEq, Eq, Debug)]
pub struct InstrumentShort {
    pub name: String,
    pub ticker: String,
    pub figi: String,
}

/// The closed set of instrument classes a position can belong to.
#[derive(Clone, Copy, PartialEq, Eq, Structural, Debug)]
pub enum InstrumentKind {
    Bond,
    Share,
    Etf,
    Currency,
    Futures,
}

/// The instrument class a wire tag denotes.
pub open spec fn spec_instrument_kind(s: Seq<char>) -> Option<InstrumentKind> {
    if s == "bond"@ {
        Some(InstrumentKind::Bond)
    } else if s == "share"@ {
        Some(InstrumentKind::Share)
    } else if s == "etf"@ {
        Some(InstrumentKind::Etf)
    } else if s == "currency"@ {
        Some(InstrumentKind::Currency)
    } else if s == "futures"@ {
        Some(InstrumentKind::Futures)
    } else {
        None
    }
}

/// Reads the wire's open instrument-class tag into the closed enum; anything
/// unknown is `None` and its position is left out of the report.
pub fn instrument_kind_of(tag: &String) -> (r: Option<InstrumentKind>)
    ensures
        r == spec_instrument_kind(tag@),
{
    if *tag == String::from_str("bond") {
        Some(InstrumentKind::Bond)
    } else if *tag == String::from_str("share") {
        Some(InstrumentKind::Share)
    } else if *tag == String::from_str("etf") {
        Some(InstrumentKind::Etf)
    } else if *tag == String::from_str("currency") {
        Some(InstrumentKind::Currency)
    } else if *tag == String::from_str("futures") {
        Some(InstrumentKind::Futures)
    } else {
        None
    }
}

} // verus!
