//! Data model of the pipeline: raw intake payloads, validated orders,
//! market-intelligence records and the derived analysis block.
//!
//! Monetary amounts are whole units of the reporting currency. Ratios that
//! the analysis derives (risk, confidence) are fixed-point thousandths, and
//! the profit margin is fixed-point basis points, so that every derived
//! figure is exact and free of floating point.

use vstd::prelude::*;

verus! {

/// Client reference carried by an order.
#[derive(Clone, Debug)]
pub struct ClientInfo {
    pub company_name: String,
    pub contact_person: String,
    pub email: String,
}

/// One product entry of a raw, not yet validated payload.
///
/// Quantity and prices are signed: the validation gate, not the type,
/// rejects non-positive quantities and negative unit prices.
#[derive(Clone, Debug)]
pub struct RawLineItem {
    pub product_id: String,
    pub name: String,
    pub quantity: i64,
    pub unit_price: i64,
    pub unit_cost: Option<i64>,
}

/// A raw order payload as the host hands it in.
#[derive(Clone, Debug)]
pub struct RawOrder {
    pub client: Option<ClientInfo>,
    /// `None` when the payload carries no product list at all,
    /// as opposed to an empty list.
    pub products: Option<Vec<RawLineItem>>,
    pub payment_terms: Option<String>,
    pub delivery_terms: Option<String>,
}

/// A validated line item with its derived total.
#[derive(Clone, Debug)]
pub struct LineItem {
    pub product_id: String,
    pub name: String,
    pub quantity: u64,
    pub unit_price: u64,
    /// Unit cost may be absent; analysis treats an absent cost as zero.
    pub unit_cost: Option<i64>,
    /// Derived: `quantity * unit_price`, never trusted from input.
    pub total: u64,
}

/// Order-level aggregates in the fixed reporting currency.
#[derive(Clone, Debug)]
pub struct OrderDetails {
    pub total_value: u64,
    pub currency: String,
    pub payment_terms: Option<String>,
    pub delivery_terms: Option<String>,
}

/// One entry of the append-only status history.
#[derive(Clone, Debug)]
pub struct StatusEntry {
    pub status: String,
    pub timestamp_millis: i64,
    pub note: String,
}

/// The status state machine's data: current status plus full history.
#[derive(Clone, Debug)]
pub struct StatusTracking {
    pub current_status: String,
    pub history: Vec<StatusEntry>,
}

impl StatusTracking {
    /// The current status always equals the last history entry's status,
    /// and the history is never empty.
    pub open spec fn wf(self) -> bool {
        &&& self.history@.len() > 0
        &&& self.history@.last().status@ == self.current_status@
    }
}

/// Recommended shipping tier, chosen by order value.
#[derive(Clone, Copy, Debug, PartialEq, Eq, Structural)]
pub enum ShippingMethod {
    SeaFreight,
    ExpressCourier,
    AirFreight,
}

impl ShippingMethod {
    /// The wire name of the method.
    pub fn code(&self) -> (r: &'static str)
        ensures
            self is SeaFreight ==> r@ == "sea_freight"@,
            self is ExpressCourier ==> r@ == "express_courier"@,
            self is AirFreight ==> r@ == "air_freight"@,
    {
        match self {
            ShippingMethod::SeaFreight => "sea_freight",
            ShippingMethod::ExpressCourier => "express_courier",
            ShippingMethod::AirFreight => "air_freight",
        }
    }
}

/// The derived profit and risk snapshot of one order.
///
/// `profit_margin_bp` is in basis points (ten-thousandths), `risk_milli`
/// and `confidence_milli` in thousandths of one.
#[derive(Clone, Copy, Debug, PartialEq, Eq, Structural)]
pub struct AiAnalysis {
    pub predicted_total_profit: i128,
    pub profit_margin_bp: i128,
    pub risk_milli: u32,
    pub confidence_milli: u32,
    pub optimal_shipping_method: ShippingMethod,
    pub recommended_insurance: u64,
}

/// A fresh-enough price prediction for one product.
#[derive(Clone, Copy, Debug, PartialEq, Eq, Structural)]
pub struct PricePrediction {
    pub predicted_price: u64,
    /// Forecast confidence in thousandths of one.
    pub confidence_milli: u32,
}

/// Market-trend risk signals for one product.
#[derive(Clone, Copy, Debug, PartialEq, Eq, Structural)]
pub struct RiskSignal {
    /// Price volatility in thousandths of one, when reported.
    pub volatility_milli: Option<u32>,
}

/// One market-intelligence record, read-only input to the analyzer.
#[derive(Clone, Copy, Debug, PartialEq, Eq, Structural)]
pub struct MarketRecord {
    pub timestamp_millis: i64,
    pub prediction: Option<PricePrediction>,
    pub risk: Option<RiskSignal>,
}

/// A fully annotated order as the pipeline persists it.
#[derive(Clone, Debug)]
pub struct Order {
    pub order_number: String,
    pub created_at_millis: i64,
    pub client: ClientInfo,
    pub products: Vec<LineItem>,
    pub details: OrderDetails,
    pub tracking: StatusTracking,
    pub analysis: Option<AiAnalysis>,
}

impl Order {
    /// Structural well-formedness of a persisted order: totals are derived
    /// from the line items and the status machine's invariant holds.
    pub open spec fn wf(self) -> bool {
        &&& self.products@.len() > 0
        &&& forall|i: int|
            0 <= i < self.products@.len() ==> (#[trigger] self.products@[i]).total
                == self.products@[i].quantity * self.products@[i].unit_price
        &&& self.details.total_value == spec_items_total_value(self.products@)
        &&& self.tracking.wf()
    }
}

/// The exact sum of `quantity * unit_price` over validated line items.
pub open spec fn spec_items_total_value(items: Seq<LineItem>) -> int
    decreases items.len(),
{
    if items.len() == 0 {
        0
    } else {
        spec_items_total_value(items.drop_last()) + items.last().quantity
            * items.last().unit_price
    }
}

/// The exact sum of `quantity * unit_price` over raw line items.
pub open spec fn spec_raw_total_value(items: Seq<RawLineItem>) -> int
    decreases items.len(),
{
    if items.len() == 0 {
        0
    } else {
        spec_raw_total_value(items.drop_last()) + items.last().quantity * items.last().unit_price
    }
}

/// Every prefix of a series of non-negative terms is bounded by the whole
/// series: the partial totals of a valid order never exceed the final total.
pub proof fn lemma_raw_total_value_prefix_bound(items: Seq<RawLineItem>, n: int)
    requires
        0 <= n <= items.len(),
        forall|i: int|
            0 <= i < items.len() ==> (#[trigger] items[i]).quantity >= 0 && items[i].unit_price
                >= 0,
    ensures
        0 <= spec_raw_total_value(items.take(n)) <= spec_raw_total_value(items),
    decreases items.len() - n,
{
    if n == items.len() {
        assert(items.take(n) =~= items);
        lemma_raw_total_value_nonneg(items);
    } else {
        lemma_raw_total_value_prefix_bound(items, n + 1);
        assert(items.take(n + 1).drop_last() =~= items.take(n));
        assert(items.take(n + 1).last() == items[n]);
        assert(forall|i: int|
            0 <= i < items.take(n).len() ==> (#[trigger] items.take(n)[i]).quantity >= 0
                && items.take(n)[i].unit_price >= 0);
        lemma_raw_total_value_nonneg(items.take(n));
        assert(spec_raw_total_value(items.take(n + 1)) == spec_raw_total_value(items.take(n))
            + items[n].quantity * items[n].unit_price);
        assert(items[n].quantity * items[n].unit_price >= 0) by (nonlinear_arith)
            requires
                items[n].quantity >= 0,
                items[n].unit_price >= 0,
        ;
    }
}

/// The total of a valid order is never negative.
pub proof fn lemma_raw_total_value_nonneg(items: Seq<RawLineItem>)
    requires
        forall|i: int|
            0 <= i < items.len() ==> (#[trigger] items[i]).quantity >= 0 && items[i].unit_price
                >= 0,
    ensures
        spec_raw_total_value(items) >= 0,
    decreases items.len(),
{
    if items.len() > 0 {
        lemma_raw_total_value_nonneg(items.drop_last());
    }
}

} // verus!
