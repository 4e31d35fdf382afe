//! The profit and risk analyzer: combines order totals with fresh
//! market-intelligence records into the derived analysis snapshot.
//!
//! The analyzer never fails for lack of data: stale or missing records are
//! treated as absent signals and the snapshot is built from whatever is
//! fresh. All figures are exact fixed-point values: money in whole
//! currency units, margin in basis points, risk and confidence in
//! thousandths of one.

use vstd::prelude::*;
use crate::order::{AiAnalysis, LineItem, MarketRecord, PricePrediction, RiskSignal,
    ShippingMethod};
use crate::totals::PricedOrder;

verus! {

/// Records older than this are stale for price predictions (24 hours).
pub const PREDICTION_WINDOW_MILLIS: i64 = 86_400_000;

/// Records older than this are stale for general intelligence (7 days).
pub const INTELLIGENCE_WINDOW_MILLIS: i64 = 604_800_000;

/// Above this order value the recommended shipping tier is air freight.
pub const AIR_FREIGHT_THRESHOLD: u64 = 100_000;

/// Above this order value (up to the air-freight tier) the recommended
/// shipping tier is an express courier.
pub const EXPRESS_COURIER_THRESHOLD: u64 = 50_000;

/// Base risk added once per line item that carries risk factors, in
/// thousandths of one.
pub const BASE_RISK_MILLI: u32 = 100;

/// The risk score never exceeds one, i.e. this many thousandths.
pub const RISK_CAP_MILLI: u32 = 1000;

/// A record is fresh at `now` for a window when it is no older than the
/// window.
pub open spec fn spec_is_fresh(timestamp: int, now: int, window: int) -> bool {
    now - window <= timestamp
}

/// The price prediction of a record, provided the record is present and
/// fresh; stale records are treated as absent, not as zero-value signals.
pub open spec fn spec_fresh_prediction(rec: Option<MarketRecord>, now: int) -> Option<
    PricePrediction,
> {
    match rec {
        Some(r) => if spec_is_fresh(r.timestamp_millis as int, now, PREDICTION_WINDOW_MILLIS as int) {
            r.prediction
        } else {
            None
        },
        None => None,
    }
}

/// The risk signal of a record, provided the record is present and fresh.
pub open spec fn spec_fresh_risk(rec: Option<MarketRecord>, now: int) -> Option<RiskSignal> {
    match rec {
        Some(r) => if spec_is_fresh(r.timestamp_millis as int, now, PREDICTION_WINDOW_MILLIS as int) {
            r.risk
        } else {
            None
        },
        None => None,
    }
}

/// Sum over the first `n` line items of `(predicted - current) * quantity`
/// for items with a fresh prediction.
pub open spec fn spec_predicted_profit(
    items: Seq<LineItem>,
    recs: Seq<Option<MarketRecord>>,
    now: int,
    n: int,
) -> int
    decreases n,
{
    if n <= 0 {
        0
    } else {
        spec_predicted_profit(items, recs, now, n - 1) + (
        match spec_fresh_prediction(recs[n - 1], now) {
            Some(p) => (p.predicted_price - items[n - 1].unit_price) * items[n - 1].quantity,
            None => 0,
        })
    }
}

/// Sum of the magnitudes of the predicted-profit terms: bounds every
/// partial sum of `spec_predicted_profit`.
pub open spec fn spec_predicted_profit_abs(
    items: Seq<LineItem>,
    recs: Seq<Option<MarketRecord>>,
    now: int,
    n: int,
) -> int
    decreases n,
{
    if n <= 0 {
        0
    } else {
        spec_predicted_profit_abs(items, recs, now, n - 1) + (
        match spec_fresh_prediction(recs[n - 1], now) {
            Some(p) => abs_int(p.predicted_price - items[n - 1].unit_price) * items[n
                - 1].quantity,
            None => 0,
        })
    }
}

/// The magnitude of an integer.
pub open spec fn abs_int(x: int) -> int {
    if x >= 0 {
        x
    } else {
        -x
    }
}

/// Sum of the forecast confidences of the first `n` records that carry a
/// fresh prediction, in thousandths.
pub open spec fn spec_confidence_sum(recs: Seq<Option<MarketRecord>>, now: int, n: int) -> int
    decreases n,
{
    if n <= 0 {
        0
    } else {
        spec_confidence_sum(recs, now, n - 1) + (match spec_fresh_prediction(recs[n - 1], now) {
            Some(p) => p.confidence_milli as int,
            None => 0,
        })
    }
}

/// How many of the first `n` records carry a fresh prediction.
pub open spec fn spec_prediction_count(recs: Seq<Option<MarketRecord>>, now: int, n: int) -> int
    decreases n,
{
    if n <= 0 {
        0
    } else {
        spec_prediction_count(recs, now, n - 1) + (match spec_fresh_prediction(recs[n - 1], now) {
            Some(_) => 1int,
            None => 0,
        })
    }
}

/// The analyzer's confidence: the average forecast confidence over the
/// items that had a prediction (items without one do not lower it), zero
/// when no item had one. Thousandths, rounded down.
pub open spec fn spec_confidence_milli(recs: Seq<Option<MarketRecord>>, now: int) -> int {
    let count = spec_prediction_count(recs, now, recs.len() as int);
    if count == 0 {
        0
    } else {
        spec_confidence_sum(recs, now, recs.len() as int) / count
    }
}

/// The risk contribution of one record: base risk plus half the reported
/// volatility (rounded down), for records with fresh risk factors.
pub open spec fn spec_risk_term(rec: Option<MarketRecord>, now: int) -> int {
    match spec_fresh_risk(rec, now) {
        Some(r) => BASE_RISK_MILLI as int + (match r.volatility_milli {
            Some(v) => v as int / 2,
            None => 0,
        }),
        None => 0,
    }
}

/// The unclamped risk sum over the first `n` records.
pub open spec fn spec_risk_raw(recs: Seq<Option<MarketRecord>>, now: int, n: int) -> int
    decreases n,
{
    if n <= 0 {
        0
    } else {
        spec_risk_raw(recs, now, n - 1) + spec_risk_term(recs[n - 1], now)
    }
}

/// The risk score: the risk sum clamped to one (a thousand thousandths),
/// however many items carry risk factors.
pub open spec fn spec_risk_milli(recs: Seq<Option<MarketRecord>>, now: int) -> int {
    if spec_risk_raw(recs, now, recs.len() as int) >= RISK_CAP_MILLI as int {
        RISK_CAP_MILLI as int
    } else {
        spec_risk_raw(recs, now, recs.len() as int)
    }
}

/// The cost of one line item: `quantity * unit_cost`, an absent unit cost
/// counting as zero.
pub open spec fn spec_cost_term(item: LineItem) -> int {
    match item.unit_cost {
        Some(c) => item.quantity * c,
        None => 0,
    }
}

/// Total cost over the first `n` line items.
pub open spec fn spec_total_cost(items: Seq<LineItem>, n: int) -> int
    decreases n,
{
    if n <= 0 {
        0
    } else {
        spec_total_cost(items, n - 1) + spec_cost_term(items[n - 1])
    }
}

/// Sum of the magnitudes of the cost terms: bounds every partial sum of
/// `spec_total_cost`.
pub open spec fn spec_total_cost_abs(items: Seq<LineItem>, n: int) -> int
    decreases n,
{
    if n <= 0 {
        0
    } else {
        spec_total_cost_abs(items, n - 1) + abs_int(spec_cost_term(items[n - 1]))
    }
}

/// The profit margin in basis points: `gross_profit / total_value` scaled
/// by ten thousand, rounded toward zero, and exactly zero when the total
/// value is zero (by definition, not by fault).
pub open spec fn spec_profit_margin_bp(total_value: int, total_cost: int) -> int {
    if total_value <= 0 {
        0
    } else {
        let gross = total_value - total_cost;
        if gross >= 0 {
            gross * 10000 / total_value
        } else {
            -((-gross) * 10000 / total_value)
        }
    }
}

/// The shipping tier for an order value: air freight above the air
/// threshold, an express courier above the courier threshold, sea freight
/// otherwise.
pub open spec fn spec_optimal_shipping(total_value: int) -> ShippingMethod {
    if total_value > AIR_FREIGHT_THRESHOLD as int {
        ShippingMethod::AirFreight
    } else if total_value > EXPRESS_COURIER_THRESHOLD as int {
        ShippingMethod::ExpressCourier
    } else {
        ShippingMethod::SeaFreight
    }
}

/// The recommended insurance: the order value plus a fixed ten percent
/// buffer, rounded down.
pub open spec fn spec_recommended_insurance(total_value: int) -> int {
    total_value * 110 / 100
}

/// Magnitude-sum prefixes never exceed the whole magnitude sum.
proof fn lemma_cost_abs_prefix(items: Seq<LineItem>, n: int, m: int)
    requires
        0 <= n <= m,
    ensures
        0 <= spec_total_cost_abs(items, n) <= spec_total_cost_abs(items, m),
    decreases m - n,
{
    if n < m {
        lemma_cost_abs_prefix(items, n + 1, m);
        lemma_cost_abs_nonneg(items, n);
    } else {
        lemma_cost_abs_nonneg(items, n);
    }
}

proof fn lemma_cost_abs_nonneg(items: Seq<LineItem>, n: int)
    ensures
        spec_total_cost_abs(items, n) >= 0,
    decreases n,
{
    if n > 0 {
        lemma_cost_abs_nonneg(items, n - 1);
        lemma_abs_cost_term_nonneg(items[n - 1]);
    }
}

proof fn lemma_abs_cost_term_nonneg(item: LineItem)
    ensures
        abs_int(spec_cost_term(item)) >= 0,
        abs_int(spec_cost_term(item)) >= spec_cost_term(item),
        abs_int(spec_cost_term(item)) >= -spec_cost_term(item),
{
}

/// Every partial cost sum is bounded in magnitude by the magnitude sum.
proof fn lemma_cost_partial_bound(items: Seq<LineItem>, n: int)
    requires
        0 <= n,
    ensures
        abs_int(spec_total_cost(items, n)) <= spec_total_cost_abs(items, n),
    decreases n,
{
    if n > 0 {
        lemma_cost_partial_bound(items, n - 1);
        lemma_abs_cost_term_nonneg(items[n - 1]);
    }
}

proof fn lemma_pp_abs_prefix(
    items: Seq<LineItem>,
    recs: Seq<Option<MarketRecord>>,
    now: int,
    n: int,
    m: int,
)
    requires
        0 <= n <= m,
    ensures
        0 <= spec_predicted_profit_abs(items, recs, now, n) <= spec_predicted_profit_abs(
            items,
            recs,
            now,
            m,
        ),
    decreases m - n,
{
    lemma_pp_abs_nonneg(items, recs, now, n);
    if n < m {
        lemma_pp_abs_prefix(items, recs, now, n + 1, m);
        lemma_pp_term_nonneg(items, recs, now, n + 1);
    }
}

proof fn lemma_pp_abs_nonneg(
    items: Seq<LineItem>,
    recs: Seq<Option<MarketRecord>>,
    now: int,
    n: int,
)
    ensures
        spec_predicted_profit_abs(items, recs, now, n) >= 0,
    decreases n,
{
    if n > 0 {
        lemma_pp_abs_nonneg(items, recs, now, n - 1);
        lemma_pp_term_nonneg(items, recs, now, n);
    }
}

/// The magnitude term at position `n - 1` is non-negative and dominates
/// the signed term both ways.
proof fn lemma_pp_term_nonneg(
    items: Seq<LineItem>,
    recs: Seq<Option<MarketRecord>>,
    now: int,
    n: int,
)
    requires
        n >= 1,
    ensures
        (match spec_fresh_prediction(recs[n - 1], now) {
            Some(p) => abs_int(p.predicted_price - items[n - 1].unit_price) * items[n
                - 1].quantity,
            None => 0,
        }) >= abs_int(
            match spec_fresh_prediction(recs[n - 1], now) {
                Some(p) => (p.predicted_price - items[n - 1].unit_price) * items[n - 1].quantity,
                None => 0,
            },
        ),
{
    match spec_fresh_prediction(recs[n - 1], now) {
        Some(p) => {
            let d = p.predicted_price - items[n - 1].unit_price;
            let q = items[n - 1].quantity as int;
            assert(abs_int(d) * q >= abs_int(d * q)) by (nonlinear_arith)
                requires
                    q >= 0,
            ;
        },
        None => {},
    }
}

/// Every partial predicted-profit sum is bounded in magnitude by the
/// magnitude sum.
proof fn lemma_pp_partial_bound(
    items: Seq<LineItem>,
    recs: Seq<Option<MarketRecord>>,
    now: int,
    n: int,
)
    requires
        0 <= n,
    ensures
        abs_int(spec_predicted_profit(items, recs, now, n)) <= spec_predicted_profit_abs(
            items,
            recs,
            now,
            n,
        ),
    decreases n,
{
    if n > 0 {
        lemma_pp_partial_bound(items, recs, now, n - 1);
        lemma_pp_term_nonneg(items, recs, now, n);
    }
}

/// Total cost over all line items, an absent unit cost counting as zero.
pub fn calculate_total_cost(products: &Vec<LineItem>) -> (r: i128)
    requires
        spec_total_cost_abs(products@, products@.len() as int) <= i64::MAX,
    ensures
        r == spec_total_cost(products@, products@.len() as int),
        abs_int(r as int) <= i64::MAX,
{
    let ghost items = products@;
    let mut acc: i128 = 0;
    let mut i: usize = 0;
    while i < products.len()
        invariant
            0 <= i <= items.len(),
            items == products@,
            spec_total_cost_abs(items, items.len() as int) <= i64::MAX,
            acc == spec_total_cost(items, i as int),
        decreases items.len() - i,
    {
        proof {
            lemma_cost_abs_prefix(items, i as int + 1, items.len() as int);
            lemma_cost_partial_bound(items, i as int + 1);
            lemma_cost_partial_bound(items, i as int);
            lemma_abs_cost_term_nonneg(items[i as int]);
            lemma_cost_abs_nonneg(items, i as int);
        }
        let item = &products[i];
        match item.unit_cost {
            Some(c) => {
                proof {
                    assert(spec_total_cost_abs(items, i as int + 1) == spec_total_cost_abs(
                        items,
                        i as int,
                    ) + abs_int(spec_cost_term(items[i as int])));
                }
                let term: i128 = (item.quantity as i128) * (c as i128);
                assert(term == spec_cost_term(items[i as int]));
                acc = acc + term;
            },
            None => {},
        }
        i = i + 1;
    }
    proof {
        lemma_cost_partial_bound(items, items.len() as int);
    }
    acc
}

/// The recommended shipping tier for an order value: policy thresholds,
/// not a computation.
pub fn determine_optimal_shipping(total_value: u64) -> (r: ShippingMethod)
    ensures
        r == spec_optimal_shipping(total_value as int),
{
    if total_value > AIR_FREIGHT_THRESHOLD {
        ShippingMethod::AirFreight
    } else if total_value > EXPRESS_COURIER_THRESHOLD {
        ShippingMethod::ExpressCourier
    } else {
        ShippingMethod::SeaFreight
    }
}

/// Builds the analysis snapshot of an order from its totals and one
/// market-intelligence record per line item (absent where the store had
/// none). Partial data degrades gracefully: the snapshot is always
/// produced, stale records count as absent, the risk score is clamped to
/// one, and the margin is zero on a zero-value order.
pub fn analyze_order_profit(
    order: &PricedOrder,
    records: &Vec<Option<MarketRecord>>,
    now_millis: i64,
) -> (a: AiAnalysis)
    requires
        records@.len() == order.products@.len(),
        spec_total_cost_abs(order.products@, order.products@.len() as int) <= i64::MAX,
        spec_predicted_profit_abs(
            order.products@,
            records@,
            now_millis as int,
            order.products@.len() as int,
        ) <= i64::MAX,
        spec_recommended_insurance(order.details.total_value as int) <= u64::MAX,
    ensures
        a.predicted_total_profit == spec_predicted_profit(
            order.products@,
            records@,
            now_millis as int,
            order.products@.len() as int,
        ),
        a.profit_margin_bp == spec_profit_margin_bp(
            order.details.total_value as int,
            spec_total_cost(order.products@, order.products@.len() as int),
        ),
        order.details.total_value == 0 ==> a.profit_margin_bp == 0,
        a.risk_milli == spec_risk_milli(records@, now_millis as int),
        0 <= a.risk_milli <= RISK_CAP_MILLI,
        a.confidence_milli == spec_confidence_milli(records@, now_millis as int),
        a.optimal_shipping_method == spec_optimal_shipping(order.details.total_value as int),
        a.recommended_insurance == spec_recommended_insurance(order.details.total_value as int),
{
    let ghost items = order.products@;
    let ghost recs = records@;
    let ghost now = now_millis as int;
    let total_value = order.details.total_value;
    let total_cost = calculate_total_cost(&order.products);

    // Signals from fresh records: predicted profit, confidence, risk.
    let mut predicted_profit: i128 = 0;
    let mut confidence_sum: u128 = 0;
    let mut prediction_count: usize = 0;
    let mut risk_clamped: u32 = 0;
    let mut i: usize = 0;
    while i < records.len()
        invariant
            0 <= i <= recs.len(),
            recs == records@,
            items == order.products@,
            now == now_millis as int,
            recs.len() == items.len(),
            spec_predicted_profit_abs(items, recs, now, items.len() as int) <= i64::MAX,
            predicted_profit == spec_predicted_profit(items, recs, now, i as int),
            confidence_sum == spec_confidence_sum(recs, now, i as int),
            prediction_count == spec_prediction_count(recs, now, i as int),
            prediction_count <= i,
            confidence_sum <= (prediction_count as int) * (u32::MAX as int),
            risk_clamped == (if spec_risk_raw(recs, now, i as int) >= RISK_CAP_MILLI as int {
                RISK_CAP_MILLI as int
            } else {
                spec_risk_raw(recs, now, i as int)
            }),
        decreases recs.len() - i,
    {
        proof {
            lemma_pp_abs_prefix(items, recs, now, i as int + 1, items.len() as int);
            lemma_pp_partial_bound(items, recs, now, i as int + 1);
            lemma_pp_partial_bound(items, recs, now, i as int);
            lemma_pp_term_nonneg(items, recs, now, i as int + 1);
            lemma_pp_abs_nonneg(items, recs, now, i as int);
        }
        let item = &order.products[i];
        match &records[i] {
            Some(record) => {
                let fresh = is_fresh(record.timestamp_millis, now_millis,
                    PREDICTION_WINDOW_MILLIS);
                proof {
                    assert(recs[i as int] == Some(*record));
                    if !fresh {
                        assert(spec_fresh_prediction(recs[i as int], now) is None);
                        assert(spec_fresh_risk(recs[i as int], now) is None);
                    }
                }
                if fresh {
                    match &record.prediction {
                        Some(p) => {
                            proof {
                                assert(spec_fresh_prediction(recs[i as int], now) == Some(*p));
                            }
                            let diff: i128 = (p.predicted_price as i128) - (item.unit_price
                                as i128);
                            proof {
                                let d = p.predicted_price - items[i as int].unit_price;
                                let q = items[i as int].quantity as int;
                                assert(spec_predicted_profit_abs(items, recs, now, i as int + 1)
                                    == spec_predicted_profit_abs(items, recs, now, i as int)
                                    + abs_int(d) * q);
                                assert(abs_int(d) * q <= i64::MAX);
                                assert(abs_int(d * q) <= abs_int(d) * q) by (nonlinear_arith)
                                    requires
                                        q >= 0,
                                ;
                            }
                            let term: i128 = diff * (item.quantity as i128);
                            assert(term == (p.predicted_price - items[i as int].unit_price)
                                * items[i as int].quantity);
                            predicted_profit = predicted_profit + term;
                            confidence_sum = confidence_sum + (p.confidence_milli as u128);
                            prediction_count = prediction_count + 1;
                        },
                        None => {
                            proof {
                                assert(spec_fresh_prediction(recs[i as int], now) is None);
                            }
                        },
                    }
                    match &record.risk {
                        Some(risk) => {
                            proof {
                                assert(spec_fresh_risk(recs[i as int], now) == Some(*risk));
                            }
                            let vol_half: u32 = match risk.volatility_milli {
                                Some(v) => v / 2,
                                None => 0,
                            };
                            proof {
                                assert(spec_risk_term(recs[i as int], now) == BASE_RISK_MILLI
                                    + vol_half);
                            }
                            let inc: u64 = (BASE_RISK_MILLI as u64) + (vol_half as u64);
                            let bumped: u64 = (risk_clamped as u64) + inc;
                            risk_clamped = if bumped >= RISK_CAP_MILLI as u64 {
                                RISK_CAP_MILLI
                            } else {
                                bumped as u32
                            };
                        },
                        None => {
                            proof {
                                assert(spec_fresh_risk(recs[i as int], now) is None);
                                assert(spec_risk_term(recs[i as int], now) == 0);
                            }
                        },
                    }
                }
            },
            None => {},
        }
        i = i + 1;
    }

    let confidence_milli: u32 = if prediction_count == 0 {
        0
    } else {
        let avg: u128 = confidence_sum / (prediction_count as u128);
        assert(avg <= u32::MAX) by (nonlinear_arith)
            requires
                confidence_sum <= (prediction_count as int) * (u32::MAX as int),
                prediction_count > 0,
                avg == confidence_sum as int / prediction_count as int,
        ;
        avg as u32
    };

    // Margin: sign and magnitude handled separately so the rounding is
    // toward zero in both directions.
    let profit_margin_bp: i128 = if total_value == 0 {
        0
    } else {
        let gross: i128 = (total_value as i128) - total_cost;
        if gross >= 0 {
            let num: u128 = (gross as u128) * 10000;
            let m: u128 = num / (total_value as u128);
            m as i128
        } else {
            let mag: u128 = (-gross) as u128;
            let num: u128 = mag * 10000;
            let m: u128 = num / (total_value as u128);
            -(m as i128)
        }
    };

    let insurance_wide: u128 = (total_value as u128) * 110 / 100;
    let recommended_insurance: u64 = insurance_wide as u64;

    AiAnalysis {
        predicted_total_profit: predicted_profit,
        profit_margin_bp,
        risk_milli: risk_clamped,
        confidence_milli,
        optimal_shipping_method: determine_optimal_shipping(total_value),
        recommended_insurance,
    }
}

/// Whether a record timestamp is within the freshness window at `now`.
pub fn is_fresh(timestamp_millis: i64, now_millis: i64, window_millis: i64) -> (r: bool)
    ensures
        r == spec_is_fresh(timestamp_millis as int, now_millis as int, window_millis as int),
{
    let cutoff: i128 = (now_millis as i128) - (window_millis as i128);
    (timestamp_millis as i128) >= cutoff
}

} // verus!
