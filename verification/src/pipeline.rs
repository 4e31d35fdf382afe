//! The order processing pipeline: validate, compute totals, analyze,
//! then assemble the record to persist and the work the host runs after
//! persistence.
//!
//! The pipeline is pure: it decides, the host performs. Validation and
//! totals fail fast — an invalid payload yields an error and no order, so
//! nothing is ever persisted for it. Once an order record is produced,
//! document generation and website notification are the host's follow-up
//! steps; their failures must not retract the created order.

use vstd::prelude::*;
use crate::analysis::{
    abs_int, analyze_order_profit, spec_confidence_milli, spec_fresh_prediction,
    spec_optimal_shipping, spec_predicted_profit, spec_predicted_profit_abs,
    spec_profit_margin_bp, spec_recommended_insurance, spec_risk_milli, spec_total_cost,
    spec_total_cost_abs, spec_cost_term,
};
use crate::errors::ValidationError;
use crate::order::{
    LineItem, MarketRecord, Order, RawLineItem, RawOrder, StatusEntry, StatusTracking,
    lemma_raw_total_value_nonneg, lemma_raw_total_value_prefix_bound, spec_raw_total_value,
};
use crate::order_number::{next_order_number, spec_next_order_number, spec_opt_chars};
use crate::totals::{calculate_order_totals, spec_line_priced};
use crate::validate::{spec_items_valid, spec_validate_order, validate_order_data};

verus! {

/// Magnitude sum of the cost terms of raw line items.
pub open spec fn spec_raw_cost_abs(items: Seq<RawLineItem>, n: int) -> int
    decreases n,
{
    if n <= 0 {
        0
    } else {
        spec_raw_cost_abs(items, n - 1) + abs_int(
            match items[n - 1].unit_cost {
                Some(c) => items[n - 1].quantity * c,
                None => 0,
            },
        )
    }
}

/// Packaging weight in grams of the first `n` raw line items, at the
/// fixed per-unit weight.
pub open spec fn spec_raw_weight_grams(items: Seq<RawLineItem>, n: int) -> int
    decreases n,
{
    if n <= 0 {
        0
    } else {
        spec_raw_weight_grams(items, n - 1) + items[n - 1].quantity
            * crate::documents::UNIT_WEIGHT_GRAMS
    }
}

/// Magnitude sum of the predicted-profit terms of raw line items.
pub open spec fn spec_raw_pp_abs(
    items: Seq<RawLineItem>,
    recs: Seq<Option<MarketRecord>>,
    now: int,
    n: int,
) -> int
    decreases n,
{
    if n <= 0 {
        0
    } else {
        spec_raw_pp_abs(items, recs, now, n - 1) + (
        match spec_fresh_prediction(recs[n - 1], now) {
            Some(p) => abs_int(p.predicted_price - items[n - 1].unit_price) * items[n
                - 1].quantity,
            None => 0,
        })
    }
}

/// Pointwise-priced items have the same cost-magnitude sums as their raw
/// counterparts.
proof fn lemma_cost_abs_bridge(raws: Seq<RawLineItem>, items: Seq<LineItem>, n: int)
    requires
        raws.len() == items.len(),
        forall|i: int| 0 <= i < raws.len() ==> spec_line_priced(raws[i], #[trigger] items[i]),
        0 <= n <= raws.len(),
    ensures
        spec_total_cost_abs(items, n) == spec_raw_cost_abs(raws, n),
    decreases n,
{
    if n > 0 {
        lemma_cost_abs_bridge(raws, items, n - 1);
        assert(spec_line_priced(raws[n - 1], items[n - 1]));
        assert(spec_cost_term(items[n - 1]) == (match raws[n - 1].unit_cost {
            Some(c) => raws[n - 1].quantity * c,
            None => 0,
        }));
    }
}

/// Pointwise-priced items have the same packaging weight as their raw
/// counterparts.
proof fn lemma_weight_bridge(raws: Seq<RawLineItem>, items: Seq<LineItem>, n: int)
    requires
        raws.len() == items.len(),
        forall|i: int| 0 <= i < raws.len() ==> spec_line_priced(raws[i], #[trigger] items[i]),
        0 <= n <= raws.len(),
    ensures
        crate::documents::spec_total_weight_grams(items, n) == spec_raw_weight_grams(raws, n),
    decreases n,
{
    if n > 0 {
        lemma_weight_bridge(raws, items, n - 1);
        assert(spec_line_priced(raws[n - 1], items[n - 1]));
    }
}

/// Pointwise-priced items have the same predicted-profit magnitude sums
/// as their raw counterparts.
proof fn lemma_pp_abs_bridge(
    raws: Seq<RawLineItem>,
    items: Seq<LineItem>,
    recs: Seq<Option<MarketRecord>>,
    now: int,
    n: int,
)
    requires
        raws.len() == items.len(),
        forall|i: int| 0 <= i < raws.len() ==> spec_line_priced(raws[i], #[trigger] items[i]),
        0 <= n <= raws.len(),
    ensures
        spec_predicted_profit_abs(items, recs, now, n) == spec_raw_pp_abs(raws, recs, now, n),
    decreases n,
{
    if n > 0 {
        lemma_pp_abs_bridge(raws, items, recs, now, n - 1);
        assert(spec_line_priced(raws[n - 1], items[n - 1]));
    }
}

/// The status every order starts its lifecycle in.
pub fn initial_status_tracking(now_millis: i64) -> (t: StatusTracking)
    ensures
        t.wf(),
        t.current_status@ == "created"@,
        t.history@.len() == 1,
        t.history@[0].status@ == "created"@,
        t.history@[0].timestamp_millis == now_millis,
        t.history@[0].note@ == "Order created"@,
{
    let status: String = String::from_str("created");
    let entry_status: String = String::from_str("created");
    let note: String = String::from_str("Order created");
    let mut history: Vec<StatusEntry> = Vec::new();
    history.push(StatusEntry { status: entry_status, timestamp_millis: now_millis, note });
    StatusTracking { current_status: status, history }
}

/// The end-to-end order creation decision: validates the payload,
/// derives totals, attaches the analysis built from the given
/// market-intelligence records, assigns the next order number, and
/// returns the record the host must persist. Fails fast with the exact
/// validation verdict — on an error no order exists, so the host has
/// nothing to store; in particular an empty product list yields the
/// empty-products validation error and no record.
pub fn create_order(
    raw: RawOrder,
    records: &Vec<Option<MarketRecord>>,
    now_millis: i64,
    latest_order_number: Option<&str>,
    year: i32,
) -> (r: Result<Order, ValidationError>)
    requires
        raw.products matches Some(ps) ==> records@.len() == ps@.len(),
        spec_validate_order(raw) is Ok ==> {
            &&& spec_raw_total_value(raw.products->0@) <= u64::MAX
            &&& spec_recommended_insurance(spec_raw_total_value(raw.products->0@)) <= u64::MAX
            &&& spec_raw_cost_abs(raw.products->0@, raw.products->0@.len() as int) <= i64::MAX
            &&& spec_raw_pp_abs(
                raw.products->0@,
                records@,
                now_millis as int,
                raw.products->0@.len() as int,
            ) <= i64::MAX
            &&& spec_raw_weight_grams(raw.products->0@, raw.products->0@.len() as int)
                <= u64::MAX
        },
    ensures
        r is Err <==> spec_validate_order(raw) is Err,
        r matches Err(e) ==> spec_validate_order(raw) == Err::<(), ValidationError>(e),
        raw.products matches Some(ps) && ps@.len() == 0 ==> r is Err,
        (raw.client is Some && (raw.products matches Some(ps) && ps@.len() == 0)) ==> r == Err::<
            Order,
            ValidationError,
        >(ValidationError::EmptyProducts),
        r matches Ok(order) ==> {
            &&& order.wf()
            &&& crate::documents::spec_total_weight_grams(
                order.products@,
                order.products@.len() as int,
            ) <= u64::MAX
            &&& order.order_number@ == spec_next_order_number(
                spec_opt_chars(latest_order_number),
                year as int,
            )
            &&& order.created_at_millis == now_millis
            &&& order.client == raw.client->0
            &&& order.products@.len() == raw.products->0@.len()
            &&& forall|i: int|
                0 <= i < order.products@.len() ==> spec_line_priced(
                    raw.products->0@[i],
                    #[trigger] order.products@[i],
                )
            &&& order.details.total_value == spec_raw_total_value(raw.products->0@)
            &&& order.details.currency@ == "INR"@
            &&& order.details.payment_terms == raw.payment_terms
            &&& order.details.delivery_terms == raw.delivery_terms
            &&& order.tracking.current_status@ == "created"@
            &&& order.tracking.history@.len() == 1
            &&& order.tracking.history@[0].status@ == "created"@
            &&& order.tracking.history@[0].timestamp_millis == now_millis
            &&& order.tracking.history@[0].note@ == "Order created"@
            &&& order.analysis matches Some(a) && {
                &&& a.predicted_total_profit == spec_predicted_profit(
                    order.products@,
                    records@,
                    now_millis as int,
                    order.products@.len() as int,
                )
                &&& a.profit_margin_bp == spec_profit_margin_bp(
                    order.details.total_value as int,
                    spec_total_cost(order.products@, order.products@.len() as int),
                )
                &&& a.risk_milli == spec_risk_milli(records@, now_millis as int)
                &&& 0 <= a.risk_milli <= 1000
                &&& a.confidence_milli == spec_confidence_milli(records@, now_millis as int)
                &&& a.optimal_shipping_method == spec_optimal_shipping(
                    order.details.total_value as int,
                )
                &&& a.recommended_insurance == spec_recommended_insurance(
                    order.details.total_value as int,
                )
            }
        },
{
    match validate_order_data(&raw) {
        Err(e) => Err(e),
        Ok(()) => {
            let ghost raw_items = raw.products->0@;
            let priced = calculate_order_totals(raw);
            proof {
                lemma_cost_abs_bridge(raw_items, priced.products@, raw_items.len() as int);
                lemma_pp_abs_bridge(
                    raw_items,
                    priced.products@,
                    records@,
                    now_millis as int,
                    raw_items.len() as int,
                );
                lemma_weight_bridge(raw_items, priced.products@, raw_items.len() as int);
            }
            let analysis = analyze_order_profit(&priced, records, now_millis);
            let order_number = next_order_number(latest_order_number, year);
            let tracking = initial_status_tracking(now_millis);
            let order = Order {
                order_number,
                created_at_millis: now_millis,
                client: priced.client,
                products: priced.products,
                details: priced.details,
                tracking,
                analysis: Some(analysis),
            };
            Ok(order)
        },
    }
}

/// Exec check of the machine limits that `create_order` assumes: the
/// order total and its insurance buffer fit the order record, and the
/// cost and prediction magnitudes fit the analysis accumulators. An
/// unverified host tests this before calling the pipeline.
pub fn order_within_limits(
    raw: &RawOrder,
    records: &Vec<Option<MarketRecord>>,
    now_millis: i64,
) -> (ok: bool)
    requires
        raw.products matches Some(ps) ==> records@.len() == ps@.len(),
        spec_validate_order(*raw) is Ok,
    ensures
        ok == {
            &&& spec_raw_total_value(raw.products->0@) <= u64::MAX
            &&& spec_recommended_insurance(spec_raw_total_value(raw.products->0@)) <= u64::MAX
            &&& spec_raw_cost_abs(raw.products->0@, raw.products->0@.len() as int) <= i64::MAX
            &&& spec_raw_pp_abs(
                raw.products->0@,
                records@,
                now_millis as int,
                raw.products->0@.len() as int,
            ) <= i64::MAX
            &&& spec_raw_weight_grams(raw.products->0@, raw.products->0@.len() as int)
                <= u64::MAX
        },
{
    let products = match &raw.products {
        Some(products) => products,
        None => unreached(),
    };
    let ghost items = products@;
    let ghost recs = records@;
    let ghost now = now_millis as int;
    proof {
        crate::validate::lemma_validate_items_ok(items);
        assert(spec_items_valid(items));
    }

    // Total value: non-negative terms, so an overflowing prefix decides.
    let mut total: u128 = 0;
    let mut i: usize = 0;
    proof {
        assert(items.take(0) =~= Seq::<RawLineItem>::empty());
    }
    while i < products.len()
        invariant
            0 <= i <= items.len(),
            items == products@,
            raw.products matches Some(ps) && ps@ == items,
            spec_items_valid(items),
            total == spec_raw_total_value(items.take(i as int)),
            total <= u64::MAX,
        decreases items.len() - i,
    {
        let item = &products[i];
        proof {
            assert(items.take(i as int + 1).drop_last() =~= items.take(i as int));
            assert(items.take(i as int + 1).last() == items[i as int]);
            assert(crate::validate::spec_item_valid(items[i as int]));
            assert(items[i as int].quantity * items[i as int].unit_price
                <= 0x7fffffffffffffff * 0x7fffffffffffffff) by (nonlinear_arith)
                requires
                    0 <= items[i as int].quantity <= 0x7fffffffffffffff,
                    0 <= items[i as int].unit_price <= 0x7fffffffffffffff,
            ;
            assert(items[i as int].quantity * items[i as int].unit_price >= 0)
                by (nonlinear_arith)
                requires
                    items[i as int].quantity >= 0,
                    items[i as int].unit_price >= 0,
            ;
        }
        let term: u128 = (item.quantity as u128) * (item.unit_price as u128);
        assert(term == items[i as int].quantity * items[i as int].unit_price);
        let sum: u128 = total + term;
        assert(sum == spec_raw_total_value(items.take(i as int + 1)));
        if sum > u64::MAX as u128 {
            proof {
                lemma_raw_total_prefix_exceeds(items, i as int + 1);
            }
            return false;
        }
        total = sum;
        i = i + 1;
    }
    proof {
        assert(items.take(items.len() as int) =~= items);
    }
    let total_value: u64 = total as u64;
    if ((total_value as u128) * 110) / 100 > u64::MAX as u128 {
        return false;
    }

    // Cost magnitudes.
    let mut cost_abs: u128 = 0;
    let mut j: usize = 0;
    while j < products.len()
        invariant
            0 <= j <= items.len(),
            items == products@,
            raw.products matches Some(ps) && ps@ == items,
            spec_items_valid(items),
            cost_abs == spec_raw_cost_abs(items, j as int),
            cost_abs <= i64::MAX,
        decreases items.len() - j,
    {
        let item = &products[j];
        let term: u128 = match item.unit_cost {
            Some(c) => {
                let magnitude: u64 = if c < 0 {
                    ((-(c as i128)) as u64)
                } else {
                    c as u64
                };
                proof {
                    assert(items[j as int].quantity * magnitude <= 0x7fffffffffffffff
                        * 0xffffffffffffffff) by (nonlinear_arith)
                        requires
                            0 <= items[j as int].quantity <= 0x7fffffffffffffff,
                            0 <= magnitude <= 0xffffffffffffffff,
                    ;
                    assert(abs_int(
                        match items[j as int].unit_cost {
                            Some(c0) => items[j as int].quantity * c0,
                            None => 0,
                        },
                    ) == items[j as int].quantity * magnitude) by (nonlinear_arith)
                        requires
                            items[j as int].quantity >= 0,
                            items[j as int].unit_cost == Some(c),
                            magnitude == abs_int(c as int),
                    ;
                }
                (item.quantity as u128) * (magnitude as u128)
            },
            None => 0,
        };
        assert(term == abs_int(
            match items[j as int].unit_cost {
                Some(c0) => items[j as int].quantity * c0,
                None => 0,
            },
        ));
        let sum: u128 = cost_abs + term;
        assert(sum == spec_raw_cost_abs(items, j as int + 1));
        if sum > i64::MAX as u128 {
            proof {
                lemma_raw_cost_abs_monotone(items, j as int + 1, items.len() as int);
            }
            return false;
        }
        cost_abs = sum;
        j = j + 1;
    }

    // Prediction magnitudes.
    let mut pp_abs: u128 = 0;
    let mut k: usize = 0;
    while k < products.len()
        invariant
            0 <= k <= items.len(),
            items == products@,
            raw.products matches Some(ps) && ps@ == items,
            recs == records@,
            now == now_millis as int,
            recs.len() == items.len(),
            spec_items_valid(items),
            pp_abs == spec_raw_pp_abs(items, recs, now, k as int),
            pp_abs <= i64::MAX,
        decreases items.len() - k,
    {
        let item = &products[k];
        let mut term: u128 = 0;
        match &records[k] {
            Some(record) => {
                proof {
                    assert(recs[k as int] == Some(*record));
                }
                let fresh = crate::analysis::is_fresh(
                    record.timestamp_millis,
                    now_millis,
                    crate::analysis::PREDICTION_WINDOW_MILLIS,
                );
                if fresh {
                    match &record.prediction {
                        Some(p) => {
                            proof {
                                assert(spec_fresh_prediction(recs[k as int], now) == Some(*p));
                            }
                            let diff: i128 = (p.predicted_price as i128) - (item.unit_price
                                as i128);
                            let magnitude: u128 = if diff < 0 {
                                (-diff) as u128
                            } else {
                                diff as u128
                            };
                            proof {
                                assert(magnitude * items[k as int].quantity
                                    <= 36893488147419103232 * 0x7fffffffffffffff)
                                    by (nonlinear_arith)
                                    requires
                                        0 <= magnitude <= 36893488147419103232,
                                        0 <= items[k as int].quantity <= 0x7fffffffffffffff,
                                ;
                            }
                            term = magnitude * (item.quantity as u128);
                            proof {
                                assert(term == abs_int(
                                    p.predicted_price - items[k as int].unit_price,
                                ) * items[k as int].quantity);
                            }
                        },
                        None => {
                            proof {
                                assert(spec_fresh_prediction(recs[k as int], now) is None);
                            }
                        },
                    }
                } else {
                    proof {
                        assert(spec_fresh_prediction(recs[k as int], now) is None);
                    }
                }
            },
            None => {},
        }
        let sum: u128 = pp_abs + term;
        assert(sum == spec_raw_pp_abs(items, recs, now, k as int + 1));
        if sum > i64::MAX as u128 {
            proof {
                lemma_raw_pp_abs_monotone(items, recs, now, k as int + 1, items.len() as int);
            }
            return false;
        }
        pp_abs = sum;
        k = k + 1;
    }

    // Packaging weight.
    let mut weight: u128 = 0;
    let mut w: usize = 0;
    while w < products.len()
        invariant
            0 <= w <= items.len(),
            items == products@,
            raw.products matches Some(ps) && ps@ == items,
            spec_items_valid(items),
            weight == spec_raw_weight_grams(items, w as int),
            weight <= u64::MAX,
        decreases items.len() - w,
    {
        let item = &products[w];
        proof {
            assert(crate::validate::spec_item_valid(items[w as int]));
        }
        let term: u128 = (item.quantity as u128) * (crate::documents::UNIT_WEIGHT_GRAMS as u128);
        assert(term == items[w as int].quantity * crate::documents::UNIT_WEIGHT_GRAMS);
        let sum: u128 = weight + term;
        assert(sum == spec_raw_weight_grams(items, w as int + 1));
        if sum > u64::MAX as u128 {
            proof {
                lemma_raw_weight_monotone(items, w as int + 1, items.len() as int);
            }
            return false;
        }
        weight = sum;
        w = w + 1;
    }
    true
}

/// The raw weight sum grows with its length, for non-negative
/// quantities.
proof fn lemma_raw_weight_monotone(items: Seq<RawLineItem>, n: int, m: int)
    requires
        0 <= n <= m <= items.len(),
        forall|i: int| 0 <= i < items.len() ==> (#[trigger] items[i]).quantity >= 0,
    ensures
        spec_raw_weight_grams(items, m) >= spec_raw_weight_grams(items, n),
    decreases m - n,
{
    if n < m {
        lemma_raw_weight_monotone(items, n + 1, m);
        assert(items[n].quantity * crate::documents::UNIT_WEIGHT_GRAMS >= 0) by (nonlinear_arith)
            requires
                items[n].quantity >= 0,
        ;
    }
}

/// When a prefix of the total already exceeds the 64-bit bound, so does
/// the whole total.
proof fn lemma_raw_total_prefix_exceeds(items: Seq<RawLineItem>, n: int)
    requires
        0 <= n <= items.len(),
        spec_items_valid(items),
    ensures
        spec_raw_total_value(items) >= spec_raw_total_value(items.take(n)),
{
    assert(forall|i: int|
        0 <= i < items.len() ==> (#[trigger] items[i]).quantity >= 0 && items[i].unit_price >= 0)
        by {
        assert(forall|i: int|
            0 <= i < items.len() ==> crate::validate::spec_item_valid(#[trigger] items[i]));
    }
    lemma_raw_total_value_prefix_bound(items, n);
}

/// The raw cost-magnitude sum grows with its length.
proof fn lemma_raw_cost_abs_monotone(items: Seq<RawLineItem>, n: int, m: int)
    requires
        0 <= n <= m,
    ensures
        spec_raw_cost_abs(items, m) >= spec_raw_cost_abs(items, n),
    decreases m - n,
{
    if n < m {
        lemma_raw_cost_abs_monotone(items, n + 1, m);
    }
}

/// The raw prediction-magnitude sum grows with its length.
proof fn lemma_raw_pp_abs_monotone(
    items: Seq<RawLineItem>,
    recs: Seq<Option<MarketRecord>>,
    now: int,
    n: int,
    m: int,
)
    requires
        0 <= n <= m <= items.len(),
        forall|i: int| 0 <= i < items.len() ==> (#[trigger] items[i]).quantity >= 0,
    ensures
        spec_raw_pp_abs(items, recs, now, m) >= spec_raw_pp_abs(items, recs, now, n),
    decreases m - n,
{
    if n < m {
        lemma_raw_pp_abs_monotone(items, recs, now, n + 1, m);
        match spec_fresh_prediction(recs[n], now) {
            Some(p) => {
                assert(abs_int(p.predicted_price - items[n].unit_price) * items[n].quantity
                    >= 0) by (nonlinear_arith)
                    requires
                        abs_int(p.predicted_price - items[n].unit_price) >= 0,
                        items[n].quantity >= 0,
                ;
            },
            None => {},
        }
    }
}

} // verus!
