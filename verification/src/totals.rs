//! The totals calculator: derives per-line totals and the order-level
//! aggregate from a validated payload.
//!
//! Per-line totals are always overwritten from quantity and unit price;
//! the order total is their exact sum, expressed in the fixed reporting
//! currency.

use vstd::prelude::*;
use crate::order::{
    ClientInfo, LineItem, OrderDetails, RawLineItem, RawOrder, spec_items_total_value,
    spec_raw_total_value, lemma_raw_total_value_prefix_bound, lemma_raw_total_value_nonneg,
};
use crate::validate::{spec_item_valid, spec_items_valid};

verus! {

/// An order that has passed validation and carries its derived totals,
/// but no analysis, order number or status yet.
#[derive(Clone, Debug)]
pub struct PricedOrder {
    pub client: ClientInfo,
    pub products: Vec<LineItem>,
    pub details: OrderDetails,
}

/// A validated line item and its priced counterpart agree on every field,
/// and the derived total is exact.
pub open spec fn spec_line_priced(raw: RawLineItem, line: LineItem) -> bool {
    &&& line.product_id@ == raw.product_id@
    &&& line.name@ == raw.name@
    &&& line.quantity == raw.quantity
    &&& line.unit_price == raw.unit_price
    &&& line.unit_cost == raw.unit_cost
    &&& line.total == raw.quantity * raw.unit_price
}

impl PricedOrder {
    /// Totals are derived, never hand-edited: each line's total is
    /// `quantity * unit_price` and the order total is their exact sum.
    pub open spec fn wf(self) -> bool {
        &&& self.products@.len() > 0
        &&& forall|i: int|
            0 <= i < self.products@.len() ==> (#[trigger] self.products@[i]).total
                == self.products@[i].quantity * self.products@[i].unit_price
        &&& self.details.total_value == spec_items_total_value(self.products@)
    }
}

/// Derives per-line totals and the order aggregate from a validated
/// payload. Deterministic and free of side effects: the result carries
/// the client and terms through, each line total equals
/// `quantity * unit_price`, and `total_value` is the exact sum of the
/// line totals.
pub fn calculate_order_totals(order: RawOrder) -> (r: PricedOrder)
    requires
        order.client is Some,
        order.products is Some,
        order.products->0@.len() > 0,
        spec_items_valid(order.products->0@),
        spec_raw_total_value(order.products->0@) <= u64::MAX,
    ensures
        r.wf(),
        r.client == order.client->0,
        r.products@.len() == order.products->0@.len(),
        forall|i: int|
            0 <= i < r.products@.len() ==> spec_line_priced(
                order.products->0@[i],
                #[trigger] r.products@[i],
            ),
        r.details.total_value == spec_raw_total_value(order.products->0@),
        r.details.currency@ == "INR"@,
        r.details.payment_terms == order.payment_terms,
        r.details.delivery_terms == order.delivery_terms,
{
    let RawOrder { client, products: raw_products, payment_terms, delivery_terms } = order;
    let raw_products = match raw_products {
        Some(products) => products,
        None => unreached(),
    };
    let client = match client {
        Some(client) => client,
        None => unreached(),
    };
    let ghost items = raw_products@;
    let mut products: Vec<LineItem> = Vec::new();
    let mut total_value: u64 = 0;
    proof {
        assert(items.take(0) =~= Seq::<RawLineItem>::empty());
    }
    let mut i: usize = 0;
    while i < raw_products.len()
        invariant
            0 <= i <= items.len(),
            items == raw_products@,
            spec_items_valid(items),
            spec_raw_total_value(items) <= u64::MAX,
            products@.len() == i as int,
            forall|j: int|
                0 <= j < i as int ==> spec_line_priced(items[j], #[trigger] products@[j]),
            total_value == spec_raw_total_value(items.take(i as int)),
            total_value == spec_items_total_value(products@),
        decreases items.len() - i,
    {
        let item = &raw_products[i];
        proof {
            lemma_raw_total_value_prefix_bound(items, i as int + 1);
            lemma_raw_total_value_nonneg(items.take(i as int));
            assert(items.take(i as int + 1).drop_last() =~= items.take(i as int));
            assert(items.take(i as int + 1).last() == items[i as int]);
            assert(spec_raw_total_value(items.take(i as int + 1)) == spec_raw_total_value(
                items.take(i as int),
            ) + items[i as int].quantity * items[i as int].unit_price);
            assert(spec_item_valid(items[i as int]));
            assert(items[i as int].quantity * items[i as int].unit_price >= 0)
                by (nonlinear_arith)
                requires
                    items[i as int].quantity > 0,
                    items[i as int].unit_price >= 0,
            ;
        }
        let quantity: u64 = item.quantity as u64;
        let unit_price: u64 = item.unit_price as u64;
        let total_wide: u128 = (quantity as u128) * (unit_price as u128);
        assert(total_wide == items[i as int].quantity * items[i as int].unit_price);
        assert(total_wide <= u64::MAX);
        let total: u64 = total_wide as u64;
        let line = LineItem {
            product_id: item.product_id.clone(),
            name: item.name.clone(),
            quantity,
            unit_price,
            unit_cost: item.unit_cost,
            total,
        };
        proof {
            assert(products@.push(line).drop_last() =~= products@);
        }
        products.push(line);
        total_value = total_value + total;
        i = i + 1;
    }
    proof {
        assert(items.take(items.len() as int) =~= items);
    }
    let details = OrderDetails {
        total_value,
        currency: reporting_currency(),
        payment_terms,
        delivery_terms,
    };
    PricedOrder { client, products, details }
}

/// The fixed reporting currency of all order totals.
pub fn reporting_currency() -> (r: String)
    ensures
        r@ == "INR"@,
{
    let r: String = "INR".to_owned();
    r
}

} // verus!
