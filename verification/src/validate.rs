//! The validation gate on incoming order payloads.
//!
//! Validation is a gate, not a transform: it either passes the payload
//! through untouched or rejects it with the first rule violation, in a
//! fixed order of checks.

use vstd::prelude::*;
use crate::errors::ValidationError;
use crate::order::{RawLineItem, RawOrder};

verus! {

/// A raw line item passes the business rules: strictly positive quantity
/// and a non-negative unit price.
pub open spec fn spec_item_valid(item: RawLineItem) -> bool {
    item.quantity > 0 && item.unit_price >= 0
}

/// Every line item of the sequence passes the business rules.
pub open spec fn spec_items_valid(items: Seq<RawLineItem>) -> bool {
    forall|i: int| 0 <= i < items.len() ==> spec_item_valid(#[trigger] items[i])
}

/// The first rule violation among the line items, scanning front to back:
/// quantity is checked before unit price on each item.
pub open spec fn spec_validate_items(items: Seq<RawLineItem>) -> Result<(), ValidationError>
    decreases items.len(),
{
    if items.len() == 0 {
        Ok(())
    } else if items[0].quantity <= 0 {
        Err(ValidationError::NonPositiveQuantity)
    } else if items[0].unit_price < 0 {
        Err(ValidationError::NegativeUnitPrice)
    } else {
        spec_validate_items(items.drop_first())
    }
}

/// The whole validation gate: client first, then presence of the product
/// list, then non-emptiness, then the per-item rules.
pub open spec fn spec_validate_order(order: RawOrder) -> Result<(), ValidationError> {
    if order.client is None {
        Err(ValidationError::MissingClient)
    } else if order.products is None {
        Err(ValidationError::MissingProducts)
    } else if order.products->0@.len() == 0 {
        Err(ValidationError::EmptyProducts)
    } else {
        spec_validate_items(order.products->0@)
    }
}

/// Scanning items succeeds exactly when every item passes the rules.
pub proof fn lemma_validate_items_ok(items: Seq<RawLineItem>)
    ensures
        spec_validate_items(items) is Ok <==> spec_items_valid(items),
    decreases items.len(),
{
    if items.len() > 0 {
        lemma_validate_items_ok(items.drop_first());
        if spec_item_valid(items[0]) && spec_items_valid(items.drop_first()) {
            assert forall|i: int| 0 <= i < items.len() implies spec_item_valid(
                #[trigger] items[i],
            ) by {
                if i > 0 {
                    assert(items[i] == items.drop_first()[i - 1]);
                }
            }
        }
    }
}

/// Checks a raw payload against the validation rules, returning the first
/// violation. Succeeds exactly when client information is present and the
/// product list is present, non-empty and rule-abiding; it never alters
/// the payload.
pub fn validate_order_data(order: &RawOrder) -> (r: Result<(), ValidationError>)
    ensures
        r == spec_validate_order(*order),
        r is Ok <==> {
            &&& order.client is Some
            &&& order.products is Some
            &&& order.products->0@.len() > 0
            &&& spec_items_valid(order.products->0@)
        },
{
    proof {
        if order.client is Some && order.products is Some && order.products->0@.len() > 0 {
            lemma_validate_items_ok(order.products->0@);
        }
    }
    if order.client.is_none() {
        return Err(ValidationError::MissingClient);
    }
    let products = match &order.products {
        Some(products) => products,
        None => {
            return Err(ValidationError::MissingProducts);
        },
    };
    if products.len() == 0 {
        return Err(ValidationError::EmptyProducts);
    }
    let ghost items = products@;
    proof {
        assert(items.skip(0) =~= items);
    }
    let mut i: usize = 0;
    while i < products.len()
        invariant
            0 <= i <= items.len(),
            items == products@,
            order.client is Some,
            order.products is Some,
            order.products->0@ == items,
            items.len() > 0,
            spec_items_valid(items.take(i as int)),
            spec_validate_items(items) == spec_validate_items(items.skip(i as int)),
        decreases items.len() - i,
    {
        let item = &products[i];
        proof {
            assert(items.skip(i as int)[0] == items[i as int]);
            assert(items.skip(i as int).drop_first() =~= items.skip(i as int + 1));
        }
        if item.quantity <= 0 {
            proof {
                assert(spec_validate_items(items.skip(i as int)) == Err::<
                    (),
                    ValidationError,
                >(ValidationError::NonPositiveQuantity));
            }
            return Err(ValidationError::NonPositiveQuantity);
        }
        if item.unit_price < 0 {
            proof {
                assert(spec_validate_items(items.skip(i as int)) == Err::<
                    (),
                    ValidationError,
                >(ValidationError::NegativeUnitPrice));
            }
            return Err(ValidationError::NegativeUnitPrice);
        }
        proof {
            assert forall|j: int| 0 <= j < i as int + 1 implies spec_item_valid(
                #[trigger] items.take(i as int + 1)[j],
            ) by {
                if j < i as int {
                    assert(items.take(i as int + 1)[j] == items.take(i as int)[j]);
                }
            }
        }
        i = i + 1;
    }
    proof {
        assert(items.take(items.len() as int) =~= items);
        assert(items.skip(items.len() as int) =~= Seq::<RawLineItem>::empty());
    }
    Ok(())
}

} // verus!
