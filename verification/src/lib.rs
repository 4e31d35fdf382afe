//! Verified core of an export-order processing pipeline.
//!
//! The library covers the order lifecycle from raw intake to the set of
//! compliance documents an order requires: structural validation, totals
//! calculation, profit and risk analysis over market-intelligence signals,
//! order-number generation, the status state machine, and document policy.
//! Durable storage, rendering and the desktop shell are collaborators that
//! live outside the library; the pipeline hands them plain values and plans.

use vstd::prelude::*;

pub mod analysis;
pub mod clock;
pub mod documents;
pub mod errors;
pub mod lifecycle;
pub mod order;
pub mod order_number;
pub mod pipeline;
pub mod text;
pub mod totals;
pub mod validate;

verus! {

} // verus!
