//! Error taxonomy of the pipeline.
//!
//! Validation failures abort order creation before anything is persisted;
//! the remaining kinds carry stage context for failures that the host
//! reports around the verified core.

use vstd::prelude::*;
use crate::text::concat_str;

verus! {

/// Why an incoming order payload was rejected by the validation gate.
#[derive(Clone, Copy, Debug, PartialEq, Eq, Structural)]
pub enum ValidationError {
    /// Client information is absent.
    MissingClient,
    /// The payload carries no product list at all.
    MissingProducts,
    /// The product list is present but empty.
    EmptyProducts,
    /// A line item's quantity is not strictly positive.
    NonPositiveQuantity,
    /// A line item's unit price is negative.
    NegativeUnitPrice,
}

impl ValidationError {
    /// The user-facing message of each rejection.
    pub open spec fn message_text(&self) -> Seq<char> {
        match self {
            ValidationError::MissingClient => "Client information is required"@,
            ValidationError::MissingProducts => "Products are required"@,
            ValidationError::EmptyProducts => "At least one product is required"@,
            ValidationError::NonPositiveQuantity => "Each product needs a positive quantity"@,
            ValidationError::NegativeUnitPrice => "Each product needs a non-negative unit price"@,
        }
    }

    /// The user-facing message for this rejection.
    pub fn message(&self) -> (r: &'static str)
        ensures
            r@ == self.message_text(),
    {
        match self {
            ValidationError::MissingClient => "Client information is required",
            ValidationError::MissingProducts => "Products are required",
            ValidationError::EmptyProducts => "At least one product is required",
            ValidationError::NonPositiveQuantity => "Each product needs a positive quantity",
            ValidationError::NegativeUnitPrice => "Each product needs a non-negative unit price",
        }
    }
}

/// Reserved for a future closed transition policy; no transition is
/// currently rejected.
#[derive(Clone, Copy, Debug, PartialEq, Eq, Structural)]
pub enum LifecycleError {
    TransitionRejected,
}

/// A failure of one pipeline stage, with enough context to identify the
/// stage. Validation aborts creation before persistence; the other kinds
/// arise at the host's I/O boundaries and are reported upward without
/// retracting an already-persisted order.
#[derive(Clone, Debug)]
pub enum StageError {
    /// The payload failed the validation gate; user-correctable.
    Validation(ValidationError),
    /// The record store failed; retryable by the caller.
    Store(String),
    /// A market-intelligence read failed — distinct from "no fresh
    /// data", which is not an error.
    AnalysisData(String),
    /// Document assembly or rendering failed for one document kind; it
    /// does not abort documents already produced.
    Render(String),
    /// A status transition was rejected; unused under the open policy.
    Lifecycle(LifecycleError),
}

impl StageError {
    /// The stage-tagged message the host surfaces.
    pub fn message(&self) -> (r: String)
        ensures
            self matches StageError::Validation(e) ==> r@ == "validation error: "@
                + e.message_text(),
            self matches StageError::Store(m) ==> r@ == "store error: "@ + m@,
            self matches StageError::AnalysisData(m) ==> r@ == "analysis data error: "@ + m@,
            self matches StageError::Render(m) ==> r@ == "render error: "@ + m@,
            self matches StageError::Lifecycle(_) ==> r@ == "lifecycle error: "@
                + "transition rejected"@,
    {
        match self {
            StageError::Validation(e) => concat_str("validation error: ", e.message()),
            StageError::Store(m) => concat_str("store error: ", m.as_str()),
            StageError::AnalysisData(m) => concat_str("analysis data error: ", m.as_str()),
            StageError::Render(m) => concat_str("render error: ", m.as_str()),
            StageError::Lifecycle(_) => concat_str("lifecycle error: ", "transition rejected"),
        }
    }
}

} // verus!
