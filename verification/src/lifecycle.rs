//! The order lifecycle manager: the status state machine and the side
//! effects that specific target states trigger.
//!
//! Any status string is accepted — a deliberately open policy — and every
//! transition appends to the history and moves the current status. Only
//! two target states carry side effects: entering `documentation`
//! triggers the full document package, entering `completed` triggers an
//! inventory notification.

use vstd::prelude::*;
use crate::errors::LifecycleError;
use crate::order::{Order, StatusEntry, StatusTracking};
use crate::text::{clone_str, concat_str, str_eq};

verus! {

/// A side effect that a status transition obliges the host to run after
/// the transition is persisted.
#[derive(Clone, Copy, Debug, PartialEq, Eq, Structural)]
pub enum StatusEffect {
    /// Generate the full document package for the order.
    GenerateDocumentationPackage,
    /// Notify the website collaborator of an inventory change.
    UpdateWebsiteInventory,
}

/// The target state that triggers document-package generation.
pub open spec fn spec_is_documentation(status: Seq<char>) -> bool {
    status == "documentation"@
}

/// The target state that triggers the inventory notification.
pub open spec fn spec_is_completed(status: Seq<char>) -> bool {
    status == "completed"@
}

/// The side effects of entering a status: exactly one document-package
/// generation for `documentation`, exactly one inventory notification for
/// `completed`, and none for any other status.
pub open spec fn spec_status_effects(status: Seq<char>) -> Seq<StatusEffect> {
    if spec_is_documentation(status) {
        seq![StatusEffect::GenerateDocumentationPackage]
    } else if spec_is_completed(status) {
        seq![StatusEffect::UpdateWebsiteInventory]
    } else {
        Seq::empty()
    }
}

/// Checks a proposed transition. The current policy is open: every
/// status string is accepted, so this always succeeds; the error type is
/// reserved for a future closed policy.
pub fn validate_status_transition(order_id: &str, status: &str) -> (r: Result<
    (),
    LifecycleError,
>)
    ensures
        r is Ok,
{
    let _ = order_id;
    let _ = status;
    Ok(())
}

/// The note recorded with a status transition.
pub fn status_note(status: &str) -> (r: String)
    ensures
        r@ == "Status updated to "@ + status@,
{
    concat_str("Status updated to ", status)
}

/// Appends one entry to the status history and moves the current status:
/// the history is append-only and the new current status equals the last
/// entry's status, so well-formedness is preserved.
pub fn apply_status_transition(
    tracking: &mut StatusTracking,
    status: String,
    timestamp_millis: i64,
    note: String,
)
    ensures
        final(tracking).current_status@ == status@,
        final(tracking).history@ == old(tracking).history@.push(
            (StatusEntry { status, timestamp_millis, note }),
        ),
        old(tracking).wf() ==> final(tracking).wf(),
        final(tracking).history@.len() == old(tracking).history@.len() + 1,
{
    let recorded: String = clone_str(&status);
    tracking.history.push(StatusEntry { status, timestamp_millis, note });
    tracking.current_status = recorded;
}

/// Computes the side effects of entering a status.
pub fn status_effects(status: &str) -> (effects: Vec<StatusEffect>)
    ensures
        effects@ == spec_status_effects(status@),
{
    if str_eq(status, "documentation") {
        let v: Vec<StatusEffect> = vec![StatusEffect::GenerateDocumentationPackage];
        proof {
            assert(v@ =~= spec_status_effects(status@));
        }
        v
    } else if str_eq(status, "completed") {
        let v: Vec<StatusEffect> = vec![StatusEffect::UpdateWebsiteInventory];
        proof {
            assert(v@ =~= spec_status_effects(status@));
        }
        v
    } else {
        let v: Vec<StatusEffect> = Vec::new();
        proof {
            assert(v@ =~= spec_status_effects(status@));
        }
        v
    }
}

/// One status transition on a whole order: validates (open policy),
/// appends to the history with the standard note, and reports which side
/// effects the host must now run — exactly one document-package
/// generation when entering `documentation`, exactly one inventory
/// notification when entering `completed`, neither otherwise.
pub fn update_order_status(order: &mut Order, status: String, timestamp_millis: i64) -> (effects:
    Vec<StatusEffect>)
    ensures
        effects@ == spec_status_effects(status@),
        final(order).tracking.current_status@ == status@,
        final(order).tracking.history@.len() == old(order).tracking.history@.len() + 1,
        final(order).tracking.history@.take(old(order).tracking.history@.len() as int) == old(
            order,
        ).tracking.history@,
        final(order).tracking.history@.last().status == status,
        final(order).tracking.history@.last().timestamp_millis == timestamp_millis,
        final(order).tracking.history@.last().note@ == "Status updated to "@ + status@,
        old(order).tracking.wf() ==> final(order).tracking.wf(),
        old(order).wf() ==> final(order).wf(),
        final(order).order_number == old(order).order_number,
        final(order).created_at_millis == old(order).created_at_millis,
        final(order).client == old(order).client,
        final(order).products == old(order).products,
        final(order).details == old(order).details,
        final(order).analysis == old(order).analysis,
{
    let note = status_note(status.as_str());
    let effects = status_effects(status.as_str());
    apply_status_transition(&mut order.tracking, status, timestamp_millis, note);
    proof {
        assert(order.tracking.history@.take(old(order).tracking.history@.len() as int) =~= old(
            order,
        ).tracking.history@);
    }
    effects
}

} // verus!
