//! The mathematical model of the preference state machine.
//!
//! The observable world of the controller has two booleans: the in-memory
//! preference shown to the user, and whether the OS currently holds an
//! autostart registration. A toggle sets the preference unconditionally
//! (the UI reflects intent) and actuates the registrar best-effort: the
//! registration follows the preference only when the OS call succeeds, and
//! each call is all-or-nothing, so a failed call leaves the registration
//! as it was.
//!
//! The laws proved here are what makes the optimistic-update design safe to
//! rely on: toggling is idempotent, a toggle on followed by a successful
//! toggle off lands in the fully disabled state from any start, and a failed
//! actuation never disturbs the preference the user chose.

use vstd::prelude::*;

use crate::registrar::RegistrarError;

verus! {

/// One point of the model: the user-visible preference and the OS-side
/// registration it is reconciled against.
#[derive(Clone, Copy, Debug, PartialEq, Eq, Structural)]
pub struct ReconcileState {
    /// The in-memory `launch_on_start` toggle, authoritative for the UI.
    pub preference: bool,
    /// Whether an autostart entry currently exists on the OS side.
    pub registered: bool,
}

/// One toggle transition. The preference follows the user's intent
/// unconditionally; the registration follows it only when the registrar
/// call succeeded (`actuation_ok`), and is untouched otherwise, because a
/// registrar call is all-or-nothing.
pub open spec fn spec_toggle(s: ReconcileState, desired: bool, actuation_ok: bool) -> ReconcileState {
    ReconcileState {
        preference: desired,
        registered: if actuation_ok {
            desired
        } else {
            s.registered
        },
    }
}

/// The initial preference decided at startup, reconciling toward an enabled
/// default: if the registrar reports the entry already present, the
/// preference starts `true` with nothing to do; otherwise — the entry is
/// absent, or the query itself failed — the controller falls back to
/// attempting `enable`, and the success of that attempt is the initial
/// preference.
pub open spec fn spec_initial_pref(
    query: Result<bool, RegistrarError>,
    fallback_enable_ok: bool,
) -> bool {
    match query {
        Result::Ok(enabled) => enabled || fallback_enable_ok,
        Result::Err(_) => fallback_enable_ok,
    }
}

/// Executable form of [`spec_toggle`], so a caller can step the model on
/// concrete values.
pub fn apply_toggle(s: ReconcileState, desired: bool, actuation_ok: bool) -> (r: ReconcileState)
    ensures
        r == spec_toggle(s, desired, actuation_ok),
{
    ReconcileState {
        preference: desired,
        registered: if actuation_ok {
            desired
        } else {
            s.registered
        },
    }
}

/// Executable form of [`spec_initial_pref`]: the startup decision as a pure
/// function of the query result and of the outcome the fallback `enable`
/// attempt would have.
pub fn initial_preference(query: &Result<bool, RegistrarError>, fallback_enable_ok: bool) -> (r: bool)
    ensures
        r == spec_initial_pref(*query, fallback_enable_ok),
{
    match query {
        Result::Ok(enabled) => *enabled || fallback_enable_ok,
        Result::Err(_) => fallback_enable_ok,
    }
}

/// Whether the startup reconciliation must fall back to an `enable` attempt:
/// exactly when the query did not report the entry as already present.
pub fn needs_enable_fallback(query: &Result<bool, RegistrarError>) -> (r: bool)
    ensures
        r == !(*query matches Ok(true)),
{
    match query {
        Result::Ok(enabled) => !*enabled,
        Result::Err(_) => true,
    }
}

/// Toggling to the same value twice is idempotent: the preference lands on
/// the desired value whatever the two actuation outcomes were, and as soon
/// as either actuation succeeded the whole state is exactly the state of a
/// single successful toggle.
pub proof fn lemma_toggle_idempotent(
    s: ReconcileState,
    desired: bool,
    first_ok: bool,
    second_ok: bool,
)
    ensures
        spec_toggle(spec_toggle(s, desired, first_ok), desired, second_ok).preference == desired,
        spec_toggle(spec_toggle(s, desired, true), desired, second_ok) == spec_toggle(
            s,
            desired,
            true,
        ),
        first_ok || second_ok ==> spec_toggle(spec_toggle(s, desired, first_ok), desired, second_ok)
            == spec_toggle(s, desired, true),
{
}

/// Round trip: toggling on and then off leaves the preference off, and —
/// provided the disabling call went through — the registration gone, from
/// every initial state and whatever the enabling call did.
pub proof fn lemma_toggle_round_trip(s: ReconcileState, enable_ok: bool)
    ensures
        spec_toggle(spec_toggle(s, true, enable_ok), false, true) == (ReconcileState {
            preference: false,
            registered: false,
        }),
        spec_toggle(spec_toggle(s, true, enable_ok), false, false).preference == false,
{
}

/// Failure isolation: when the actuation of a toggle fails, the preference
/// still reads as the user set it, and the OS registration is exactly what
/// it was before the attempt.
pub proof fn lemma_failure_isolation(s: ReconcileState, desired: bool)
    ensures
        spec_toggle(s, desired, false).preference == desired,
        spec_toggle(s, desired, false).registered == s.registered,
{
}

} // verus!
