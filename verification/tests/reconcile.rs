//! The preference state machine on concrete values: the startup decision and
//! the toggle transition, including idempotence, the on/off round trip, and
//! isolation of actuation failures.

use hello_rhino::reconcile::apply_toggle;
use hello_rhino::reconcile::initial_preference;
use hello_rhino::reconcile::needs_enable_fallback;
use hello_rhino::reconcile::ReconcileState;
use hello_rhino::registrar::RegistrarError;

#[test]
fn startup_query_enabled_yields_true() {
    // The registrar reports the entry present: the initial preference is
    // true, whatever a fallback attempt would have done.
    assert_eq!(initial_preference(&Ok(true), false), true);
    assert_eq!(initial_preference(&Ok(true), true), true);
    assert_eq!(needs_enable_fallback(&Ok(true)), false);
}

#[test]
fn startup_query_failure_falls_back_to_enable() {
    // The query fails, the enable attempt succeeds: the initial preference
    // is true.
    let query: Result<bool, RegistrarError> = Err(RegistrarError::PermissionDenied);
    assert_eq!(needs_enable_fallback(&query), true);
    assert_eq!(initial_preference(&query, true), true);
}

#[test]
fn startup_query_and_enable_both_fail() {
    let query: Result<bool, RegistrarError> = Err(RegistrarError::EnvironmentUnsupported);
    assert_eq!(initial_preference(&query, false), false);
}

#[test]
fn fresh_install_enables_and_starts_true() {
    // Fresh install: the entry is absent, the controller attempts enable,
    // it succeeds, and the initial toggle state renders as true.
    let query: Result<bool, RegistrarError> = Ok(false);
    assert_eq!(needs_enable_fallback(&query), true);
    assert_eq!(initial_preference(&query, true), true);
    // Had the attempt failed, the toggle would have shown false.
    assert_eq!(initial_preference(&query, false), false);
}

#[test]
fn toggle_twice_is_idempotent() {
    let start = ReconcileState { preference: false, registered: false };
    let once = apply_toggle(start, true, true);
    let twice = apply_toggle(once, true, true);
    assert_eq!(once, ReconcileState { preference: true, registered: true });
    assert_eq!(twice, once);
}

#[test]
fn toggle_round_trip_disables() {
    // ToggleLaunch(true) then ToggleLaunch(false) lands in the fully
    // disabled state, from every initial state.
    for preference in [false, true] {
        for registered in [false, true] {
            let start = ReconcileState { preference, registered };
            let on = apply_toggle(start, true, true);
            let off = apply_toggle(on, false, true);
            assert_eq!(off, ReconcileState { preference: false, registered: false });
        }
    }
}

#[test]
fn failed_disable_keeps_preference_false() {
    // The disable call fails: the preference still reads false and the OS
    // registration is untouched.
    let start = ReconcileState { preference: true, registered: true };
    let after = apply_toggle(start, false, false);
    assert_eq!(after.preference, false);
    assert_eq!(after.registered, true);
}

#[test]
fn failed_enable_keeps_preference_true() {
    let start = ReconcileState { preference: false, registered: false };
    let after = apply_toggle(start, true, false);
    assert_eq!(after.preference, true);
    assert_eq!(after.registered, false);
}
