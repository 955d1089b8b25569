//! The controller against the real registrar. Only the in-memory preference
//! is asserted on: it is authoritative for the UI whatever the registrar
//! calls manage to do on this machine, so these tests are deterministic.

use hello_rhino::controller::Controller;
use hello_rhino::controller::Intent;
use hello_rhino::controller::StartupPolicy;
use hello_rhino::controller::UpdateOutcome;
use hello_rhino::registrar::AppIdentity;
use hello_rhino::registrar::Registrar;

fn throwaway_controller() -> Controller {
    let id = AppIdentity::minimized(
        String::from("hello-rhino-selftest"),
        String::from("/usr/bin/hello-rhino"),
    );
    let registrar = Registrar::new(id).expect("a well-formed identity is accepted");
    // The unattended policy deregisters best-effort and starts with the
    // toggle off, leaving nothing behind on the machine.
    Controller::startup(registrar, StartupPolicy::Unattended)
}

#[test]
fn unattended_startup_shows_false() {
    let controller = throwaway_controller();
    assert_eq!(controller.launch_on_start(), false);
}

#[test]
fn toggle_reflects_intent_immediately() {
    let mut controller = throwaway_controller();
    let _ = controller.toggle_launch(true);
    assert_eq!(controller.launch_on_start(), true);
    // Toggling to the same value again changes nothing observable.
    let _ = controller.toggle_launch(true);
    assert_eq!(controller.launch_on_start(), true);
    // The round trip ends with the toggle off; deregister on the way out.
    let _ = controller.toggle_launch(false);
    assert_eq!(controller.launch_on_start(), false);
}

#[test]
fn toggle_intent_reports_a_toggled_outcome() {
    let mut controller = throwaway_controller();
    let outcome = controller.update(Intent::ToggleLaunch(false));
    assert!(matches!(outcome, UpdateOutcome::Toggled(_)));
    assert_eq!(controller.launch_on_start(), false);
}

#[test]
fn open_link_is_forwarded_verbatim() {
    let mut controller = throwaway_controller();
    let before = controller.launch_on_start();
    let outcome = controller.update(Intent::OpenLink(String::from(
        "https://wiki.rhinolinux.org/",
    )));
    match outcome {
        UpdateOutcome::OpenUrl(url) => assert_eq!(url, "https://wiki.rhinolinux.org/"),
        UpdateOutcome::Toggled(_) => panic!("a link click must not touch the registrar"),
    }
    assert_eq!(controller.launch_on_start(), before);
}
