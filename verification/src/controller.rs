//! The preference controller: the single owner of the user-visible
//! `launch_on_start` toggle.
//!
//! The controller initialises the preference once, at process start, by
//! reconciling a desired default against the registrar, and applies every
//! later `ToggleLaunch` intent to the registrar on a best-effort basis. The
//! in-memory value is authoritative for the UI: it always reflects the last
//! value the user chose, whether or not the registrar call went through, and
//! no registrar failure ever crosses this boundary as a panic — failures are
//! returned as values for the caller to surface as diagnostics.

use vstd::prelude::*;

use crate::reconcile::initial_preference;
use crate::reconcile::needs_enable_fallback;
use crate::registrar::Registrar;
use crate::registrar::RegistrarError;

verus! {

/// The desired default registration state at startup: an interactive or
/// release run wants the application registered; an unattended or diagnostic
/// run wants it unregistered.
#[derive(Clone, Copy, Debug, PartialEq, Eq, Structural)]
pub enum StartupPolicy {
    Interactive,
    Unattended,
}

/// One user-triggered event delivered by the presentation surface: either
/// the toggle was flipped to a desired value, or a community link was
/// clicked and its URL is to be opened.
pub enum Intent {
    ToggleLaunch(bool),
    OpenLink(String),
}

/// What one dispatched intent asks of the caller: a flipped toggle has been
/// applied and carries the registrar's diagnostic outcome; a clicked link is
/// handed back verbatim for the caller's URL-opener capability.
pub enum UpdateOutcome {
    Toggled(Result<(), RegistrarError>),
    OpenUrl(String),
}

/// The owner of the `launch_on_start` preference and of the registrar it is
/// reconciled against.
pub struct Controller {
    launch_on_start: bool,
    registrar: Registrar,
}

impl Controller {
    /// The in-memory preference, as the presentation surface observes it.
    pub closed spec fn spec_pref(self) -> bool {
        self.launch_on_start
    }

    /// The registrar the controller actuates.
    pub closed spec fn spec_registrar(self) -> Registrar {
        self.registrar
    }

    /// Startup reconciliation. Under the interactive policy the registrar is
    /// queried: an entry already present makes the initial preference `true`
    /// with nothing to do; otherwise the controller falls back to attempting
    /// `enable`, and that attempt's success is the initial preference — so a
    /// failed registration never blocks startup, it only leaves the toggle
    /// showing `false`. Under the unattended policy the controller attempts
    /// to `disable` and the preference starts `false` regardless.
    pub fn startup(registrar: Registrar, policy: StartupPolicy) -> (c: Controller)
        ensures
            c.spec_registrar() == registrar,
            policy is Unattended ==> c.spec_pref() == false,
    {
        match policy {
            StartupPolicy::Interactive => {
                let query = registrar.is_enabled();
                let launch_on_start: bool = if needs_enable_fallback(&query) {
                    let attempt = registrar.enable();
                    initial_preference(&query, attempt.is_ok())
                } else {
                    // The entry is already present, so no enable is
                    // attempted and the hypothetical fallback outcome is
                    // irrelevant to the decision.
                    initial_preference(&query, false)
                };
                Controller { launch_on_start, registrar }
            },
            StartupPolicy::Unattended => {
                let _ = registrar.disable();
                Controller { launch_on_start: false, registrar }
            },
        }
    }

    /// Applies one flip of the toggle: the preference takes the desired
    /// value immediately and unconditionally, then the registrar is actuated
    /// best-effort — `enable` for `true`, `disable` for `false` — and its
    /// outcome is returned as a diagnostic, never rolled back into the
    /// preference.
    pub fn toggle_launch(&mut self, desired: bool) -> (outcome: Result<(), RegistrarError>)
        ensures
            final(self).spec_pref() == desired,
            final(self).spec_registrar() == old(self).spec_registrar(),
    {
        self.launch_on_start = desired;
        if desired {
            self.registrar.enable()
        } else {
            self.registrar.disable()
        }
    }

    /// Dispatches one intent from the presentation surface. A toggle is
    /// applied as in [`Controller::toggle_launch`]; a link click changes
    /// nothing and is handed back verbatim for the caller to open.
    pub fn update(&mut self, intent: Intent) -> (outcome: UpdateOutcome)
        ensures
            (match intent {
                Intent::ToggleLaunch(desired) => {
                    &&& final(self).spec_pref() == desired
                    &&& final(self).spec_registrar() == old(self).spec_registrar()
                    &&& outcome is Toggled
                },
                Intent::OpenLink(url) => {
                    &&& *final(self) == *old(self)
                    &&& (outcome matches UpdateOutcome::OpenUrl(u) && u == url)
                },
            }),
    {
        match intent {
            Intent::ToggleLaunch(desired) => UpdateOutcome::Toggled(self.toggle_launch(desired)),
            Intent::OpenLink(url) => UpdateOutcome::OpenUrl(url),
        }
    }

    /// The read-only snapshot the presentation surface takes on every
    /// render pass.
    pub fn launch_on_start(&self) -> (r: bool)
        ensures
            r == self.spec_pref(),
    {
        self.launch_on_start
    }
}

} // verus!
