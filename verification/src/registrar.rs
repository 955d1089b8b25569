//! The application's identity and the autostart registrar: a thin adapter
//! over the host OS's autostart mechanism (an XDG desktop entry in the
//! user's autostart directory), whose every operation may fail.

use vstd::prelude::*;
use vstd::string::StrSliceExecFns;
use vstd::string::StringExecFns;

verus! {

/// Why a registrar operation failed. Every failure is non-retryable within
/// a single process run; callers degrade to a diagnostic and keep going.
#[derive(Clone, Copy, Debug, PartialEq, Eq, Structural)]
pub enum RegistrarError {
    /// No write access to the autostart location.
    PermissionDenied,
    /// No known autostart mechanism on this platform.
    EnvironmentUnsupported,
    /// The identity cannot name a launchable executable.
    MalformedIdentity,
}

/// What the autostart entry is made of: the application's name, the absolute
/// path of its executable, and the arguments it is launched with at login.
/// Resolved once at process start; never changes during the process lifetime.
pub struct AppIdentity {
    pub name: String,
    pub executable_path: String,
    pub launch_arguments: Vec<String>,
}

impl AppIdentity {
    /// An identity is well formed when it has a name and an absolute
    /// executable path: only then can an autostart entry point at it.
    pub open spec fn valid(self) -> bool {
        &&& self.name@.len() > 0
        &&& self.executable_path@.len() > 0
        &&& self.executable_path@[0] == '/'
    }

    /// Builds an identity with the given launch arguments.
    pub fn new(name: String, executable_path: String, launch_arguments: Vec<String>) -> (id: AppIdentity)
        ensures
            id.name == name,
            id.executable_path == executable_path,
            id.launch_arguments == launch_arguments,
    {
        AppIdentity { name, executable_path, launch_arguments }
    }

    /// Builds the conventional identity for a login launch: the entry starts
    /// the executable minimized in the background, so the welcome screen does
    /// not pop up in front of the user on every login.
    pub fn minimized(name: String, executable_path: String) -> (id: AppIdentity)
        ensures
            id.name == name,
            id.executable_path == executable_path,
            id.launch_arguments@.len() == 1,
            id.launch_arguments@[0]@ == "--minimized"@,
    {
        let mut launch_arguments: Vec<String> = Vec::new();
        launch_arguments.push(String::from_str("--minimized"));
        AppIdentity { name, executable_path, launch_arguments }
    }

    /// Accepts exactly the well-formed identities; everything else is a
    /// malformed identity, the one registrar error the library itself can
    /// establish without asking the OS.
    pub fn validate(&self) -> (r: Result<(), RegistrarError>)
        ensures
            r is Ok <==> self.valid(),
            r matches Err(e) ==> e == RegistrarError::MalformedIdentity,
    {
        if self.name.as_str().unicode_len() == 0 {
            return Err(RegistrarError::MalformedIdentity);
        }
        if self.executable_path.as_str().unicode_len() == 0 {
            return Err(RegistrarError::MalformedIdentity);
        }
        if self.executable_path.as_str().get_char(0) != '/' {
            return Err(RegistrarError::MalformedIdentity);
        }
        Ok(())
    }
}

#[verifier::external_type_specification]
#[verifier::external_body]
pub struct ExAutoLaunch(auto_launch::AutoLaunch);

#[verifier::external_type_specification]
#[verifier::external_body]
pub struct ExAutoLaunchError(auto_launch::Error);

/// Relies on `auto_launch::AutoLaunch::new`: it only stores the name, path
/// and arguments it is given, for the later calls to act on; it performs no
/// I/O and cannot fail. The XDG autostart mechanism — a desktop entry in the
/// user's autostart directory, the crate's default on this platform — is
/// pinned here.
#[verifier::external_body]
fn new_handle(name: &String, path: &String, args: &Vec<String>) -> auto_launch::AutoLaunch {
    auto_launch::AutoLaunch::new(
        name.as_str(),
        path.as_str(),
        auto_launch::LinuxLaunchMode::XdgAutostart,
        args.as_slice(),
    )
}

/// Relies on `auto_launch::AutoLaunch::enable`: it writes the autostart
/// entry for the stored identity, overwriting any entry already there, in
/// one all-or-nothing call. Whether it succeeds depends on the machine, so
/// nothing can be promised of the outcome.
#[verifier::external_body]
fn raw_enable(handle: &auto_launch::AutoLaunch) -> Result<(), auto_launch::Error> {
    handle.enable()
}

/// Relies on `auto_launch::AutoLaunch::disable`: it removes the autostart
/// entry if one exists, succeeding when none does, in one all-or-nothing
/// call. Whether it succeeds depends on the machine, so nothing can be
/// promised of the outcome.
#[verifier::external_body]
fn raw_disable(handle: &auto_launch::AutoLaunch) -> Result<(), auto_launch::Error> {
    handle.disable()
}

/// Relies on `auto_launch::AutoLaunch::is_enabled`: it reports whether the
/// autostart entry currently exists, without side effects. The answer
/// depends on what is on disk, so nothing can be promised of the outcome.
#[verifier::external_body]
fn raw_is_enabled(handle: &auto_launch::AutoLaunch) -> Result<bool, auto_launch::Error> {
    handle.is_enabled()
}

/// Relies on `auto_launch::Error`'s variants: the four construction errors
/// name a broken identity; an unsupported target OS has no autostart
/// mechanism; and the rest — I/O and the platform services refusing the
/// registration — surface as the OS denying the write.
#[verifier::external_body]
fn classify_failure(e: auto_launch::Error) -> RegistrarError {
    match e {
        auto_launch::Error::AppNameNotSpecified => RegistrarError::MalformedIdentity,
        auto_launch::Error::AppPathNotSpecified => RegistrarError::MalformedIdentity,
        auto_launch::Error::AppPathDoesntExist(_) => RegistrarError::MalformedIdentity,
        auto_launch::Error::AppPathIsNotAbsolute(_) => RegistrarError::MalformedIdentity,
        auto_launch::Error::UnsupportedOS => RegistrarError::EnvironmentUnsupported,
        auto_launch::Error::AppleScriptFailed(_) => RegistrarError::PermissionDenied,
        auto_launch::Error::SMAppServiceRegistrationFailed(_) => RegistrarError::PermissionDenied,
        auto_launch::Error::SMAppServiceUnregistrationFailed(_) => RegistrarError::PermissionDenied,
        auto_launch::Error::Io(_) => RegistrarError::PermissionDenied,
    }
}

/// The autostart registrar: an [`AppIdentity`] bound to the host's autostart
/// mechanism. Construction validates the identity; the three operations are
/// best-effort translations of "run this executable with these arguments at
/// login" whose outcomes only the OS decides.
pub struct Registrar {
    identity: AppIdentity,
    handle: auto_launch::AutoLaunch,
}

impl Registrar {
    /// The identity this registrar was built from.
    pub closed spec fn spec_identity(self) -> AppIdentity {
        self.identity
    }

    /// A registrar only ever holds a well-formed identity.
    pub open spec fn wf(self) -> bool {
        self.spec_identity().valid()
    }

    /// Binds an identity to the host autostart mechanism. Accepts exactly
    /// the well-formed identities and rejects the rest as malformed, so a
    /// broken path can never reach the OS.
    pub fn new(identity: AppIdentity) -> (r: Result<Registrar, RegistrarError>)
        ensures
            r is Ok <==> identity.valid(),
            r matches Ok(reg) ==> reg.spec_identity() == identity && reg.wf(),
            r matches Err(e) ==> e == RegistrarError::MalformedIdentity,
    {
        match identity.validate() {
            Ok(()) => {
                let handle = new_handle(
                    &identity.name,
                    &identity.executable_path,
                    &identity.launch_arguments,
                );
                Ok(Registrar { identity, handle })
            },
            Err(e) => Err(e),
        }
    }

    /// Idempotently ensures the autostart entry exists for this identity.
    /// Success is the OS's to grant: the result reports the outcome of this
    /// one all-or-nothing attempt, and nothing more can be said of it.
    pub fn enable(&self) -> (r: Result<(), RegistrarError>) {
        match raw_enable(&self.handle) {
            Ok(()) => Ok(()),
            Err(e) => Err(classify_failure(e)),
        }
    }

    /// Idempotently ensures no autostart entry exists, succeeding when none
    /// did. As with [`Registrar::enable`], the outcome is the OS's alone.
    pub fn disable(&self) -> (r: Result<(), RegistrarError>) {
        match raw_disable(&self.handle) {
            Ok(()) => Ok(()),
            Err(e) => Err(classify_failure(e)),
        }
    }

    /// Queries whether the autostart entry currently exists, without side
    /// effects. The answer reflects what is on disk at this moment.
    pub fn is_enabled(&self) -> (r: Result<bool, RegistrarError>) {
        match raw_is_enabled(&self.handle) {
            Ok(enabled) => Ok(enabled),
            Err(e) => Err(classify_failure(e)),
        }
    }
}

} // verus!
