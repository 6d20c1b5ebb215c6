//! Facts about the host: platform, privileges, and executables found on
//! the process search path.

use vstd::prelude::*;

verus! {

/// The operating system family that the program runs on.
#[derive(Debug, Clone, Copy, PartialEq, Eq, Structural)]
pub enum Platform {
    Windows,
    MacOs,
    Linux,
    Other,
}

/// Whether `platform` lets a process obtain elevated privileges on demand
/// (a `sudo`-capable system).
pub open spec fn spec_supports_privilege_escalation(platform: Platform) -> bool {
    platform == Platform::Linux
}

/// Checks if the operating system allows escalating process privileges
/// on demand.
pub fn supports_privilege_escalation(platform: Platform) -> (r: bool)
    ensures
        r == spec_supports_privilege_escalation(platform),
{
    platform == Platform::Linux
}

/// A failure while probing the host for an executable.
#[derive(Debug)]
pub enum HostError {
    /// Searching the process search path for `name` failed.
    Lookup { name: String, source: which::Error },
    /// Checking whether `path` exists failed.
    Probe { path: String, message: String },
}

#[verifier::external_type_specification]
#[verifier::external_body]
pub struct ExWhichError(which::Error);

/// Relies on `which::which`: searches the process search path for `name`.
/// A binary that cannot be found comes back as `Ok(None)`; the outcome
/// depends on the file system, so nothing more is stated.
#[verifier::external_body]
fn which_path(name: &str) -> (r: Result<Option<String>, which::Error>) {
    match which::which(name) {
        Ok(path) => Ok(Some(path.to_string_lossy().into_owned())),
        Err(which::Error::CannotFindBinaryPath) => Ok(None),
        Err(error) => Err(error),
    }
}

/// Looks `name` up on the process search path. A missing binary is
/// `Ok(None)`; any other lookup failure is an error naming `name`.
pub fn which_opt(name: &str) -> (r: Result<Option<String>, HostError>)
    ensures
        r matches Err(e) ==> e matches HostError::Lookup { name: n, .. } && n@ == name@,
{
    match which_path(name) {
        Ok(found) => Ok(found),
        Err(source) => Err(HostError::Lookup { name: name.to_string(), source }),
    }
}

/// Relies on `std::path::Path::try_exists`: whether `path` names an
/// existing file; the outcome depends on the file system.
#[verifier::external_body]
fn path_try_exists(path: &str) -> (r: Result<bool, String>) {
    std::path::Path::new(path).try_exists().map_err(|error| error.to_string())
}

/// Whether `path` exists; a failed probe is an error naming `path`.
pub fn path_exists(path: &str) -> (r: Result<bool, HostError>)
    ensures
        r matches Err(HostError::Probe { path: p, .. }) ==> p@ == path@,
{
    match path_try_exists(path) {
        Ok(exists) => Ok(exists),
        Err(message) => Err(HostError::Probe { path: path.to_string(), message }),
    }
}

/// Relies on `sudo::check`: whether the process runs as root, or was
/// started set-uid root; the outcome depends on the process's credentials.
#[verifier::external_body]
fn process_is_privileged() -> (r: bool) {
    match sudo::check() {
        sudo::RunningAs::Root => true,
        sudo::RunningAs::Suid => true,
        sudo::RunningAs::User => false,
    }
}

/// Tells whether the program already runs with elevated privileges.
pub fn running_in_elevation() -> bool {
    process_is_privileged()
}

} // verus!
