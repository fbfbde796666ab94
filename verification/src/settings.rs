//! The permission-settings launcher.
//!
//! One operating system gates synthetic keyboard input behind an
//! explicit user-granted accessibility capability and offers a fixed
//! identifier that opens its settings surface directly at the relevant
//! pane. On such a system the launcher asks the host shell to open that
//! identifier; on every other system there is nothing to open and the
//! launcher succeeds without side effects.
//!
//! The shell call itself is operating-system work done by the unverified
//! host: the host asks [`settings_pane_target`] what to open (if
//! anything), performs the call, and hands the outcome to
//! [`open_accessibility_settings`], which turns it into the caller's
//! result.

use vstd::prelude::*;
use vstd::string::StringExecFns;

verus! {

/// Whether the host operating system gates synthetic input behind a
/// user-granted accessibility capability.
#[derive(Clone, Copy, PartialEq, Eq, Structural, Debug)]
pub enum OsPolicy {
    /// Synthetic input requires an explicit permission grant, and the
    /// system offers a settings pane where the user can grant it.
    Gated,
    /// No permission gate exists; there is no pane to open.
    Ungated,
}

/// The settings surface could not be opened by the host shell.
#[derive(Clone, Copy, PartialEq, Eq, Structural, Debug)]
pub enum LaunchError {
    /// The shell call that opens the settings surface failed.
    ShellFailed,
}

impl LaunchError {
    /// The stringified failure reason surfaced across the command
    /// boundary.
    pub fn message(&self) -> (r: String)
        ensures
            r@ == spec_launch_error_text(*self),
    {
        String::from_str("failed to open the accessibility settings pane")
    }
}

/// The text of each launch failure, as surfaced to the caller.
pub open spec fn spec_launch_error_text(e: LaunchError) -> Seq<char> {
    "failed to open the accessibility settings pane"@
}

/// The fixed identifier that opens the gated system's settings surface
/// at the accessibility pane, or nothing when no gate exists.
pub fn settings_pane_target(policy: OsPolicy) -> (r: Option<&'static str>)
    ensures
        r is Some <==> policy == OsPolicy::Gated,
        r is Some ==> r->0@ == spec_accessibility_pane_target(),
{
    match policy {
        OsPolicy::Gated => Some(
            "x-apple.systempreferences:com.apple.preference.security?Privacy_Accessibility",
        ),
        OsPolicy::Ungated => None,
    }
}

/// The identifier handed to the gated system's shell.
pub open spec fn spec_accessibility_pane_target() -> Seq<char> {
    "x-apple.systempreferences:com.apple.preference.security?Privacy_Accessibility"@
}

/// Open the operating system's accessibility settings pane.
///
/// `shell_ok` is the outcome of the host's shell call on a gated
/// system; on an ungated system no shell call is made and the argument
/// is ignored. The call always succeeds on an ungated system, and on a
/// gated system it succeeds exactly when the shell call did.
pub fn open_accessibility_settings(policy: OsPolicy, shell_ok: bool) -> (r: Result<
    (),
    LaunchError,
>)
    ensures
        policy == OsPolicy::Ungated ==> r is Ok,
        policy == OsPolicy::Gated ==> (r is Ok <==> shell_ok),
        r is Err ==> r == Result::<(), LaunchError>::Err(LaunchError::ShellFailed),
{
    match policy {
        OsPolicy::Ungated => Ok(()),
        OsPolicy::Gated => if shell_ok {
            Ok(())
        } else {
            Err(LaunchError::ShellFailed)
        },
    }
}

} // verus!
