//! The install-once lifecycle: at most one sink is registered as the
//! process-wide logging destination, and a second attempt is a fatal
//! configuration error. The process-wide flag itself lives with the caller
//! that performs the registration; this module decides every transition.

use vstd::prelude::*;

verus! {

/// The outcome of one installation attempt.
#[derive(Clone, Copy, Debug, PartialEq, Eq, Structural)]
pub enum InstallOutcome {
    /// The sink was accepted as the process-wide destination.
    Accepted,
    /// A sink had already been installed; the attempt must fail fatally.
    AlreadyInstalled,
}

/// The installation state machine: from the flag before an attempt, the
/// flag after it and the attempt's outcome. The flag never returns to the
/// uninstalled state.
pub open spec fn spec_install_step(installed: bool) -> (bool, InstallOutcome) {
    (
        true,
        if installed {
            InstallOutcome::AlreadyInstalled
        } else {
            InstallOutcome::Accepted
        },
    )
}

/// Decides one installation attempt: accepted exactly when no sink was
/// installed before, and the flag is set either way.
pub fn install_step(installed: bool) -> (r: (bool, InstallOutcome))
    ensures
        r == spec_install_step(installed),
        r.0 == true,
        r.1 == InstallOutcome::Accepted <==> !installed,
{
    if installed {
        (true, InstallOutcome::AlreadyInstalled)
    } else {
        (true, InstallOutcome::Accepted)
    }
}

/// Law: an installation attempt made after an accepted one is always
/// refused; it never silently succeeds and never silently does nothing.
pub proof fn lemma_second_install_fails(installed: bool)
    requires
        spec_install_step(installed).1 == InstallOutcome::Accepted,
    ensures
        spec_install_step(spec_install_step(installed).0).1 == InstallOutcome::AlreadyInstalled,
{
}

} // verus!

