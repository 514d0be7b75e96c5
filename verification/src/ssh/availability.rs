//! Whether the `ssh` and `scp` programs can be started.
use vstd::prelude::*;

verus! {

/// The program that runs remote commands.
pub const SSH_BIN: &'static str = "ssh";

/// The program that copies files to the remote host.
pub const SCP_BIN: &'static str = "scp";

/// Whether each program could be spawned (its exit status does not matter: `scp` without
/// arguments exits non-zero, which still proves it exists).
#[derive(Debug, Clone, Copy, Default)]
pub struct Availability {
    pub ssh: bool,
    pub scp: bool,
}

impl Availability {
    /// Both programs are reachable.
    pub fn all_present(&self) -> (r: bool)
        ensures
            r == (self.ssh && self.scp),
    {
        self.ssh && self.scp
    }
}

} // verus!
