//! Power management by the legacy port sequences.

use vstd::prelude::*;
use crate::cmd::reboot_command;
use crate::cmd::reboot_outcome;
use crate::cmd::shutdown_command;
use crate::cmd::shutdown_outcome;
use crate::effect::Effects;

verus! {

/// The handle by which the system powers the machine off or restarts it.
#[derive(Debug, Clone, Copy, PartialEq, Eq, Structural)]
pub struct AcpiController;

impl AcpiController {
    /// A new handle.
    pub fn new() -> (controller: AcpiController)
        ensures
            controller == AcpiController,
    {
        AcpiController
    }

    /// Powers the machine off, as the `shutdown` command does.
    pub fn shutdown(&mut self, out: &mut Effects)
        ensures
            final(out)@ == old(out)@ + shutdown_outcome().effects,
    {
        let _ = shutdown_command(Vec::new(), out);
    }

    /// Restarts the machine, as the `reboot` command does.
    pub fn reboot(&mut self, out: &mut Effects)
        ensures
            final(out)@ == old(out)@ + reboot_outcome().effects,
    {
        let _ = reboot_command(Vec::new(), out);
    }
}

} // verus!
