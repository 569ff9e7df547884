//! The `factory-reset` command, which restores a camera to factory defaults.

use vstd::prelude::*;
use crate::factory_reset::cmdline::Opt;

pub mod cmdline;

verus! {

/// What a reset that was not acknowledged is refused with.
pub const REFUSAL: &'static str = "Refusing to proceed without --yes-i-am-sure. Factory reset wipes credentials, schedules and paired notifications, and the wire format used here is NOT YET CONFIRMED. Re-run with --yes-i-am-sure if you understand the risk. See docs/baichuan-lifecycle.md.";

/// Whether to go on with a reset, and, if so, whether the camera is to keep its
/// network configuration.
pub fn confirm(opt: &Opt) -> (result: Result<bool, &'static str>)
    ensures
        if opt.yes_i_am_sure {
            result == Ok::<bool, &'static str>(opt.keep_network)
        } else {
            result matches Err(reason) && reason@ == REFUSAL@
        },
{
    if !opt.yes_i_am_sure {
        return Err(REFUSAL);
    }
    Ok(opt.keep_network)
}

} // verus!
