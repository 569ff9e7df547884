//! Watching the I/O input contacts of NVRs and hubs.

use vstd::prelude::*;
use vstd::string::*;
use crate::text;

pub mod cmdline;

verus! {

/// What is printed when an input contact changes.
pub fn io_line(index: u32, on: bool) -> (line: String)
    ensures
        line@ == "io "@ + text::decimal(index as nat) + " "@ + (if on {
            "on"@
        } else {
            "off"@
        }),
{
    let mut line = "io ".to_owned();
    text::append_decimal(&mut line, index as u64);
    line.append(" ");
    if on {
        line.append("on");
    } else {
        line.append("off");
    }
    line
}

} // verus!
