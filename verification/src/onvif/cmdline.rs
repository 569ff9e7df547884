//! The command line of the `onvif` command.

use vstd::prelude::*;

verus! {

/// The `onvif` command starts the ONVIF bridge. Every camera that is enabled,
/// and enabled for it, is exposed as a device.
#[derive(Default, Debug)]
pub struct Opt {}

} // verus!
