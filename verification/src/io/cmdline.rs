//! The command line of the `io` command.

use vstd::prelude::*;

verus! {

/// The io command watches the camera's I/O input contacts. It runs until it is
/// interrupted.
#[derive(Debug)]
pub struct Opt {
    /// The name of the camera. Must be a name in the config
    pub camera: String,
}

} // verus!
