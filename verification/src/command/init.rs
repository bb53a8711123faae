//! Arguments of the init command.

use vstd::prelude::*;

verus! {

/// The init command's arguments: an optional configuration path and an
/// optional project path to put the template in.
#[derive(Debug)]
pub struct Args {
    pub config: Option<String>,
    pub project: Option<String>,
}

} // verus!
