//! The command surface: the argument shapes of the two commands. Argument
//! parsing itself, configuration loading and all other I/O live outside the
//! library.

pub mod check;
pub mod init;

use vstd::prelude::*;

verus! {

/// The two commands: run the checks, or write a template configuration.
#[derive(Debug)]
pub enum Command {
    Check(check::Args),
    Init(init::Args),
}

} // verus!
