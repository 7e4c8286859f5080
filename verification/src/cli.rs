//! Command-line interface: launching the program opens the dashboard.
use vstd::prelude::*;

verus! {

/// The command line of the program; it takes no subcommands or flags.
#[derive(Debug, Clone, Copy, PartialEq, Eq)]
pub struct Cli {}

} // verus!
