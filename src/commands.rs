//! The command-line tool's account and configuration commands.
use vstd::prelude::*;

verus! {

/// The account subcommands.
#[derive(Debug, PartialEq, Eq, Structural)]
pub enum Commands {
    /// Adds an existing account to the accounts file.
    Add,
    /// Creates an account.
    Create,
    /// Deploys a created account.
    Deploy,
    /// Deletes an account from the accounts file.
    Delete,
}

/// Creates and deploys an account.
pub struct Account {
    pub command: Commands,
}

/// Shows the configuration in use.
pub struct ShowConfig {}

/// How values are displayed.
#[derive(Debug, Clone, Copy, PartialEq, Eq, Structural)]
pub enum ValueFormat {
    Hex,
    Int,
    Default,
}

/// The display format the command-line flags ask for; the two flags exclude
/// each other on the command line, and hex wins should both be set.
pub fn value_format(int_format: bool, hex_format: bool) -> (r: ValueFormat)
    ensures
        r == (if hex_format {
            ValueFormat::Hex
        } else if int_format {
            ValueFormat::Int
        } else {
            ValueFormat::Default
        }),
{
    if hex_format {
        ValueFormat::Hex
    } else if int_format {
        ValueFormat::Int
    } else {
        ValueFormat::Default
    }
}

} // verus!
