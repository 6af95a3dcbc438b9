//! The command surface: one `create` subcommand carrying an event request.

use vstd::prelude::*;
use crate::calendar_service::CalendarService;

verus! {

/// The subcommands the program offers.
pub enum Commands {
    /// Create one calendar event from the given request.
    Create(CalendarService),
}

/// The parsed command line: the chosen subcommand.
pub struct Cli {
    pub command: Commands,
}

} // verus!
