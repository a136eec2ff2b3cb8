//! The command-line tools' logic: argument records, VCU configuration
//! packets, and the text the telemetry dump prints.

pub mod config;
pub mod config_ui;
pub mod dash;
pub mod dump;
pub mod firmware_ui;

use vstd::prelude::*;

verus! {

/// The subcommands of the `futurist` tool.
pub enum Command {
    /// Dump raw telemetry frames from the bike to stdout.
    Dump(dump::DumpArgs),
}

} // verus!
