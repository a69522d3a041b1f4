use vstd::prelude::*;

verus! {

/// Why a placement could not be loaded, captured or stored.
#[derive(Debug, Clone, Copy, PartialEq, Eq, Structural)]
pub enum ConfigError {
    /// The configuration file exists but could not be read.
    Unreadable,
    /// The configuration file holds text that is not a placement record.
    Malformed,
    /// The windowing framework could not report where the window is.
    PositionUnavailable,
}

} // verus!
