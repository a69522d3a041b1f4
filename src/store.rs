use vstd::prelude::*;

use crate::error::ConfigError;
use crate::placement::{WindowPlacement, WindowPosition};
use crate::record::{decode_placement, decoded, ron_record_of};

verus! {

/// What became of the attempt to read the configuration file.
#[derive(Debug, Clone, PartialEq, Eq)]
pub enum ReadOutcome {
    /// There is no such file.
    Missing,
    /// The file is there but reading it failed.
    Unreadable,
    /// The whole content of the file.
    Contents(String),
}

/// What loading yields for a read outcome: a missing file means no saved
/// preference, any other read failure is an error, and a content is decoded.
pub open spec fn loaded(outcome: ReadOutcome) -> Result<WindowPlacement, ConfigError> {
    match outcome {
        ReadOutcome::Missing => Ok(WindowPlacement { position: WindowPosition::Centered }),
        ReadOutcome::Unreadable => Err(ConfigError::Unreadable),
        ReadOutcome::Contents(s) => decoded(s@),
    }
}

/// The placement to start with, given what reading the configuration file
/// gave.
pub fn load_from(outcome: &ReadOutcome) -> (res: Result<WindowPlacement, ConfigError>)
    ensures
        res == loaded(*outcome),
        *outcome is Missing ==> res == Ok::<WindowPlacement, ConfigError>(
            WindowPlacement { position: WindowPosition::Centered },
        ),
        outcome matches ReadOutcome::Contents(s) && ron_record_of(s@) is None ==> res == Err::<
            WindowPlacement,
            ConfigError,
        >(ConfigError::Malformed),
{
    match outcome {
        ReadOutcome::Missing => Ok(WindowPlacement::centered()),
        ReadOutcome::Unreadable => Err(ConfigError::Unreadable),
        ReadOutcome::Contents(s) => decode_placement(s.as_str()),
    }
}

} // verus!
