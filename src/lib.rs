//! Remembers where the primary window stood when it was closed, so that the
//! next launch can put it back there.
//!
//! The library holds the window placement model, the text record that
//! persists it, and the decisions taken at startup and on a close request.
//! Finding the configuration directory, reading and writing the file and
//! driving the window are left to the caller.
//!
//! The stored text is the RON form of an optional coordinate pair: `None`
//! for a centred window, `Some((x,y))` for a window whose top-left corner is
//! at `(x, y)`. A `(position: ...)` record written by earlier builds is not
//! this format and loads as `Malformed`.

mod error;
mod lifecycle;
mod placement;
mod record;
mod store;

pub use error::ConfigError;
pub use lifecycle::{
    capture_placement, on_close_requested, transition, AppEvent, AppState, CloseAction,
};
pub use placement::{WindowPlacement, WindowPosition};
pub use record::{
    decode_placement, decoded, encode_placement, lemma_record_round_trip, placement_from_record,
    placement_of, placement_to_record, record_of, ron_record_of, ron_text, Record,
};
pub use store::{load_from, loaded, ReadOutcome};
