//! Start-up wiring for a MIDI input device: the choice of an input port,
//! the text the user and the trace see, and the single slot that holds the
//! open connection for the rest of the application.

pub mod connector;
pub mod selection;
pub mod slot;
pub mod text;

pub use connector::{Action, Event, Phase, Setup, SetupError};
pub use selection::parse_index;
pub use slot::SharedSlot;
pub use text::{decimal_string, listing_line, trace_line};
