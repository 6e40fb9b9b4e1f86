//! Verified core of a MIDI port manager.
//!
//! The crate holds the decisions of MIDI port management and none of its
//! input or output: the three-byte message model, the port handles, the
//! command and reply protocol between an application and its port workers,
//! the worker state machines and the application-side facade that turns
//! replies into visible state.

pub mod errors;
pub mod input;
pub mod message;
pub mod notes;
pub mod output;
pub mod ports;
pub mod prelude;
pub mod text;
pub mod types;

pub use errors::{ConnectErrorKind, SendError};
pub use message::MidiMessage;
pub use notes::KEY_RANGE;
pub use ports::{MidiInputPort, MidiOutputPort};
