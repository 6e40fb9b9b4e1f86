//! The names that an application of the library uses most.

pub use crate::errors::{ConnectErrorKind, SendError};
pub use crate::input::{
    Ignore, MidiData, MidiInput, MidiInputConnection, MidiInputError, MidiInputSettings,
};
pub use crate::message::MidiMessage;
pub use crate::notes::KEY_RANGE;
pub use crate::output::{
    MidiOutput, MidiOutputConnection, MidiOutputError, MidiOutputSettings,
};
pub use crate::ports::{MidiInputPort, MidiOutputPort};
pub use crate::types::{
    ChannelVoice, MtcQuarterFrameMessage, OwnedLiveEvent, OwnedSystemCommon, SystemRealtime,
};
