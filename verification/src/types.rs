//! Live MIDI events that own their data.
//!
//! An event of a live MIDI stream is a channel message, a system common
//! message or a system realtime message. The types here hold such an event
//! whole, its data bytes as plain integers, so that it can be kept and
//! passed on after the buffer that it was read from is gone.

use crate::notes::{note_name, push_note_name};
use crate::text::{decimal, push_decimal};
use vstd::prelude::*;
use vstd::string::StringExecFns;

verus! {

/// The message of a channel: what to play or to change, without the channel.
/// Every data byte is below 128, a pitch bend below 16384.
#[derive(Clone, Copy, Debug, PartialEq, Eq, Hash)]
pub enum ChannelVoice {
    /// Stop playing a note.
    NoteOff { key: u8, vel: u8 },
    /// Start playing a note.
    NoteOn { key: u8, vel: u8 },
    /// Change the pressure on a note that is being played.
    Aftertouch { key: u8, vel: u8 },
    /// Change the value of a controller.
    Controller { controller: u8, value: u8 },
    /// Change the program of the channel.
    ProgramChange { program: u8 },
    /// Change the pressure on all notes of the channel.
    ChannelAftertouch { vel: u8 },
    /// Bend the pitch of the channel. `0x2000` is no bend.
    PitchBend { bend: u16 },
}

/// What a MIDI Time Code Quarter Frame message carries.
#[derive(Clone, Copy, Debug, PartialEq, Eq, Hash)]
pub enum MtcQuarterFrameMessage {
    FramesLow,
    FramesHigh,
    SecondsLow,
    SecondsHigh,
    MinutesLow,
    MinutesHigh,
    HoursLow,
    HoursHigh,
}

/// A one-byte System Realtime message.
#[derive(Clone, Copy, Debug, PartialEq, Eq, Hash)]
pub enum SystemRealtime {
    TimingClock,
    Start,
    Continue,
    Stop,
    ActiveSensing,
    Reset,
    /// A realtime message that the standard does not define, by its byte.
    Undefined(u8),
}

/// A System Common message that owns its data.
#[derive(Clone, Debug, PartialEq, Eq, Hash)]
pub enum OwnedSystemCommon {
    /// A system-exclusive message: its data bytes, without the bytes that
    /// mark its begin and end.
    SysEx(Vec<u8>),
    /// A MIDI Time Code Quarter Frame message: what it carries, and the
    /// four-bit value.
    MidiTimeCodeQuarterFrame(MtcQuarterFrameMessage, u8),
    /// The number of MIDI beats since the start of the sequence.
    SongPosition(u16),
    /// The song to select.
    SongSelect(u8),
    /// The device is to tune itself.
    TuneRequest,
    /// A System Common message that the standard does not define: its
    /// status byte and its data bytes.
    Undefined(u8, Vec<u8>),
}

/// A live MIDI event that owns its data.
#[derive(Clone, Debug, PartialEq, Eq, Hash)]
pub enum OwnedLiveEvent {
    /// A message of one of the sixteen channels.
    Midi { channel: u8, message: ChannelVoice },
    /// A System Common message.
    Common(OwnedSystemCommon),
    /// A System Realtime message.
    Realtime(SystemRealtime),
}

/// Whether every byte of `data` is a data byte, below 128.
pub open spec fn data_bytes(data: Seq<u8>) -> bool {
    forall|i: int| 0 <= i < data.len() ==> data[i] < 128
}

impl ChannelVoice {
    /// Whether every value is in the range of its field.
    pub open spec fn well_formed(&self) -> bool {
        match *self {
            ChannelVoice::NoteOff { key, vel } => key < 128 && vel < 128,
            ChannelVoice::NoteOn { key, vel } => key < 128 && vel < 128,
            ChannelVoice::Aftertouch { key, vel } => key < 128 && vel < 128,
            ChannelVoice::Controller { controller, value } => controller < 128 && value < 128,
            ChannelVoice::ProgramChange { program } => program < 128,
            ChannelVoice::ChannelAftertouch { vel } => vel < 128,
            ChannelVoice::PitchBend { bend } => bend < 0x4000,
        }
    }
}

impl OwnedSystemCommon {
    /// Whether every value is in the range of its field.
    pub open spec fn well_formed(&self) -> bool {
        match *self {
            OwnedSystemCommon::SysEx(data) => data_bytes(data@),
            OwnedSystemCommon::MidiTimeCodeQuarterFrame(_, value) => value < 16,
            OwnedSystemCommon::SongPosition(beats) => beats < 0x4000,
            OwnedSystemCommon::SongSelect(song) => song < 128,
            OwnedSystemCommon::TuneRequest => true,
            OwnedSystemCommon::Undefined(_, data) => data_bytes(data@),
        }
    }
}

/// `raw` as a four-bit number.
///
/// Calls `midly::num::u4::from`, which keeps the low four bits of its
/// argument and drops the rest, and reads the result back as a byte with
/// `as_int`. Verus takes the contract on trust.
#[verifier::external_body]
fn u4_lossy(raw: u8) -> (kept: u8)
    ensures
        kept == raw & 0x0F,
{
    midly::num::u4::from(raw).as_int()
}

/// `raw` as a seven-bit number.
///
/// Calls `midly::num::u7::from`, which keeps the low seven bits of its
/// argument and drops the top bit, and reads the result back as a byte with
/// `as_int`. Verus takes the contract on trust.
#[verifier::external_body]
fn u7_lossy(raw: u8) -> (kept: u8)
    ensures
        kept == raw & 0x7F,
{
    midly::num::u7::from(raw).as_int()
}

/// The text that tells of a note message: channel, kind, note and velocity.
pub open spec fn note_text(kind: Seq<char>, channel: u8, key: u8, vel: u8) -> Seq<char> {
    "Ch: "@ + decimal(channel as nat) + " "@ + kind + ": "@ + note_name(key) + " Vel: "@ + decimal(
        vel as nat,
    )
}

/// Writes out what tells of a note message.
fn fmt_note(kind: &str, channel: u8, key: u8, vel: u8) -> (text: String)
    ensures
        text@ == note_text(kind@, channel, key, vel),
{
    let mut text = "Ch: ".to_owned();
    push_decimal(&mut text, channel);
    text.append(" ");
    text.append(kind);
    text.append(": ");
    push_note_name(&mut text, key);
    text.append(" Vel: ");
    push_decimal(&mut text, vel);
    text
}

impl OwnedLiveEvent {
    /// Whether every value is in the range of its field: a channel is below
    /// 16, and the message is well formed.
    pub open spec fn well_formed(&self) -> bool {
        match *self {
            OwnedLiveEvent::Midi { channel, message } => channel < 16 && message.well_formed(),
            OwnedLiveEvent::Common(common) => common.well_formed(),
            OwnedLiveEvent::Realtime(_) => true,
        }
    }

    /// The text that tells of the event where it is a note going on or off
    /// or the pressure on a note; other events have no such text.
    pub open spec fn note_description(&self) -> Option<Seq<char>> {
        match *self {
            OwnedLiveEvent::Midi { channel, message: ChannelVoice::NoteOff { key, vel } } => Some(
                note_text("NoteOff"@, channel, key, vel),
            ),
            OwnedLiveEvent::Midi { channel, message: ChannelVoice::NoteOn { key, vel } } => Some(
                note_text("NoteOn"@, channel, key, vel),
            ),
            OwnedLiveEvent::Midi { channel, message: ChannelVoice::Aftertouch { key, vel } } => Some(
                note_text("Aftertouch"@, channel, key, vel),
            ),
            _ => None,
        }
    }

    /// A Note On event. Of `channel` the low four bits count, of `key` and
    /// `vel` the low seven.
    pub fn note_on(channel: u8, key: u8, vel: u8) -> (event: OwnedLiveEvent)
        ensures
            event == (OwnedLiveEvent::Midi {
                channel: channel & 0x0F,
                message: ChannelVoice::NoteOn { key: key & 0x7F, vel: vel & 0x7F },
            }),
            event.well_formed(),
    {
        assert(channel & 0x0F < 16) by (bit_vector);
        assert(key & 0x7F < 128) by (bit_vector);
        assert(vel & 0x7F < 128) by (bit_vector);
        OwnedLiveEvent::Midi {
            channel: u4_lossy(channel),
            message: ChannelVoice::NoteOn { key: u7_lossy(key), vel: u7_lossy(vel) },
        }
    }

    /// A Note Off event. Of `channel` the low four bits count, of `key` and
    /// `vel` the low seven.
    pub fn note_off(channel: u8, key: u8, vel: u8) -> (event: OwnedLiveEvent)
        ensures
            event == (OwnedLiveEvent::Midi {
                channel: channel & 0x0F,
                message: ChannelVoice::NoteOff { key: key & 0x7F, vel: vel & 0x7F },
            }),
            event.well_formed(),
    {
        assert(channel & 0x0F < 16) by (bit_vector);
        assert(key & 0x7F < 128) by (bit_vector);
        assert(vel & 0x7F < 128) by (bit_vector);
        OwnedLiveEvent::Midi {
            channel: u4_lossy(channel),
            message: ChannelVoice::NoteOff { key: u7_lossy(key), vel: u7_lossy(vel) },
        }
    }

    /// The text that tells of the event, where it is about a note.
    pub fn describe_note(&self) -> (text: Option<String>)
        ensures
            text is Some <==> self.note_description() is Some,
            text is Some ==> text.unwrap()@ == self.note_description().unwrap(),
    {
        match self {
            OwnedLiveEvent::Midi { channel, message } => match message {
                ChannelVoice::NoteOff { key, vel } => Some(
                    fmt_note("NoteOff", *channel, *key, *vel),
                ),
                ChannelVoice::NoteOn { key, vel } => Some(fmt_note("NoteOn", *channel, *key, *vel)),
                ChannelVoice::Aftertouch { key, vel } => Some(
                    fmt_note("Aftertouch", *channel, *key, *vel),
                ),
                _ => None,
            },
            _ => None,
        }
    }
}

} // verus!
