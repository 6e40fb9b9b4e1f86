//! The three-byte channel-voice message.

use crate::text::{decimal, push_decimal};
use vstd::prelude::*;
use vstd::string::StringExecFns;

verus! {

/// Status nibble of a Note On message.
pub const NOTE_ON: u8 = 0x90;

/// Status nibble of a Note Off message.
pub const NOTE_OFF: u8 = 0x80;

/// The bits of the status byte that hold the message type.
pub const TYPE_MASK: u8 = 0xF0;

/// The bits of the status byte that hold the channel.
pub const CHANNEL_MASK: u8 = 0x0F;

/// A channel-voice message as it travels on the wire: `[status, data1, data2]`.
///
/// The high nibble of the status byte is the message type, the low nibble
/// the channel.
#[derive(Clone, Copy, Debug, PartialEq, Eq, Hash)]
pub struct MidiMessage {
    pub msg: [u8; 3],
}

impl View for MidiMessage {
    type V = Seq<u8>;

    open spec fn view(&self) -> Seq<u8> {
        self.msg@
    }
}

impl MidiMessage {
    /// The status byte.
    pub open spec fn status(&self) -> u8 {
        self.msg[0]
    }

    /// Whether the type nibble says Note On.
    pub open spec fn spec_is_note_on(&self) -> bool {
        self.status() & TYPE_MASK == NOTE_ON
    }

    /// Whether the type nibble says Note Off.
    pub open spec fn spec_is_note_off(&self) -> bool {
        self.status() & TYPE_MASK == NOTE_OFF
    }

    /// The channel, the low nibble of the status byte.
    pub open spec fn spec_channel(&self) -> u8 {
        self.status() & CHANNEL_MASK
    }

    /// The three bytes as a list of decimal numbers: `[144, 60, 127]`.
    pub open spec fn raw_text(&self) -> Seq<char> {
        "["@ + decimal(self.msg[0] as nat) + ", "@ + decimal(self.msg[1] as nat) + ", "@ + decimal(
            self.msg[2] as nat,
        ) + "]"@
    }

    /// The message as debug output shows it:
    /// `MidiMessage { msg: [144, 60, 127] }`.
    pub open spec fn debug_text(&self) -> Seq<char> {
        "MidiMessage { msg: "@ + self.raw_text() + " }"@
    }

    /// Whether this is a Note On: the type nibble of the status byte is
    /// `1001`, which is to say that the byte lies in `0x90..=0x9F`.
    #[verifier::when_used_as_spec(spec_is_note_on)]
    pub fn is_note_on(&self) -> (b: bool)
        ensures
            b == ((self.msg[0] & 0xF0) == 0x90),
            b == (0x90 <= self.msg[0] <= 0x9F),
    {
        let status: u8 = self.msg[0];
        assert((status & 0xF0 == 0x90) <==> (0x90 <= status && status <= 0x9F)) by (bit_vector);
        (status & TYPE_MASK) == NOTE_ON
    }

    /// Whether this is a Note Off: the type nibble of the status byte is
    /// `1000`, which is to say that the byte lies in `0x80..=0x8F`.
    #[verifier::when_used_as_spec(spec_is_note_off)]
    pub fn is_note_off(&self) -> (b: bool)
        ensures
            b == ((self.msg[0] & 0xF0) == 0x80),
            b == (0x80 <= self.msg[0] <= 0x8F),
    {
        let status: u8 = self.msg[0];
        assert((status & 0xF0 == 0x80) <==> (0x80 <= status && status <= 0x8F)) by (bit_vector);
        (status & TYPE_MASK) == NOTE_OFF
    }

    /// The channel, `0..=15`: the low nibble of the status byte.
    #[verifier::when_used_as_spec(spec_channel)]
    pub fn channel(&self) -> (c: u8)
        ensures
            c == self.msg[0] & 0x0F,
            c == self.msg[0] % 16,
            c < 16,
    {
        let status: u8 = self.msg[0];
        assert(status & 0x0F == status % 16) by (bit_vector);
        status & CHANNEL_MASK
    }

    /// Writes the three bytes as a list of decimal numbers at the end of
    /// `text`.
    pub fn push_raw(&self, text: &mut String)
        ensures
            final(text)@ == old(text)@ + self.raw_text(),
    {
        text.append("[");
        push_decimal(text, self.msg[0]);
        text.append(", ");
        push_decimal(text, self.msg[1]);
        text.append(", ");
        push_decimal(text, self.msg[2]);
        text.append("]");
    }

    /// Writes the message as debug output shows it at the end of `text`.
    pub fn push_debug(&self, text: &mut String)
        ensures
            final(text)@ == old(text)@ + self.debug_text(),
    {
        text.append("MidiMessage { msg: ");
        self.push_raw(text);
        text.append(" }");
    }
}

impl From<[u8; 3]> for MidiMessage {
    fn from(msg: [u8; 3]) -> (m: MidiMessage) {
        MidiMessage { msg }
    }
}

impl vstd::std_specs::convert::FromSpecImpl<[u8; 3]> for MidiMessage {
    open spec fn obeys_from_spec() -> bool {
        true
    }

    open spec fn from_spec(msg: [u8; 3]) -> MidiMessage {
        MidiMessage { msg }
    }
}

/// A message is a Note On exactly when its status byte lies in
/// `0x90..=0x9F`, and a Note Off exactly when it lies in `0x80..=0x8F`.
pub proof fn lemma_note_status_ranges(m: MidiMessage)
    ensures
        m.is_note_on() <==> 0x90 <= m.status() <= 0x9F,
        m.is_note_off() <==> 0x80 <= m.status() <= 0x8F,
{
    let s = m.status();
    assert((s & 0xF0 == 0x90) <==> (0x90 <= s && s <= 0x9F)) by (bit_vector);
    assert((s & 0xF0 == 0x80) <==> (0x80 <= s && s <= 0x8F)) by (bit_vector);
}

/// No message is both a Note On and a Note Off.
pub proof fn lemma_note_on_off_exclusive(m: MidiMessage)
    ensures
        !(m.is_note_on() && m.is_note_off()),
{
}

/// The two data bytes play no part in the decoding of the message type.
pub proof fn lemma_type_depends_on_status_only(a: MidiMessage, b: MidiMessage)
    requires
        a.status() == b.status(),
    ensures
        a.is_note_on() == b.is_note_on(),
        a.is_note_off() == b.is_note_off(),
        a.spec_channel() == b.spec_channel(),
{
}

} // verus!
