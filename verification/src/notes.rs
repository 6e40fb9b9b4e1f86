//! Names of musical notes.

use crate::text::{decimal, push_decimal};
use vstd::prelude::*;
use vstd::string::StringExecFns;

verus! {

/// The names of the twelve pitch classes of an octave, from C upwards.
pub const KEY_RANGE: [&'static str; 12] = [
    "C", "C#/Db", "D", "D#/Eb", "E", "F", "F#/Gb", "G", "G#/Ab", "A", "A#/Bb", "B",
];

/// The name of the pitch class of `key`.
pub open spec fn pitch_class_name(key: u8) -> Seq<char> {
    KEY_RANGE[key as int % 12]@
}

/// The name of `key`: its pitch class and the number of its octave, counted
/// from the lowest key. Key 60 is `C5`.
pub open spec fn note_name(key: u8) -> Seq<char> {
    pitch_class_name(key) + decimal(key as nat / 12)
}

/// The name of the pitch class of `key`.
pub fn key_name(key: u8) -> (name: &'static str)
    ensures
        name@ == pitch_class_name(key),
{
    let class: usize = (key % 12) as usize;
    KEY_RANGE[class]
}

/// The number of the octave of `key`, counted from the lowest key.
pub fn octave(key: u8) -> (number: u8)
    ensures
        number == key / 12,
        number <= 21,
{
    key / 12
}

/// Writes the name of `key` at the end of `text`.
pub fn push_note_name(text: &mut String, key: u8)
    ensures
        final(text)@ == old(text)@ + note_name(key),
{
    text.append(key_name(key));
    push_decimal(text, octave(key));
}

} // verus!
