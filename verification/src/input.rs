//! The input encoder: from a key press to the bytes that the shell expects.

use vstd::prelude::*;
use vstd::slice::slice_to_vec;
use vstd::utf8::encode_utf8;

verus! {

/// A key that was pressed, whatever the windowing toolkit calls it.
#[derive(Clone, Debug, PartialEq, Eq)]
pub enum KeyPress {
    /// A key that produces text.
    Character(String),
    Enter,
    Backspace,
    Space,
    ArrowLeft,
    ArrowRight,
    ArrowUp,
    ArrowDown,
    /// Any other key.
    Other,
}

/// The bytes that a key press sends to the shell, or nothing for a key that
/// is ignored. Text goes out in UTF-8, Enter as a carriage return, Backspace
/// as the delete byte, Space as a blank, and an arrow as the escape sequence
/// that moves the cursor its way.
pub open spec fn key_bytes(key: KeyPress) -> Option<Seq<u8>> {
    match key {
        KeyPress::Character(text) => Some(encode_utf8(text@)),
        KeyPress::Enter => Some(seq![0x0Du8]),
        KeyPress::Backspace => Some(seq![0x7Fu8]),
        KeyPress::Space => Some(seq![0x20u8]),
        KeyPress::ArrowLeft => Some(seq![0x1Bu8, 0x5Bu8, 0x44u8]),
        KeyPress::ArrowRight => Some(seq![0x1Bu8, 0x5Bu8, 0x43u8]),
        KeyPress::ArrowUp => Some(seq![0x1Bu8, 0x5Bu8, 0x41u8]),
        KeyPress::ArrowDown => Some(seq![0x1Bu8, 0x5Bu8, 0x42u8]),
        KeyPress::Other => None,
    }
}

/// The escape sequence of an arrow key: the escape byte, `[` and `letter`.
fn arrow(letter: u8) -> (bytes: Vec<u8>)
    ensures
        bytes@ == seq![0x1Bu8, 0x5Bu8, letter],
{
    let mut bytes: Vec<u8> = Vec::new();
    bytes.push(0x1B);
    bytes.push(0x5B);
    bytes.push(letter);
    assert(bytes@ =~= seq![0x1Bu8, 0x5Bu8, letter]);
    bytes
}

/// One byte as a sequence.
fn single(byte: u8) -> (bytes: Vec<u8>)
    ensures
        bytes@ == seq![byte],
{
    let mut bytes: Vec<u8> = Vec::new();
    bytes.push(byte);
    assert(bytes@ =~= seq![byte]);
    bytes
}

/// The bytes to write to the shell for the key press `key`, or nothing if
/// the key is ignored.
pub fn encode_key(key: &KeyPress) -> (bytes: Option<Vec<u8>>)
    ensures
        bytes is Some <==> key_bytes(*key) is Some,
        bytes matches Some(sent) ==> sent@ == key_bytes(*key)->0,
{
    match key {
        KeyPress::Character(text) => Some(slice_to_vec(text.as_str().as_bytes())),
        KeyPress::Enter => Some(single(0x0D)),
        KeyPress::Backspace => Some(single(0x7F)),
        KeyPress::Space => Some(single(0x20)),
        KeyPress::ArrowLeft => Some(arrow(0x44)),
        KeyPress::ArrowRight => Some(arrow(0x43)),
        KeyPress::ArrowUp => Some(arrow(0x41)),
        KeyPress::ArrowDown => Some(arrow(0x42)),
        KeyPress::Other => None,
    }
}

} // verus!
