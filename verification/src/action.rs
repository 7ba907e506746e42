//! The actions that the escape-sequence parser decodes from a byte stream.

use vstd::prelude::*;

verus! {

/// One decoded unit of the byte stream that a shell writes to its terminal.
#[derive(Clone, Debug, PartialEq, Eq)]
pub enum Action {
    /// Draw a character.
    Print(char),
    /// Run a control function of one byte.
    Execute(u8),
    /// A device control string begins.
    Hook { params: Vec<Vec<u16>>, intermediates: Vec<u8>, ignore: bool, action: char },
    /// One byte of a device control string.
    Put(u8),
    /// The device control string ends.
    Unhook,
    /// An operating system command: its parts, and whether a bell ended it.
    OscDispatch { parts: Vec<Vec<u8>>, bell_terminated: bool },
    /// A control sequence: its parameters, each with its subparameters, its
    /// intermediate bytes, whether a part of it was dropped, and its final
    /// character.
    CsiDispatch { params: Vec<Vec<u16>>, intermediates: Vec<u8>, ignore: bool, action: char },
    /// An escape sequence.
    EscDispatch { intermediates: Vec<u8>, ignore: bool, byte: u8 },
}

/// What an [`Action`] is, as a mathematical value.
pub enum ActionView {
    Print(char),
    Execute(u8),
    Hook { params: Seq<Seq<u16>>, intermediates: Seq<u8>, ignore: bool, action: char },
    Put(u8),
    Unhook,
    OscDispatch { parts: Seq<Seq<u8>>, bell_terminated: bool },
    CsiDispatch { params: Seq<Seq<u16>>, intermediates: Seq<u8>, ignore: bool, action: char },
    EscDispatch { intermediates: Seq<u8>, ignore: bool, byte: u8 },
}

impl DeepView for Action {
    type V = ActionView;

    open spec fn deep_view(&self) -> ActionView {
        match *self {
            Action::Print(c) => ActionView::Print(c),
            Action::Execute(byte) => ActionView::Execute(byte),
            Action::Hook { params, intermediates, ignore, action } => ActionView::Hook {
                params: params.deep_view(),
                intermediates: intermediates@,
                ignore,
                action,
            },
            Action::Put(byte) => ActionView::Put(byte),
            Action::Unhook => ActionView::Unhook,
            Action::OscDispatch { parts, bell_terminated } => ActionView::OscDispatch {
                parts: parts.deep_view(),
                bell_terminated,
            },
            Action::CsiDispatch { params, intermediates, ignore, action } => {
                ActionView::CsiDispatch {
                    params: params.deep_view(),
                    intermediates: intermediates@,
                    ignore,
                    action,
                }
            },
            Action::EscDispatch { intermediates, ignore, byte } => ActionView::EscDispatch {
                intermediates: intermediates@,
                ignore,
                byte,
            },
        }
    }
}

impl View for Action {
    type V = ActionView;

    open spec fn view(&self) -> ActionView {
        self.deep_view()
    }
}

} // verus!
