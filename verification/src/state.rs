//! The terminal as a whole: the parser and the engine that it drives.

use crate::cell::Color;
use crate::parser::{decode, decoded, fed, new_parser};
use crate::performer::{Performer, PerformerView};
use crate::screen::Screen;
use crate::utils::SomethingInFd;
use vstd::prelude::*;
use vstd::slice::slice_subrange;

verus! {

/// What a [`State`] is, as a mathematical value.
pub struct StateView {
    /// The engine.
    pub performer: PerformerView,
    /// The chunks of bytes that the parser has taken so far, oldest first.
    pub fed: Seq<Seq<u8>>,
}

impl StateView {
    /// The terminal at its start: an engine that has performed nothing and a
    /// parser that has taken nothing.
    pub open spec fn initial(performer: PerformerView) -> StateView {
        StateView { performer, fed: Seq::empty() }
    }

    /// After the parser took the chunk `bytes`: the engine has performed the
    /// actions that the parser decoded from it, up to the first that the
    /// visual cursor cannot follow.
    pub open spec fn feed(self, bytes: Seq<u8>) -> StateView {
        StateView {
            performer: self.performer.run_fitting(decoded(self.fed, bytes)),
            fed: self.fed.push(bytes),
        }
    }

    /// Whether the visual cursor can follow through all that the parser
    /// decodes from the chunk `bytes`.
    pub open spec fn feeds_whole(self, bytes: Seq<u8>) -> bool {
        self.performer.fits(decoded(self.fed, bytes))
    }
}

/// The terminal: the output of the shell goes in, chunk by chunk, and the
/// grid that a renderer draws comes out.
pub struct State {
    performer: Performer,
    parser: vte::Parser,
}

impl View for State {
    type V = StateView;

    closed spec fn view(&self) -> StateView {
        StateView { performer: self.performer@, fed: fed(self.parser) }
    }
}

impl State {
    /// A terminal that shows `screen` and prints in `font_color`, with a
    /// parser that has taken nothing yet.
    pub fn new(screen: Screen, font_color: Color) -> (state: State)
        ensures
            state@ == StateView::initial(PerformerView::initial(screen@, font_color)),
    {
        State { performer: Performer::new(screen, font_color), parser: new_parser() }
    }

    /// The engine, with the grid and the cursors.
    pub fn performer(&self) -> (performer: &Performer)
        ensures
            performer@ == self@.performer,
    {
        &self.performer
    }

    /// Takes the next chunk of the output of the shell: the parser decodes
    /// `bytes` and the engine performs each decoded action in turn, up to the
    /// first that the visual cursor cannot follow. Says whether all were
    /// performed.
    pub fn feed(&mut self, bytes: &[u8]) -> (complete: bool)
        ensures
            final(self)@ == old(self)@.feed(bytes@),
            complete == old(self)@.feeds_whole(bytes@),
            complete ==> final(self)@.performer == old(self)@.performer.run(
                decoded(old(self)@.fed, bytes@),
            ),
    {
        let actions = decode(&mut self.parser, bytes);
        self.performer.apply_all(&actions)
    }

    /// Takes a chunk that the session reader delivered: the first
    /// `number_of_elements_in_buffer` bytes of its buffer are fed to the
    /// terminal. Says whether all that they decode to was performed.
    pub fn user_event(&mut self, event: SomethingInFd) -> (complete: bool)
        requires
            event.number_of_elements_in_buffer <= event.buffer.len(),
        ensures
            final(self)@ == old(self)@.feed(
                event.buffer@.take(event.number_of_elements_in_buffer as int),
            ),
            complete == old(self)@.feeds_whole(
                event.buffer@.take(event.number_of_elements_in_buffer as int),
            ),
    {
        let bytes = slice_subrange(
            event.buffer.as_slice(),
            0,
            event.number_of_elements_in_buffer,
        );
        assert(bytes@ =~= event.buffer@.take(event.number_of_elements_in_buffer as int));
        self.feed(bytes)
    }

    /// Rebuilds the grid for a viewport of `screen_width × screen_height`
    /// pixels, if that holds at least one cell, and says whether it did.
    pub fn resize(&mut self, screen_width: u32, screen_height: u32) -> (resized: bool)
        ensures
            resized == old(self)@.performer.screen.fits(screen_width as int, screen_height as int),
            resized ==> final(self)@ == (StateView {
                performer: old(self)@.performer.resize(screen_width as int, screen_height as int),
                ..old(self)@
            }),
            !resized ==> final(self)@ == old(self)@,
    {
        self.performer.resize(screen_width, screen_height)
    }
}

} // verus!
