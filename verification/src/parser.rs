//! The escape-sequence parser and the recorder of what it decodes.
//!
//! The byte stream is decoded by the parser of the `vte` crate, a state
//! machine that reports every decoded unit through a callback. The
//! [`Recorder`] turns each callback into an [`Action`] and keeps them in the
//! order in which they came.

use crate::action::{Action, ActionView};
use vstd::prelude::*;
use vstd::slice::slice_to_vec;
use vte::Perform;

verus! {

/// The parser of `vte`, which is opaque here.
#[verifier::external_type_specification]
#[verifier::external_body]
pub struct ExParser<const OSC_RAW_BUF_SIZE: usize>(vte::Parser<OSC_RAW_BUF_SIZE>);

/// The parameter list that `vte` hands to a callback, which is opaque here.
#[verifier::external_type_specification]
#[verifier::external_body]
pub struct ExParams(vte::Params);

/// The chunks of bytes that `parser` was advanced over since it was made,
/// oldest first. The state of the parser depends on nothing else.
pub uninterp spec fn fed(parser: vte::Parser) -> Seq<Seq<u8>>;

/// The actions that `vte::Parser::advance` reports for `bytes` when the
/// parser was advanced over the chunks `fed` before.
pub uninterp spec fn decoded(fed: Seq<Seq<u8>>, bytes: Seq<u8>) -> Seq<ActionView>;

/// The parameters that `params` holds, in order, each as the sequence of its
/// value and its subparameters: what `vte::Params::iter` yields.
pub uninterp spec fn params_values(params: vte::Params) -> Seq<Seq<u16>>;

/// Calls `vte::Parser::new`: a parser that was advanced over nothing yet.
#[verifier::external_body]
pub(crate) fn new_parser() -> (parser: vte::Parser)
    ensures
        fed(parser) == Seq::<Seq<u8>>::empty(),
{
    vte::Parser::new()
}

/// Collects what `vte::Params::iter` yields: each parameter with its
/// subparameters, in order.
#[verifier::external_body]
pub(crate) fn params_to_vec(params: &vte::Params) -> (values: Vec<Vec<u16>>)
    ensures
        values.deep_view() == params_values(*params),
{
    params.iter().map(|param| param.to_vec()).collect()
}

/// Calls `vte::Parser::advance` on `bytes` with a fresh [`Recorder`] and
/// returns what it recorded: the actions that the parser decoded from
/// `bytes` in the state that the earlier chunks left it in. The parser has
/// then been advanced over one chunk more.
#[verifier::external_body]
pub(crate) fn decode(parser: &mut vte::Parser, bytes: &[u8]) -> (actions: Vec<Action>)
    ensures
        fed(*final(parser)) == fed(*old(parser)).push(bytes@),
        actions.deep_view() == decoded(fed(*old(parser)), bytes@),
{
    let mut recorder = Recorder::new();
    parser.advance(&mut recorder, bytes);
    recorder.into_actions()
}

/// The views of the byte strings in `params`.
pub open spec fn byte_strings(params: Seq<&[u8]>) -> Seq<Seq<u8>> {
    Seq::new(params.len(), |i: int| params[i]@)
}

/// A performer that does nothing but keep the actions it is asked to
/// perform.
pub struct Recorder {
    actions: Vec<Action>,
}

impl Recorder {
    /// The actions recorded so far, oldest first.
    pub closed spec fn recorded(self) -> Seq<ActionView> {
        self.actions.deep_view()
    }

    /// A recorder that has recorded nothing.
    pub fn new() -> (recorder: Recorder)
        ensures
            recorder.recorded() == Seq::<ActionView>::empty(),
    {
        let recorder = Recorder { actions: Vec::new() };
        assert(recorder.recorded() =~= Seq::<ActionView>::empty());
        recorder
    }

    /// The actions recorded, oldest first.
    pub fn into_actions(self) -> (actions: Vec<Action>)
        ensures
            actions.deep_view() == self.recorded(),
    {
        self.actions
    }

    /// Records `action` after the others.
    fn record(&mut self, action: Action)
        ensures
            final(self).recorded() == old(self).recorded().push(action.deep_view()),
    {
        self.actions.push(action);
        assert(self.recorded() =~= old(self).recorded().push(action.deep_view()));
    }
}

impl Perform for Recorder {
    fn print(&mut self, c: char)
        ensures
            final(self).recorded() == old(self).recorded().push(ActionView::Print(c)),
    {
        self.record(Action::Print(c));
    }

    fn execute(&mut self, byte: u8)
        ensures
            final(self).recorded() == old(self).recorded().push(ActionView::Execute(byte)),
    {
        self.record(Action::Execute(byte));
    }

    fn hook(&mut self, params: &vte::Params, intermediates: &[u8], ignore: bool, action: char)
        ensures
            final(self).recorded() == old(self).recorded().push(
                ActionView::Hook {
                    params: params_values(*params),
                    intermediates: intermediates@,
                    ignore,
                    action,
                },
            ),
    {
        let params = params_to_vec(params);
        let intermediates = slice_to_vec(intermediates);
        self.record(Action::Hook { params, intermediates, ignore, action });
    }

    fn put(&mut self, byte: u8)
        ensures
            final(self).recorded() == old(self).recorded().push(ActionView::Put(byte)),
    {
        self.record(Action::Put(byte));
    }

    fn unhook(&mut self)
        ensures
            final(self).recorded() == old(self).recorded().push(ActionView::Unhook),
    {
        self.record(Action::Unhook);
    }

    fn osc_dispatch(&mut self, params: &[&[u8]], bell_terminated: bool)
        ensures
            final(self).recorded() == old(self).recorded().push(
                ActionView::OscDispatch { parts: byte_strings(params@), bell_terminated },
            ),
    {
        let mut copied: Vec<Vec<u8>> = Vec::new();
        let mut i: usize = 0;
        while i < params.len()
            invariant
                i <= params.len(),
                copied.len() == i,
                forall|j: int| 0 <= j < i ==> (#[trigger] copied[j])@ == params@[j]@,
            decreases params.len() - i,
        {
            copied.push(slice_to_vec(params[i]));
            i += 1;
        }
        assert(copied.deep_view() =~~= byte_strings(params@));
        self.record(Action::OscDispatch { parts: copied, bell_terminated });
    }

    fn csi_dispatch(
        &mut self,
        params: &vte::Params,
        intermediates: &[u8],
        ignore: bool,
        action: char,
    )
        ensures
            final(self).recorded() == old(self).recorded().push(
                ActionView::CsiDispatch {
                    params: params_values(*params),
                    intermediates: intermediates@,
                    ignore,
                    action,
                },
            ),
    {
        let params = params_to_vec(params);
        let intermediates = slice_to_vec(intermediates);
        self.record(Action::CsiDispatch { params, intermediates, ignore, action });
    }

    fn esc_dispatch(&mut self, intermediates: &[u8], ignore: bool, byte: u8)
        ensures
            final(self).recorded() == old(self).recorded().push(
                ActionView::EscDispatch { intermediates: intermediates@, ignore, byte },
            ),
    {
        let intermediates = slice_to_vec(intermediates);
        self.record(Action::EscDispatch { intermediates, ignore, byte });
    }

    fn terminated(&self) -> (stop: bool)
        ensures
            !stop,
    {
        false
    }
}

} // verus!
