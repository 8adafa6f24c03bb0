//! The update router and the session store: each chat's state, read before
//! an update and written back once the update has been handled.

use std::collections::HashMap;
use vstd::prelude::*;

use crate::codec::{decode, decode_spec};
use crate::command::{parse, parse_spec, ParseError, ParseErrorView};
use crate::engine::{
    accepts, advance, advance_spec, lemma_confinement, replies_view, unchanged_exec, CANCEL, say, unchanged, ChatState, ChatStateView, Input,
    InputView, Reply, Step, StepView,
};
use crate::settle::{finish, finish_spec, Outcome};

verus! {

broadcast use vstd::std_specs::hash::group_hash_axioms;

/// An update as the transport delivers it.
#[derive(Clone, Debug, PartialEq, Eq)]
pub enum Update {
    Text(String),
    /// A photo, by the transport's file reference.
    Photo(String),
    /// A button press, with its callback token.
    Callback(String),
    Other,
}

pub enum UpdateView {
    Text(Seq<char>),
    Photo(Seq<char>),
    Callback(Seq<char>),
    Other,
}

impl View for Update {
    type V = UpdateView;

    open spec fn view(&self) -> UpdateView {
        match self {
            Update::Text(t) => UpdateView::Text(t@),
            Update::Photo(f) => UpdateView::Photo(f@),
            Update::Callback(t) => UpdateView::Callback(t@),
            Update::Other => UpdateView::Other,
        }
    }
}

/// How an update is handled in a state. A button press is decoded and goes
/// to the engine; a token that does not decode is ignored. A text in `Idle`
/// is parsed as a command, and a usage error is answered with its hint;
/// during a flow the text goes to the engine as it stands.
pub open spec fn route_spec(s: ChatStateView, u: UpdateView) -> StepView {
    match u {
        UpdateView::Callback(tok) => match decode_spec(tok) {
            Ok((dm, id, verb)) => advance_spec(s, InputView::Callback(dm, id, verb)),
            Err(_) => unchanged(s),
        },
        UpdateView::Text(t) => match s {
            ChatStateView::Idle => match parse_spec(t) {
                Ok(c) => advance_spec(s, InputView::Command(c)),
                Err(ParseErrorView::TooFewArguments(h)) => say(s, h),
                Err(ParseErrorView::InvalidArgument(h)) => say(s, h),
                Err(_) => unchanged(s),
            },
            _ => advance_spec(s, InputView::Text(t)),
        },
        UpdateView::Photo(f) => advance_spec(s, InputView::Photo(f)),
        UpdateView::Other => advance_spec(s, InputView::Other),
    }
}

/// Routes one update of a chat in state `s`.
pub fn route(s: &ChatState, u: &Update) -> (r: Step)
    ensures
        r@ == route_spec(s@, u@),
{
    match u {
        Update::Callback(tok) => match decode(tok.as_str()) {
            Ok(a) => advance(s, &Input::Callback(a)),
            Err(_) => unchanged_exec(s.duplicate()),
        },
        Update::Text(t) => match s {
            ChatState::Idle => match parse(t.as_str()) {
                Ok(c) => advance(s, &Input::Command(c)),
                Err(ParseError::TooFewArguments(h)) => hint_step(h),
                Err(ParseError::InvalidArgument(h)) => hint_step(h),
                Err(_) => unchanged_exec(ChatState::Idle),
            },
            _ => advance(s, &Input::Text(t.clone())),
        },
        Update::Photo(f) => advance(s, &Input::Photo(f.clone())),
        Update::Other => advance(s, &Input::Other),
    }
}

fn hint_step(h: String) -> (r: Step)
    ensures
        r@ == say(ChatStateView::Idle, h@),
{
    let mut replies: Vec<Reply> = Vec::new();
    replies.push(Reply::Text(h));
    let r = Step { next: ChatState::Idle, replies, request: None };
    assert(replies_view(r.replies@) =~= seq![crate::engine::ReplyView::Text(h@)]);
    r
}

/// From any state of a flow, `/cancel` brings the chat back to `Idle`,
/// dropping what the flow had gathered, without asking anything of the
/// catalogue, whatever it would have answered.
pub proof fn lemma_cancel_ends_flow(s: ChatStateView, o: Outcome)
    requires
        !(s is Idle),
    ensures
        route_spec(s, UpdateView::Text(CANCEL@)).next == ChatStateView::Idle,
        route_spec(s, UpdateView::Text(CANCEL@)).request is None,
        finish_spec(s, route_spec(s, UpdateView::Text(CANCEL@)), o).0 == ChatStateView::Idle,
{
}

/// An input whose shape the state does not take leaves the chat's state as
/// it was once the step is complete, whatever the catalogue answers.
pub proof fn lemma_confinement_kept(s: ChatStateView, i: InputView, o: Outcome)
    requires
        !accepts(s, i),
    ensures
        finish_spec(s, advance_spec(s, i), o).0 == s,
{
    lemma_confinement(s, i);
}

/// A button press during a flow leaves the chat's state as it was.
pub proof fn lemma_press_during_flow(s: ChatStateView, tok: Seq<char>, o: Outcome)
    requires
        !(s is Idle),
    ensures
        finish_spec(s, route_spec(s, UpdateView::Callback(tok)), o).0 == s,
{
}

/// The state of `chat` in a table of states: `Idle` where it has none.
pub open spec fn state_of(m: Map<i64, ChatStateView>, chat: i64) -> ChatStateView {
    if m.contains_key(chat) {
        m[chat]
    } else {
        ChatStateView::Idle
    }
}

/// The table after `chat` enters `s`: an entry for `Idle` is dropped.
pub open spec fn with_state(m: Map<i64, ChatStateView>, chat: i64, s: ChatStateView) -> Map<i64, ChatStateView> {
    if s is Idle {
        m.remove(chat)
    } else {
        m.insert(chat, s)
    }
}

/// The state of every chat that is not `Idle`.
pub struct SessionStore {
    states: HashMap<i64, ChatState>,
}

impl View for SessionStore {
    type V = Map<i64, ChatStateView>;

    closed spec fn view(&self) -> Map<i64, ChatStateView> {
        self.states@.map_values(|s: ChatState| s@)
    }
}

impl SessionStore {
    /// A store in which every chat is `Idle`.
    pub fn new() -> (r: SessionStore)
        ensures
            r@ == Map::<i64, ChatStateView>::empty(),
    {
        let r = SessionStore { states: HashMap::new() };
        assert(r@ =~= Map::<i64, ChatStateView>::empty());
        r
    }

    /// The state of `chat`.
    pub fn get(&self, chat: i64) -> (r: ChatState)
        ensures
            r@ == state_of(self@, chat),
    {
        match self.states.get(&chat) {
            Some(s) => s.duplicate(),
            None => ChatState::Idle,
        }
    }

    /// Puts `chat` in state `s`, replacing its former state whole.
    pub fn set(&mut self, chat: i64, s: ChatState)
        ensures
            final(self)@ == with_state(old(self)@, chat, s@),
    {
        let ghost sv = s@;
        let idle = match s {
            ChatState::Idle => true,
            _ => false,
        };
        if idle {
            self.states.remove(&chat);
            assert(self@ =~= old(self)@.remove(chat));
        } else {
            self.states.insert(chat, s);
            assert(self@ =~= old(self)@.insert(chat, sv));
        }
    }

    /// Routes an update of `chat` in its current state.
    pub fn begin(&self, chat: i64, u: &Update) -> (r: Step)
        ensures
            r@ == route_spec(state_of(self@, chat), u@),
    {
        let s = self.get(chat);
        route(&s, u)
    }

    /// Completes a step of `chat` with the catalogue's answer: enters the
    /// state that follows and returns the replies to send. No other chat's
    /// state changes.
    pub fn commit(&mut self, chat: i64, step: Step, outcome: Outcome) -> (r: Vec<Reply>)
        ensures
            state_of(final(self)@, chat) == finish_spec(state_of(old(self)@, chat), step@, outcome).0,
            replies_view(r@) == finish_spec(state_of(old(self)@, chat), step@, outcome).1,
            forall|c: i64| c != chat ==> state_of(final(self)@, c) == state_of(old(self)@, c),
    {
        let current = self.get(chat);
        let (next, replies) = finish(&current, step, outcome);
        self.set(chat, next);
        replies
    }
}

} // verus!
