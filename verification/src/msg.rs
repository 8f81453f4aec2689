//! The application's closed message set. Every user or system intent is one
//! of these values; `update` handles each variant exhaustively, and a message
//! the application cannot meaningfully handle is the explicit no-op variant
//! rather than an error.

use vstd::prelude::*;

use crate::theme::ThemeMsg;

verus! {

/// One user or system intent, consumed exactly once by `update`.
#[derive(Debug, PartialEq)]
pub enum Msg {
    /// The explicit no-op: handled, changes nothing.
    Noop,
    /// A theme-picker message, lifted into the application's message set.
    ThemeMsg(ThemeMsg),
    /// Replace the name currently being typed.
    SetName(String),
    /// Append a new person built from the current name.
    NewPerson,
}

/// The mathematical value of a message.
pub enum MsgV {
    Noop,
    ThemeMsg(ThemeMsg),
    SetName(Seq<char>),
    NewPerson,
}

impl View for Msg {
    type V = MsgV;

    open spec fn view(&self) -> MsgV {
        match self {
            Msg::Noop => MsgV::Noop,
            Msg::ThemeMsg(m) => MsgV::ThemeMsg(*m),
            Msg::SetName(s) => MsgV::SetName(s@),
            Msg::NewPerson => MsgV::NewPerson,
        }
    }
}

/// The lifting of a theme-picker message into the application's message set:
/// any picker message can become a `Msg`, never the reverse.
impl From<ThemeMsg> for Msg {
    fn from(m: ThemeMsg) -> (r: Msg) {
        Msg::ThemeMsg(m)
    }
}

impl vstd::std_specs::convert::FromSpecImpl<ThemeMsg> for Msg {
    open spec fn obeys_from_spec() -> bool {
        true
    }

    open spec fn from_spec(m: ThemeMsg) -> Msg {
        Msg::ThemeMsg(m)
    }
}

/// The values of a sequence of messages, in order.
pub open spec fn msgs_view(s: Seq<Msg>) -> Seq<MsgV> {
    Seq::new(s.len(), |i: int| s[i]@)
}

/// A command: the description of zero or more pending asynchronous effects
/// which, once executed by the host, yield the listed messages, in order.
/// Issuing a command never itself mutates state; only the messages it later
/// produces do, through the same dispatch path as any other message.
#[derive(Debug, PartialEq)]
pub struct Command {
    msgs: Vec<Msg>,
}

impl View for Command {
    type V = Seq<MsgV>;

    closed spec fn view(&self) -> Seq<MsgV> {
        msgs_view(self.msgs@)
    }
}

impl Command {
    /// The empty command: no pending effect, no further messages.
    pub fn none() -> (r: Command)
        ensures
            r@ == Seq::<MsgV>::empty(),
    {
        let r = Command { msgs: Vec::new() };
        proof {
            assert(r@ =~= Seq::<MsgV>::empty());
        }
        r
    }

    /// A command that, once executed, yields the given messages in order.
    pub fn of_msgs(msgs: Vec<Msg>) -> (r: Command)
        ensures
            r@ == msgs_view(msgs@),
    {
        Command { msgs }
    }

    /// Hand out the messages this command produces, in order; executing a
    /// command consumes it.
    pub fn into_msgs(self) -> (r: Vec<Msg>)
        ensures
            msgs_view(r@) == self@,
    {
        self.msgs
    }
}

/// One document-level side effect: set an attribute on the document root.
/// This is the narrow presentation side channel outside the state-to-view
/// cycle, issued only from within `update`.
#[derive(Debug, PartialEq)]
pub struct Effect {
    pub attr: String,
    pub value: String,
}

/// The mathematical value of a side effect.
#[verifier::ext_equal]
pub struct EffectV {
    pub attr: Seq<char>,
    pub value: Seq<char>,
}

impl View for Effect {
    type V = EffectV;

    open spec fn view(&self) -> EffectV {
        EffectV { attr: self.attr@, value: self.value@ }
    }
}

/// The values of a sequence of side effects, in order.
pub open spec fn effects_view(s: Seq<Effect>) -> Seq<EffectV> {
    Seq::new(s.len(), |i: int| s[i]@)
}

} // verus!
