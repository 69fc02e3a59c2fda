//! The three vocabularies a script is addressed with: the event it is run
//! for, the lifecycle action under way, and the state that action has reached.

use vstd::prelude::*;
use vstd::string::*;

verus! {

/// The phase of the protocol a script is run for.
#[derive(Clone, Copy, Debug, PartialEq, Eq, Structural)]
pub enum Event {
    Pre,
    Post,
    Notify,
    Get,
}

/// The lifecycle operation being performed on the device.
#[derive(Clone, Copy, Debug, PartialEq, Eq, Structural)]
pub enum Action {
    Start,
    Stop,
    Define,
    Undefine,
    Modify,
    Attributes,
}

/// What has become of the action so far.
#[derive(Clone, Copy, Debug, PartialEq, Eq, Structural)]
pub enum State {
    /// The action has not run, or never will.
    NotRun,
    Success,
    Failure,
}

impl Event {
    /// The word a script receives after `-e`.
    pub open spec fn token(self) -> Seq<char> {
        match self {
            Event::Pre => "pre"@,
            Event::Post => "post"@,
            Event::Notify => "notify"@,
            Event::Get => "get"@,
        }
    }

    /// The token as a string of its own.
    pub fn to_string(&self) -> (s: String)
        ensures
            s@ == self.token(),
    {
        match self {
            Event::Pre => String::from_str("pre"),
            Event::Post => String::from_str("post"),
            Event::Notify => String::from_str("notify"),
            Event::Get => String::from_str("get"),
        }
    }
}

impl Action {
    /// The word a script receives after `-a`.
    pub open spec fn token(self) -> Seq<char> {
        match self {
            Action::Start => "start"@,
            Action::Stop => "stop"@,
            Action::Define => "define"@,
            Action::Undefine => "undefine"@,
            Action::Modify => "modify"@,
            Action::Attributes => "attributes"@,
        }
    }

    /// The token as a string of its own.
    pub fn to_string(&self) -> (s: String)
        ensures
            s@ == self.token(),
    {
        match self {
            Action::Start => String::from_str("start"),
            Action::Stop => String::from_str("stop"),
            Action::Define => String::from_str("define"),
            Action::Undefine => String::from_str("undefine"),
            Action::Modify => String::from_str("modify"),
            Action::Attributes => String::from_str("attributes"),
        }
    }
}

impl State {
    /// The word a script receives after `-s`.
    pub open spec fn token(self) -> Seq<char> {
        match self {
            State::NotRun => "none"@,
            State::Success => "success"@,
            State::Failure => "failure"@,
        }
    }

    /// The token as a string of its own.
    pub fn to_string(&self) -> (s: String)
        ensures
            s@ == self.token(),
    {
        match self {
            State::NotRun => String::from_str("none"),
            State::Success => String::from_str("success"),
            State::Failure => String::from_str("failure"),
        }
    }
}

/// A script can tell from the token which event it is run for: no two
/// events share a token.
pub proof fn law_event_tokens_differ(a: Event, b: Event)
    requires
        a != b,
    ensures
        a.token() != b.token(),
{
    reveal_strlit("pre");
    reveal_strlit("post");
    reveal_strlit("notify");
    reveal_strlit("get");
    assert(a.token().len() != b.token().len() || a.token()[0] != b.token()[0]);
}

/// No two actions share a token.
pub proof fn law_action_tokens_differ(a: Action, b: Action)
    requires
        a != b,
    ensures
        a.token() != b.token(),
{
    reveal_strlit("start");
    reveal_strlit("stop");
    reveal_strlit("define");
    reveal_strlit("undefine");
    reveal_strlit("modify");
    reveal_strlit("attributes");
    assert(a.token().len() != b.token().len() || a.token()[0] != b.token()[0]);
}

/// No two states share a token.
pub proof fn law_state_tokens_differ(a: State, b: State)
    requires
        a != b,
    ensures
        a.token() != b.token(),
{
    reveal_strlit("none");
    reveal_strlit("success");
    reveal_strlit("failure");
    assert(a.token().len() != b.token().len() || a.token()[0] != b.token()[0]);
}

} // verus!
