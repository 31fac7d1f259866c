//! The state that a status answer reports.

use vstd::prelude::*;
use vstd::string::*;

verus! {

/// The state of the model slot as the wire contract knows it.
#[derive(Clone, Copy, Debug, PartialEq, Eq, Structural, Hash)]
pub enum State {
    Uninitialized,
    Busy,
    Ready,
    Error,
}

impl State {
    /// The number that stands for the state on the wire.
    pub open spec fn number(self) -> int {
        match self {
            State::Uninitialized => 0,
            State::Busy => 1,
            State::Ready => 2,
            State::Error => -1,
        }
    }

    /// The name that stands for the state in the interface definition.
    pub open spec fn name(self) -> Seq<char> {
        match self {
            State::Uninitialized => "UNINITIALIZED"@,
            State::Busy => "BUSY"@,
            State::Ready => "READY"@,
            State::Error => "ERROR"@,
        }
    }

    /// The state that a number stands for, if it stands for one.
    pub open spec fn with_number(number: int) -> Option<State> {
        if number == 0 {
            Some(State::Uninitialized)
        } else if number == 1 {
            Some(State::Busy)
        } else if number == 2 {
            Some(State::Ready)
        } else if number == -1 {
            Some(State::Error)
        } else {
            None
        }
    }

    /// The number of the state.
    pub fn as_i32(&self) -> (n: i32)
        ensures
            n == self.number(),
    {
        match self {
            State::Uninitialized => 0,
            State::Busy => 1,
            State::Ready => 2,
            State::Error => -1,
        }
    }

    /// The state with the given number, if there is one.
    pub fn from_i32(value: i32) -> (state: Option<State>)
        ensures
            state == State::with_number(value as int),
    {
        if value == 0 {
            Some(State::Uninitialized)
        } else if value == 1 {
            Some(State::Busy)
        } else if value == 2 {
            Some(State::Ready)
        } else if value == -1 {
            Some(State::Error)
        } else {
            None
        }
    }

    /// The name of the state, unchanged from the interface definition.
    pub fn as_str_name(&self) -> (name: &'static str)
        ensures
            name@ == self.name(),
    {
        match self {
            State::Uninitialized => "UNINITIALIZED",
            State::Busy => "BUSY",
            State::Ready => "READY",
            State::Error => "ERROR",
        }
    }

    /// The state with the given name, if there is one.
    pub fn from_str_name(value: &str) -> (state: Option<State>)
        ensures
            forall|s: State| #[trigger] s.name() == value@ ==> state == Some(s),
            state matches Some(s) ==> s.name() == value@,
    {
        let name = value.to_owned();
        let state = if name == String::from_str("UNINITIALIZED") {
            Some(State::Uninitialized)
        } else if name == String::from_str("BUSY") {
            Some(State::Busy)
        } else if name == String::from_str("READY") {
            Some(State::Ready)
        } else if name == String::from_str("ERROR") {
            Some(State::Error)
        } else {
            None
        };
        proof {
            assert forall|s: State| #[trigger] s.name() == value@ implies state == Some(s) by {
                if state is Some {
                    lemma_state_codes_distinct(s, state->0);
                }
            }
        }
        state
    }
}

/// No two states share a number or a name, so a state is recovered from
/// either.
pub proof fn lemma_state_codes_distinct(a: State, b: State)
    ensures
        a.number() == b.number() ==> a == b,
        a.name() == b.name() ==> a == b,
        State::with_number(a.number()) == Some(a),
{
    reveal_strlit("UNINITIALIZED");
    reveal_strlit("BUSY");
    reveal_strlit("READY");
    reveal_strlit("ERROR");
    if a != b && a.name() == b.name() {
        assert(a.name().len() == b.name().len());
        assert(a.name()[0] == b.name()[0]);
    }
}

} // verus!
