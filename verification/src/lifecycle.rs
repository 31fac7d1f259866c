//! The lifecycle of the model slot: its states, the steps between them, and
//! what each state answers to a request.

use crate::error::{ErrorKind, ServiceError};
use crate::pb::status_response::State;
use vstd::prelude::*;

verus! {

/// Where the model slot stands in its life.
#[derive(Clone, Copy, Debug, PartialEq, Eq, Structural, Hash)]
pub enum LifecycleState {
    /// No model has been loaded, or the last one was released.
    Uninitialized,
    /// A load is outstanding.
    Loading,
    /// A model is held and idle.
    Ready,
    /// A request is executing against the held model.
    Busy,
    /// The last load or inference left no usable model.
    Error,
}

impl LifecycleState {
    /// Whether a slot in this state holds a model.
    pub open spec fn holds_model(self) -> bool {
        self == LifecycleState::Ready || self == LifecycleState::Busy
    }

    /// Whether a load may start in this state: neither a load nor an
    /// inference is running.
    pub open spec fn admits_load(self) -> bool {
        self != LifecycleState::Loading && self != LifecycleState::Busy
    }

    /// Why an inference cannot start in this state; `None` where it can.
    pub open spec fn refusal(self) -> Option<ErrorKind> {
        match self {
            LifecycleState::Ready => None,
            LifecycleState::Uninitialized | LifecycleState::Error => Some(
                ErrorKind::FailedPrecondition,
            ),
            LifecycleState::Loading | LifecycleState::Busy => Some(ErrorKind::Unavailable),
        }
    }

    /// The text that goes with a request turned away in this state.
    pub open spec fn refusal_message(self) -> Seq<char> {
        match self {
            LifecycleState::Loading => "a model load is in progress"@,
            LifecycleState::Busy => "another request is running against the model"@,
            _ => "no model loaded"@,
        }
    }

    /// The state that a status answer reports: a slot that is loading is
    /// busy to its callers.
    pub open spec fn reported(self) -> State {
        match self {
            LifecycleState::Uninitialized => State::Uninitialized,
            LifecycleState::Loading | LifecycleState::Busy => State::Busy,
            LifecycleState::Ready => State::Ready,
            LifecycleState::Error => State::Error,
        }
    }

    /// The steps of the lifecycle: a load starts from rest and ends in
    /// `Ready` or `Error`; an inference takes `Ready` to `Busy` and back, or
    /// to `Error`; a release takes `Ready` to `Uninitialized`.
    pub open spec fn steps_to(self, next: LifecycleState) -> bool {
        match (self, next) {
            (LifecycleState::Uninitialized, LifecycleState::Loading) => true,
            (LifecycleState::Ready, LifecycleState::Loading) => true,
            (LifecycleState::Error, LifecycleState::Loading) => true,
            (LifecycleState::Loading, LifecycleState::Ready) => true,
            (LifecycleState::Loading, LifecycleState::Error) => true,
            (LifecycleState::Ready, LifecycleState::Busy) => true,
            (LifecycleState::Busy, LifecycleState::Ready) => true,
            (LifecycleState::Busy, LifecycleState::Error) => true,
            (LifecycleState::Ready, LifecycleState::Uninitialized) => true,
            _ => false,
        }
    }

    /// Tells whether a slot in this state holds a model.
    pub fn has_model(&self) -> (b: bool)
        ensures
            b == self.holds_model(),
    {
        match self {
            LifecycleState::Ready => true,
            LifecycleState::Busy => true,
            _ => false,
        }
    }

    /// Tells whether a load may start in this state.
    pub fn can_load(&self) -> (b: bool)
        ensures
            b == self.admits_load(),
    {
        match self {
            LifecycleState::Loading => false,
            LifecycleState::Busy => false,
            _ => true,
        }
    }

    /// The error for an inference that arrives in this state; `None` where
    /// the inference may start.
    pub fn refuse(&self) -> (refused: Option<ServiceError>)
        ensures
            refused is Some <==> self.refusal() is Some,
            refused matches Some(e) ==> e.says(self.refusal()->0, self.refusal_message()),
    {
        match self {
            LifecycleState::Ready => None,
            LifecycleState::Uninitialized => Some(
                ServiceError::new(ErrorKind::FailedPrecondition, "no model loaded"),
            ),
            LifecycleState::Error => Some(
                ServiceError::new(ErrorKind::FailedPrecondition, "no model loaded"),
            ),
            LifecycleState::Loading => Some(
                ServiceError::new(ErrorKind::Unavailable, "a model load is in progress"),
            ),
            LifecycleState::Busy => Some(
                ServiceError::new(
                    ErrorKind::Unavailable,
                    "another request is running against the model",
                ),
            ),
        }
    }

    /// The state that a status answer reports for this one.
    pub fn wire_state(&self) -> (state: State)
        ensures
            state == self.reported(),
    {
        match self {
            LifecycleState::Uninitialized => State::Uninitialized,
            LifecycleState::Loading => State::Busy,
            LifecycleState::Busy => State::Busy,
            LifecycleState::Ready => State::Ready,
            LifecycleState::Error => State::Error,
        }
    }
}

/// A request is turned away for want of a model exactly in the states that
/// hold none and load none, and as unavailable exactly while a load or an
/// inference runs.
pub proof fn lemma_refusal_kinds(state: LifecycleState)
    ensures
        state.refusal() is None <==> state == LifecycleState::Ready,
        state.refusal() == Some(ErrorKind::Unavailable) <==> !state.admits_load(),
        state.refusal() == Some(ErrorKind::FailedPrecondition) <==> (state
            == LifecycleState::Uninitialized || state == LifecycleState::Error),
        state.refusal() matches Some(kind) ==> (kind.retryable() <==> !state.admits_load()),
{
}

/// `Error` is left only for `Loading`, and `Loading` only for `Ready` or
/// `Error`: nothing but a load that succeeds brings a failed slot back to
/// `Ready`.
pub proof fn lemma_error_left_only_by_load(next: LifecycleState)
    ensures
        LifecycleState::Error.steps_to(next) ==> next == LifecycleState::Loading,
        LifecycleState::Loading.steps_to(next) ==> next == LifecycleState::Ready || next
            == LifecycleState::Error,
{
}

} // verus!
