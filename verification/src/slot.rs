//! The model slot: at most one active model with the configuration it was
//! loaded from, and the lifecycle state that guards both.
//!
//! A slot is changed through `&mut`, so whoever holds it holds it alone; a
//! service that shares one among tasks puts it behind a lock.

use crate::error::{ErrorKind, ServiceError};
use crate::lifecycle::LifecycleState;
use crate::models::{corrupted, reports, ModelFault, LLM};
use crate::pb::{
    GenerateImageRequest, ModelOptions, PredictOptions, TokenizationResponse, TranscriptRequest,
    TranscriptResult, TtsRequest,
};
use vstd::prelude::*;

verus! {

/// Holds at most one model of the runtime `M`.
#[derive(Debug)]
pub struct ModelSlot<M> {
    state: LifecycleState,
    model: Option<M>,
    config: Option<ModelOptions>,
}

/// What a slot holds, for contracts.
pub struct SlotView<M> {
    pub state: LifecycleState,
    pub model: Option<M>,
    /// The configuration that the held model was loaded from.
    pub config: Option<ModelOptions>,
}

impl<M> SlotView<M> {
    /// A model is present exactly in the states `Ready` and `Busy`, and with
    /// it its configuration.
    pub open spec fn inv(self) -> bool {
        &&& self.model is Some <==> self.state.holds_model()
        &&& self.config is Some <==> self.model is Some
    }

    /// The slot of a process that has just started.
    pub open spec fn fresh() -> Self {
        SlotView { state: LifecycleState::Uninitialized, model: None, config: None }
    }

    /// The slot while a load is outstanding: it holds nothing.
    pub open spec fn loading() -> Self {
        SlotView { state: LifecycleState::Loading, model: None, config: None }
    }

    /// The slot after a load with `config` that ended in `outcome`.
    pub open spec fn loaded(config: ModelOptions, outcome: Result<M, String>) -> Self {
        match outcome {
            Ok(model) => SlotView {
                state: LifecycleState::Ready,
                model: Some(model),
                config: Some(config),
            },
            Err(_) => Self::failed(),
        }
    }

    /// The slot after a failure that left no usable model.
    pub open spec fn failed() -> Self {
        SlotView { state: LifecycleState::Error, model: None, config: None }
    }

    /// The slot once a request has started against its model.
    pub open spec fn busy(self) -> Self {
        SlotView { state: LifecycleState::Busy, ..self }
    }

    /// The slot with its model as a call left it.
    pub open spec fn with_model(self, model: M) -> Self {
        SlotView { model: Some(model), ..self }
    }

    /// The slot once the running request has ended: `Ready` again, or
    /// `Error` and empty where the request left the model unusable.
    pub open spec fn settled(self, unusable: bool) -> Self {
        if unusable {
            Self::failed()
        } else {
            SlotView { state: LifecycleState::Ready, ..self }
        }
    }

    /// The slot once its model is released; a failed slot stays failed,
    /// since only a load brings it back.
    pub open spec fn unloaded(self) -> Self {
        if self.state == LifecycleState::Error {
            self
        } else {
            Self::fresh()
        }
    }
}

impl<M> View for ModelSlot<M> {
    type V = SlotView<M>;

    closed spec fn view(&self) -> SlotView<M> {
        SlotView { state: self.state, model: self.model, config: self.config }
    }
}

impl<M> ModelSlot<M> {
    /// The slot's invariant holds.
    pub open spec fn wf(&self) -> bool {
        self@.inv()
    }

    /// An empty slot, as at the start of a process.
    pub fn new() -> (slot: Self)
        ensures
            slot.wf(),
            slot@ == SlotView::<M>::fresh(),
    {
        ModelSlot { state: LifecycleState::Uninitialized, model: None, config: None }
    }

    /// The lifecycle state.
    pub fn state(&self) -> (state: LifecycleState)
        ensures
            state == self@.state,
    {
        self.state
    }

    /// The configuration of the held model, if one is held.
    pub fn config(&self) -> (config: Option<&ModelOptions>)
        ensures
            config is Some <==> self@.config is Some,
            config matches Some(c) ==> *c == self@.config->0,
    {
        self.config.as_ref()
    }

    /// Starts a load. Where neither a load nor an inference is running, the
    /// slot goes to `Loading` and hands out the model it held, for the
    /// caller to release once the load has ended. Otherwise the load is
    /// turned away as unavailable and nothing changes.
    pub fn begin_load(&mut self) -> (previous: Result<Option<M>, ServiceError>)
        requires
            old(self).wf(),
        ensures
            final(self).wf(),
            old(self)@.state.admits_load() ==> {
                &&& previous == Ok::<Option<M>, ServiceError>(old(self)@.model)
                &&& final(self)@ == SlotView::<M>::loading()
                &&& old(self)@.state.steps_to(final(self)@.state)
            },
            !old(self)@.state.admits_load() ==> {
                &&& final(self)@ == old(self)@
                &&& previous is Err
                &&& previous->Err_0.says(
                    ErrorKind::Unavailable,
                    old(self)@.state.refusal_message(),
                )
            },
    {
        if !self.state.can_load() {
            let refused = self.state.refuse();
            return Err(refused.unwrap());
        }
        let previous = self.model.take();
        self.config = None;
        self.state = LifecycleState::Loading;
        Ok(previous)
    }

    /// Ends the outstanding load with the runtime's `outcome`: the slot
    /// holds the new model and is `Ready`, or holds nothing and is in
    /// `Error`, and the runtime's message is reported as an internal error.
    /// Where no load is outstanding, nothing changes and the call fails.
    pub fn finish_load(&mut self, config: ModelOptions, outcome: Result<M, String>) -> (ack: Result<
        (),
        ServiceError,
    >)
        requires
            old(self).wf(),
        ensures
            final(self).wf(),
            old(self)@.state == LifecycleState::Loading ==> {
                &&& final(self)@ == SlotView::loaded(config, outcome)
                &&& old(self)@.state.steps_to(final(self)@.state)
                &&& match outcome {
                    Ok(_) => ack is Ok,
                    Err(message) => ack is Err && ack->Err_0.says(ErrorKind::Internal, message@),
                }
            },
            old(self)@.state != LifecycleState::Loading ==> {
                &&& final(self)@ == old(self)@
                &&& ack is Err
                &&& ack->Err_0.says(ErrorKind::FailedPrecondition, "no load is outstanding"@)
            },
    {
        match self.state {
            LifecycleState::Loading => {},
            _ => {
                return Err(
                    ServiceError::new(ErrorKind::FailedPrecondition, "no load is outstanding"),
                );
            },
        }
        match outcome {
            Ok(model) => {
                self.model = Some(model);
                self.config = Some(config);
                self.state = LifecycleState::Ready;
                Ok(())
            },
            Err(message) => {
                self.state = LifecycleState::Error;
                Err(ServiceError { kind: ErrorKind::Internal, message })
            },
        }
    }

    /// Releases the held model and returns the slot to `Uninitialized`. A
    /// slot in `Error` stays there. While a load or an inference runs the
    /// call is turned away as unavailable and nothing changes.
    pub fn unload(&mut self) -> (released: Result<Option<M>, ServiceError>)
        requires
            old(self).wf(),
        ensures
            final(self).wf(),
            old(self)@.state.admits_load() ==> {
                &&& released == Ok::<Option<M>, ServiceError>(old(self)@.model)
                &&& final(self)@ == old(self)@.unloaded()
            },
            !old(self)@.state.admits_load() ==> {
                &&& final(self)@ == old(self)@
                &&& released is Err
                &&& released->Err_0.says(
                    ErrorKind::Unavailable,
                    old(self)@.state.refusal_message(),
                )
            },
            final(self)@.state == old(self)@.state || old(self)@.state.steps_to(final(self)@.state),
    {
        match self.state {
            LifecycleState::Loading | LifecycleState::Busy => {
                let refused = self.state.refuse();
                Err(refused.unwrap())
            },
            LifecycleState::Ready => {
                let released = self.model.take();
                self.config = None;
                self.state = LifecycleState::Uninitialized;
                Ok(released)
            },
            _ => Ok(None),
        }
    }

    /// Starts a request against the held model: a `Ready` slot becomes
    /// `Busy`. In every other state the request is turned away, for want of
    /// a model or as unavailable, and nothing changes.
    pub fn begin_inference(&mut self) -> (admitted: Result<(), ServiceError>)
        requires
            old(self).wf(),
        ensures
            final(self).wf(),
            match old(self)@.state.refusal() {
                None => admitted is Ok && final(self)@ == old(self)@.busy(),
                Some(kind) => {
                    &&& final(self)@ == old(self)@
                    &&& admitted is Err
                    &&& admitted->Err_0.says(kind, old(self)@.state.refusal_message())
                },
            },
    {
        match self.state.refuse() {
            Some(refused) => Err(refused),
            None => {
                self.state = LifecycleState::Busy;
                Ok(())
            },
        }
    }

    /// Ends the running request with the runtime's `outcome`, and returns
    /// what the caller is to see of it. The slot is `Ready` again, unless
    /// the outcome is a fault that left the model unusable: then the model
    /// is dropped and the slot is in `Error`. Where no request is running,
    /// nothing changes and the call fails.
    pub fn finish_inference<T>(&mut self, outcome: Result<T, ModelFault>) -> (answer: Result<
        T,
        ServiceError,
    >)
        requires
            old(self).wf(),
        ensures
            final(self).wf(),
            old(self)@.state == LifecycleState::Busy ==> {
                &&& reports(answer, outcome)
                &&& final(self)@ == old(self)@.settled(corrupted(outcome))
                &&& old(self)@.state.steps_to(final(self)@.state)
            },
            old(self)@.state != LifecycleState::Busy ==> {
                &&& final(self)@ == old(self)@
                &&& answer is Err
                &&& answer->Err_0.says(ErrorKind::FailedPrecondition, "no request is running"@)
            },
    {
        match self.state {
            LifecycleState::Busy => {},
            _ => {
                return Err(
                    ServiceError::new(ErrorKind::FailedPrecondition, "no request is running"),
                );
            },
        }
        match outcome {
            Ok(value) => {
                self.state = LifecycleState::Ready;
                Ok(value)
            },
            Err(fault) => {
                if fault.is_corrupting() {
                    self.model = None;
                    self.config = None;
                    self.state = LifecycleState::Error;
                } else {
                    self.state = LifecycleState::Ready;
                }
                Err(fault.into_error())
            },
        }
    }
}

/// The calls into the runtime. Each is made on a `Busy` slot, between
/// `begin_inference` and `finish_inference`; it leaves the slot `Busy`, with
/// the model as the call left it, and hands back the runtime's outcome.
impl<M: LLM> ModelSlot<M> {
    /// Runs generation step `step` against the held model.
    pub(crate) fn run_predict_step(&mut self, request: &PredictOptions, step: u64) -> (outcome:
        Result<Option<String>, ModelFault>)
        requires
            old(self).wf(),
            old(self)@.state == LifecycleState::Busy,
        ensures
            final(self).wf(),
            final(self)@.model is Some,
            final(self)@ == old(self)@.with_model(final(self)@.model->0),
            M::predict_step_spec(
                old(self)@.model->0,
                *request,
                step,
                final(self)@.model->0,
                outcome,
            ),
    {
        let mut model = self.model.take().unwrap();
        let outcome = model.predict_step(request, step);
        self.model = Some(model);
        outcome
    }

    /// Runs a prediction against the held model.
    pub(crate) fn run_predict(&mut self, request: &PredictOptions) -> (outcome: Result<
        String,
        ModelFault,
    >)
        requires
            old(self).wf(),
            old(self)@.state == LifecycleState::Busy,
        ensures
            final(self).wf(),
            final(self)@.model is Some,
            final(self)@ == old(self)@.with_model(final(self)@.model->0),
            M::predict_spec(old(self)@.model->0, *request, final(self)@.model->0, outcome),
    {
        let mut model = self.model.take().unwrap();
        let outcome = model.predict(request);
        self.model = Some(model);
        outcome
    }

    /// Runs an embedding against the held model.
    pub(crate) fn run_embedding(&mut self, request: &PredictOptions) -> (outcome: Result<
        Vec<u32>,
        ModelFault,
    >)
        requires
            old(self).wf(),
            old(self)@.state == LifecycleState::Busy,
        ensures
            final(self).wf(),
            final(self)@.model is Some,
            final(self)@ == old(self)@.with_model(final(self)@.model->0),
            M::embedding_spec(old(self)@.model->0, *request, final(self)@.model->0, outcome),
    {
        let mut model = self.model.take().unwrap();
        let outcome = model.embedding(request);
        self.model = Some(model);
        outcome
    }

    /// Runs an image generation against the held model.
    pub(crate) fn run_generate_image(&mut self, request: &GenerateImageRequest) -> (outcome: Result<
        crate::pb::Result,
        ModelFault,
    >)
        requires
            old(self).wf(),
            old(self)@.state == LifecycleState::Busy,
        ensures
            final(self).wf(),
            final(self)@.model is Some,
            final(self)@ == old(self)@.with_model(final(self)@.model->0),
            M::generate_image_spec(old(self)@.model->0, *request, final(self)@.model->0, outcome),
    {
        let mut model = self.model.take().unwrap();
        let outcome = model.generate_image(request);
        self.model = Some(model);
        outcome
    }

    /// Runs a transcription against the held model.
    pub(crate) fn run_audio_transcription(&mut self, request: &TranscriptRequest) -> (outcome: Result<
        TranscriptResult,
        ModelFault,
    >)
        requires
            old(self).wf(),
            old(self)@.state == LifecycleState::Busy,
        ensures
            final(self).wf(),
            final(self)@.model is Some,
            final(self)@ == old(self)@.with_model(final(self)@.model->0),
            M::audio_transcription_spec(old(self)@.model->0, *request, final(self)@.model->0, outcome),
    {
        let mut model = self.model.take().unwrap();
        let outcome = model.audio_transcription(request);
        self.model = Some(model);
        outcome
    }

    /// Runs a speech synthesis against the held model.
    pub(crate) fn run_tts(&mut self, request: &TtsRequest) -> (outcome: Result<
        crate::pb::Result,
        ModelFault,
    >)
        requires
            old(self).wf(),
            old(self)@.state == LifecycleState::Busy,
        ensures
            final(self).wf(),
            final(self)@.model is Some,
            final(self)@ == old(self)@.with_model(final(self)@.model->0),
            M::tts_spec(old(self)@.model->0, *request, final(self)@.model->0, outcome),
    {
        let mut model = self.model.take().unwrap();
        let outcome = model.tts(request);
        self.model = Some(model);
        outcome
    }

    /// Runs a tokenization against the held model.
    pub(crate) fn run_tokenize_string(&mut self, request: &PredictOptions) -> (outcome: Result<
        TokenizationResponse,
        ModelFault,
    >)
        requires
            old(self).wf(),
            old(self)@.state == LifecycleState::Busy,
        ensures
            final(self).wf(),
            final(self)@.model is Some,
            final(self)@ == old(self)@.with_model(final(self)@.model->0),
            M::tokenize_string_spec(old(self)@.model->0, *request, final(self)@.model->0, outcome),
    {
        let mut model = self.model.take().unwrap();
        let outcome = model.tokenize_string(request);
        self.model = Some(model);
        outcome
    }
}

} // verus!
