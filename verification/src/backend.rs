//! The service over one model slot: loading, the unary operations, the
//! streamed prediction, health and status.
//!
//! Every operation that needs the model goes through the same admission: it
//! starts only from `Ready`, holds the slot `Busy` while the runtime works,
//! and leaves it `Ready` again, or in `Error` where the runtime reported the
//! model unusable.

use crate::error::{ErrorKind, ServiceError};
use crate::lifecycle::LifecycleState;
use crate::models::{corrupted, reports, ModelFault, LLM};
use crate::pb::{
    EmbeddingResult, GenerateImageRequest, HealthMessage, ModelOptions, PredictOptions, Reply,
    StatusResponse, TokenizationResponse, TranscriptRequest, TranscriptResult, TtsRequest,
};
use crate::slot::{ModelSlot, SlotView};
use crate::status::{observe, resident_only};
use crate::stream::{Demand, PredictStream, ProducerEnd, StreamChunk, StreamView};
use vstd::prelude::*;
use vstd::string::*;

verus! {

/// The number of chunks that a stream's producer may run ahead of its
/// consumer, unless the service is told otherwise.
pub const DEFAULT_STREAM_CAPACITY: usize = 16;

/// The service over one model slot of the runtime `M`.
#[derive(Debug)]
pub struct BurnBackend<M> {
    slot: ModelSlot<M>,
    models: Vec<String>,
    stream: Option<PredictStream>,
    stream_capacity: usize,
}

/// What a service holds, for contracts.
pub struct BackendView<M> {
    pub slot: SlotView<M>,
    /// The model identifiers that have a backing implementation.
    pub models: Seq<Seq<char>>,
    /// The streamed prediction that is under way.
    pub stream: Option<StreamView>,
    pub stream_capacity: usize,
}

impl<M> BackendView<M> {
    /// The slot and the stream keep their invariants, and the slot is
    /// `Busy` for as long as a stream is under way.
    pub open spec fn inv(self) -> bool {
        &&& self.slot.inv()
        &&& self.stream_capacity >= 1
        &&& self.stream matches Some(stream) ==> stream.inv() && self.slot.state
            == LifecycleState::Busy
    }

    /// Whether `model` names a model with a backing implementation.
    pub open spec fn knows(self, model: Seq<char>) -> bool {
        self.models.contains(model)
    }

    /// The service at the start of a process.
    pub open spec fn started(models: Seq<Seq<char>>, stream_capacity: usize) -> Self {
        BackendView { slot: SlotView::fresh(), models, stream: None, stream_capacity }
    }
}

/// The identifiers in `models`, as texts.
pub open spec fn identifiers(models: Seq<String>) -> Seq<Seq<char>> {
    Seq::new(models.len(), |i: int| models[i]@)
}

/// The text "Model ", the model's identifier, and `rest`.
pub open spec fn model_message(model: Seq<char>, rest: Seq<char>) -> Seq<char> {
    "Model "@ + model + rest
}

/// Whether `answer` is what the service returns for a load of `request`
/// that ended in `outcome`.
pub open spec fn acknowledges<M>(
    answer: Result<crate::pb::Result, ServiceError>,
    request: ModelOptions,
    outcome: Result<M, String>,
) -> bool {
    match outcome {
        Ok(_) => answer is Ok && answer->Ok_0.success && answer->Ok_0.message@ == model_message(
            request.model@,
            " loaded successfully"@,
        ),
        Err(message) => answer is Err && answer->Err_0.says(ErrorKind::Internal, message@),
    }
}

/// Whether `answer` is what the service returns for a prediction that ended
/// in `outcome`: the text as bytes, or the error that reports the fault.
pub open spec fn replies(
    answer: Result<Reply, ServiceError>,
    outcome: Result<String, ModelFault>,
) -> bool {
    match outcome {
        Ok(text) => answer is Ok && answer->Ok_0.message@ == vstd::utf8::encode_utf8(text@),
        Err(fault) => answer is Err && answer->Err_0.says(fault.kind(), fault.message()),
    }
}

/// Whether `answer` is what the service returns for an embedding that ended
/// in `outcome`: the vector, or the error that reports the fault.
pub open spec fn embeds(
    answer: Result<EmbeddingResult, ServiceError>,
    outcome: Result<Vec<u32>, ModelFault>,
) -> bool {
    match outcome {
        Ok(embeddings) => answer == Ok::<EmbeddingResult, ServiceError>(
            EmbeddingResult { embeddings },
        ),
        Err(fault) => answer is Err && answer->Err_0.says(fault.kind(), fault.message()),
    }
}

/// Whether `next` and `answer` are what a load of `request` may leave of the
/// service `before`.
///
/// An identifier without a backing implementation is not found, and a load
/// that arrives while a load or an inference runs is unavailable: both leave
/// the service as it was. Otherwise the runtime was asked to load `request`,
/// and whatever its outcome, the slot holds what that outcome gives: the new
/// model and `Ready`, or nothing and `Error`.
pub open spec fn load_serves<M: LLM>(
    before: BackendView<M>,
    request: ModelOptions,
    next: BackendView<M>,
    answer: Result<crate::pb::Result, ServiceError>,
) -> bool {
    &&& next.models == before.models
    &&& next.stream == before.stream
    &&& next.stream_capacity == before.stream_capacity
    &&& if !before.knows(request.model@) {
        &&& next == before
        &&& answer is Err
        &&& answer->Err_0.says(ErrorKind::NotFound, model_message(request.model@, " not found"@))
    } else if !before.slot.state.admits_load() {
        &&& next == before
        &&& answer is Err
        &&& answer->Err_0.says(ErrorKind::Unavailable, before.slot.state.refusal_message())
    } else {
        exists|outcome: Result<M, String>|
            {
                &&& #[trigger] M::load_model_spec(request, outcome)
                &&& next.slot == SlotView::loaded(request, outcome)
                &&& acknowledges(answer, request, outcome)
            }
    }
}

/// Whether the service `before` turned a request against the model away:
/// nothing changed, and the answer is the error that goes with the slot's
/// state, for want of a model or as unavailable.
pub open spec fn turned_away<M, A>(
    before: BackendView<M>,
    next: BackendView<M>,
    answer: Result<A, ServiceError>,
) -> bool {
    &&& before.slot.state.refusal() is Some
    &&& next == before
    &&& answer is Err
    &&& answer->Err_0.says(before.slot.state.refusal()->0, before.slot.state.refusal_message())
}

/// Whether `next` is the service `before` once a request that it admitted
/// has ended with the model as `after`: the slot is `Ready` again and holds
/// `after`, or is in `Error` and empty where the model was left `unusable`.
pub open spec fn settled_after<M>(
    before: BackendView<M>,
    after: M,
    unusable: bool,
    next: BackendView<M>,
) -> bool {
    &&& before.slot.state.refusal() is None
    &&& next == (BackendView { slot: before.slot.with_model(after).settled(unusable), ..before })
}

/// Whether `next` and `answer` are what a prediction for `request` may leave
/// of the service `before`: the request was turned away, or the runtime was
/// asked once and the answer tells its outcome.
pub open spec fn predict_serves<M: LLM>(
    before: BackendView<M>,
    request: PredictOptions,
    next: BackendView<M>,
    answer: Result<Reply, ServiceError>,
) -> bool {
    ||| turned_away(before, next, answer)
    ||| exists|after: M, outcome: Result<String, ModelFault>|
        {
            &&& #[trigger] M::predict_spec(before.slot.model->0, request, after, outcome)
            &&& settled_after(before, after, corrupted(outcome), next)
            &&& replies(answer, outcome)
        }
}

/// Whether `next` and `answer` are what an embedding for `request` may leave
/// of the service `before`: the request was turned away, or the runtime was
/// asked once and the answer tells its outcome.
pub open spec fn embedding_serves<M: LLM>(
    before: BackendView<M>,
    request: PredictOptions,
    next: BackendView<M>,
    answer: Result<EmbeddingResult, ServiceError>,
) -> bool {
    ||| turned_away(before, next, answer)
    ||| exists|after: M, outcome: Result<Vec<u32>, ModelFault>|
        {
            &&& #[trigger] M::embedding_spec(before.slot.model->0, request, after, outcome)
            &&& settled_after(before, after, corrupted(outcome), next)
            &&& embeds(answer, outcome)
        }
}

/// Whether `next` and `answer` are what an image generation for `request` may
/// leave of the service `before`: the request was turned away, or the runtime
/// was asked once and the answer tells its outcome.
pub open spec fn generate_image_serves<M: LLM>(
    before: BackendView<M>,
    request: GenerateImageRequest,
    next: BackendView<M>,
    answer: Result<crate::pb::Result, ServiceError>,
) -> bool {
    ||| turned_away(before, next, answer)
    ||| exists|after: M, outcome: Result<crate::pb::Result, ModelFault>|
        {
            &&& #[trigger] M::generate_image_spec(before.slot.model->0, request, after, outcome)
            &&& settled_after(before, after, corrupted(outcome), next)
            &&& reports(answer, outcome)
        }
}

/// Whether `next` and `answer` are what a transcription for `request` may
/// leave of the service `before`: the request was turned away, or the runtime
/// was asked once and the answer tells its outcome.
pub open spec fn audio_transcription_serves<M: LLM>(
    before: BackendView<M>,
    request: TranscriptRequest,
    next: BackendView<M>,
    answer: Result<TranscriptResult, ServiceError>,
) -> bool {
    ||| turned_away(before, next, answer)
    ||| exists|after: M, outcome: Result<TranscriptResult, ModelFault>|
        {
            &&& #[trigger] M::audio_transcription_spec(
                before.slot.model->0,
                request,
                after,
                outcome,
            )
            &&& settled_after(before, after, corrupted(outcome), next)
            &&& reports(answer, outcome)
        }
}

/// Whether `next` and `answer` are what a speech synthesis for `request` may
/// leave of the service `before`: the request was turned away, or the runtime
/// was asked once and the answer tells its outcome.
pub open spec fn tts_serves<M: LLM>(
    before: BackendView<M>,
    request: TtsRequest,
    next: BackendView<M>,
    answer: Result<crate::pb::Result, ServiceError>,
) -> bool {
    ||| turned_away(before, next, answer)
    ||| exists|after: M, outcome: Result<crate::pb::Result, ModelFault>|
        {
            &&& #[trigger] M::tts_spec(before.slot.model->0, request, after, outcome)
            &&& settled_after(before, after, corrupted(outcome), next)
            &&& reports(answer, outcome)
        }
}

/// Whether `next` and `answer` are what a tokenization for `request` may
/// leave of the service `before`: the request was turned away, or the runtime
/// was asked once and the answer tells its outcome.
pub open spec fn tokenize_string_serves<M: LLM>(
    before: BackendView<M>,
    request: PredictOptions,
    next: BackendView<M>,
    answer: Result<TokenizationResponse, ServiceError>,
) -> bool {
    ||| turned_away(before, next, answer)
    ||| exists|after: M, outcome: Result<TokenizationResponse, ModelFault>|
        {
            &&& #[trigger] M::tokenize_string_spec(before.slot.model->0, request, after, outcome)
            &&& settled_after(before, after, corrupted(outcome), next)
            &&& reports(answer, outcome)
        }
}

/// Whether `next` and `answer` are what the start of a stream for `request`
/// leaves of the service `before`.
///
/// From any state but `Ready` the request is turned away, and so is one that
/// asks for a negative number of tokens; nothing changes then. Otherwise the
/// slot is `Busy` and the stream stands before its first step.
pub open spec fn stream_starts<M>(
    before: BackendView<M>,
    request: PredictOptions,
    next: BackendView<M>,
    answer: Result<(), ServiceError>,
) -> bool {
    match before.slot.state.refusal() {
        Some(kind) => {
            &&& next == before
            &&& answer is Err
            &&& answer->Err_0.says(kind, before.slot.state.refusal_message())
        },
        None => if request.tokens < 0 {
            &&& next == before
            &&& answer is Err
            &&& answer->Err_0.says(
                ErrorKind::InvalidArgument,
                "the number of tokens to predict must not be negative"@,
            )
        } else {
            &&& answer is Ok
            &&& next == (BackendView {
                slot: before.slot.busy(),
                stream: Some(StreamView::opened(request, before.stream_capacity)),
                ..before
            })
        },
    }
}

/// What a step of a stream's producer did.
#[derive(Clone, Copy, Debug, PartialEq, Eq, Structural)]
pub enum ProducerStatus {
    /// No stream is under way.
    Idle,
    /// The model produced a chunk, which waits in the buffer.
    Produced,
    /// The buffer is full: the producer waits for the consumer.
    Suspended,
    /// The producer has ended.
    Finished,
}

/// What a stream's consumer gets when it asks for the next item.
#[derive(Debug, PartialEq, Eq)]
pub enum StreamItem {
    /// The oldest chunk not yet delivered.
    Chunk(StreamChunk),
    /// Nothing yet: the producer has not ended and the buffer is empty.
    Pending,
    /// The stream has ended: the model stopped or the step budget is spent.
    Completed,
    /// The stream has ended with an error in place of a further chunk.
    Failed(ServiceError),
    /// No stream is under way.
    Closed,
}

/// Whether `next` and `status` are what one step of the producer may leave
/// of the service `before`.
///
/// With no stream under way, with the producer ended, or with the buffer
/// full, nothing happens: the model is not run. Where the step budget is
/// spent the producer ends as completed. Otherwise the runtime was asked for
/// the step that is due, and its outcome went into the stream.
pub open spec fn produce_steps<M: LLM>(
    before: BackendView<M>,
    next: BackendView<M>,
    status: ProducerStatus,
) -> bool {
    match before.stream {
        None => status == ProducerStatus::Idle && next == before,
        Some(stream) => match stream.demand() {
            Demand::Ended => status == ProducerStatus::Finished && next == before,
            Demand::Suspend => status == ProducerStatus::Suspended && next == before,
            Demand::Finish => {
                &&& status == ProducerStatus::Finished
                &&& next == (BackendView {
                    stream: Some(stream.ended(ProducerEnd::Completed)),
                    ..before
                })
            },
            Demand::Step(step) => exists|after: M, outcome: Result<Option<String>, ModelFault>|
                {
                    &&& #[trigger] M::predict_step_spec(
                        before.slot.model->0,
                        stream.request,
                        step,
                        after,
                        outcome,
                    )
                    &&& next == (BackendView {
                        slot: before.slot.with_model(after),
                        stream: Some(stream.recorded(outcome)),
                        ..before
                    })
                    &&& status == if outcome matches Ok(Some(_)) {
                        ProducerStatus::Produced
                    } else {
                        ProducerStatus::Finished
                    }
                },
        },
    }
}

/// Whether `next` and `item` are what the consumer's asking for the next
/// item leaves of the service `before`.
///
/// The oldest buffered chunk comes out first. Once the producer has ended
/// and the buffer is empty, the end comes out: the stream is closed, and the
/// slot is `Ready` again, or in `Error` where the model was left unusable.
pub open spec fn receive_hands<M>(
    before: BackendView<M>,
    next: BackendView<M>,
    item: StreamItem,
) -> bool {
    match before.stream {
        None => item is Closed && next == before,
        Some(stream) => if stream.buffer.len() > 0 {
            &&& item == StreamItem::Chunk(stream.buffer[0])
            &&& next == (BackendView { stream: Some(stream.popped()), ..before })
        } else if stream.end is Some {
            &&& next == (BackendView {
                slot: before.slot.settled(stream.end->0.corrupts()),
                stream: None,
                ..before
            })
            &&& match stream.end->0 {
                ProducerEnd::Completed => item is Completed,
                ProducerEnd::Faulted(fault) => item is Failed && item->Failed_0.says(
                    fault.kind(),
                    fault.message(),
                ),
            }
        } else {
            item is Pending && next == before
        },
    }
}

/// Whether `next` is the service `before` once the stream under way, if
/// there is one, is cancelled: the stream is gone with what it had
/// buffered, and the slot is `Ready` again, or in `Error` where the producer
/// had ended with the model unusable.
pub open spec fn cancel_closes<M>(before: BackendView<M>, next: BackendView<M>) -> bool {
    match before.stream {
        None => next == before,
        Some(stream) => next == (BackendView {
            slot: before.slot.settled(stream.end is Some && stream.end->0.corrupts()),
            stream: None,
            ..before
        }),
    }
}

/// The bytes of the text "OK".
pub open spec fn alive() -> Seq<u8> {
    seq![79u8, 75u8]
}

/// The answer of the liveness probe. It needs no service to ask: a
/// transport may give it while the slot is held by a request.
pub fn alive_reply() -> (reply: Reply)
    ensures
        reply.message@ == alive(),
{
    let mut message: Vec<u8> = Vec::new();
    message.push(79u8);
    message.push(75u8);
    Reply { message }
}

/// Whether the service `start` can come to be `current` by rounds of one
/// producer step and one delivery each, the deliveries handing out `chunks`
/// in this order.
pub open spec fn streams_to<M: LLM>(
    start: BackendView<M>,
    chunks: Seq<StreamChunk>,
    current: BackendView<M>,
) -> bool
    decreases chunks.len(),
{
    if chunks.len() == 0 {
        current == start
    } else {
        exists|previous: BackendView<M>, produced: BackendView<M>, status: ProducerStatus|
            {
                &&& streams_to(start, chunks.drop_last(), previous)
                &&& #[trigger] produce_steps(previous, produced, status)
                &&& receive_hands(produced, current, StreamItem::Chunk(chunks.last()))
            }
    }
}

/// Whether `chunks`, `end` and `next` are what running the stream of the
/// service `before` to its end gives: rounds of one producer step and one
/// delivery each hand out `chunks`, and one more round hands out `end`,
/// which is no chunk, and leaves `next`.
pub open spec fn drains<M: LLM>(
    before: BackendView<M>,
    chunks: Seq<StreamChunk>,
    end: StreamItem,
    next: BackendView<M>,
) -> bool {
    &&& !(end is Chunk)
    &&& exists|last: BackendView<M>, produced: BackendView<M>, status: ProducerStatus|
        {
            &&& streams_to(before, chunks, last)
            &&& #[trigger] produce_steps(last, produced, status)
            &&& receive_hands(produced, next, end)
        }
}

fn message_about(model: &String, rest: &str) -> (message: String)
    ensures
        message@ == model_message(model@, rest@),
{
    let mut message = String::from_str("Model ");
    message.append(model.as_str());
    message.append(rest);
    message
}

impl<M> View for BurnBackend<M> {
    type V = BackendView<M>;

    closed spec fn view(&self) -> BackendView<M> {
        BackendView {
            slot: self.slot@,
            models: identifiers(self.models@),
            stream: match self.stream {
                Some(stream) => Some(stream@),
                None => None,
            },
            stream_capacity: self.stream_capacity,
        }
    }
}

impl<M> BurnBackend<M> {
    /// The service's invariant holds.
    pub open spec fn wf(&self) -> bool {
        self@.inv()
    }

    /// A service with an empty slot, for the model identifiers in `models`.
    pub fn new(models: Vec<String>) -> (backend: Self)
        ensures
            backend.wf(),
            backend@ == BackendView::<M>::started(identifiers(models@), DEFAULT_STREAM_CAPACITY),
    {
        BurnBackend {
            slot: ModelSlot::new(),
            models,
            stream: None,
            stream_capacity: DEFAULT_STREAM_CAPACITY,
        }
    }

    /// The same service with streams buffered up to `capacity` chunks. A
    /// buffer that could hold no chunk is rejected as an invalid argument.
    pub fn with_stream_capacity(self, capacity: usize) -> (backend: Result<Self, ServiceError>)
        ensures
            match backend {
                Ok(backend) => capacity >= 1 && backend@ == (BackendView {
                    stream_capacity: capacity,
                    ..self@
                }),
                Err(error) => capacity == 0 && error.says(
                    ErrorKind::InvalidArgument,
                    "the stream buffer must hold at least one chunk"@,
                ),
            },
    {
        if capacity == 0 {
            return Err(
                ServiceError::new(
                    ErrorKind::InvalidArgument,
                    "the stream buffer must hold at least one chunk",
                ),
            );
        }
        Ok(
            BurnBackend {
                slot: self.slot,
                models: self.models,
                stream: self.stream,
                stream_capacity: capacity,
            },
        )
    }

    /// The number of chunks that a stream's producer may run ahead of its
    /// consumer.
    pub fn stream_capacity(&self) -> (capacity: usize)
        ensures
            capacity == self@.stream_capacity,
    {
        self.stream_capacity
    }

    /// The slot's lifecycle state.
    pub fn state(&self) -> (state: LifecycleState)
        ensures
            state == self@.slot.state,
    {
        self.slot.state()
    }

    /// The slot, to look at.
    pub fn slot(&self) -> (slot: &ModelSlot<M>)
        ensures
            slot@ == self@.slot,
    {
        &self.slot
    }

    /// Tells whether a stream is under way.
    pub fn is_streaming(&self) -> (b: bool)
        ensures
            b == (self@.stream is Some),
    {
        self.stream.is_some()
    }

    /// Tells whether `model` names a model with a backing implementation.
    pub fn knows(&self, model: &String) -> (known: bool)
        ensures
            known == self@.knows(model@),
    {
        let mut i: usize = 0;
        while i < self.models.len()
            invariant
                i <= self.models.len(),
                forall|j: int| 0 <= j < i ==> self.models@[j]@ != model@,
            decreases self.models.len() - i,
        {
            if self.models[i] == *model {
                assert(identifiers(self.models@)[i as int] == model@);
                return true;
            }
            i = i + 1;
        }
        false
    }

    /// The liveness probe: it answers "OK" whatever the slot's state.
    pub fn health(&self, request: HealthMessage) -> (answer: Result<Reply, ServiceError>)
        ensures
            answer is Ok,
            answer->Ok_0.message@ == alive(),
    {
        Ok(alive_reply())
    }

    /// The status query: the slot's state as callers know it, and the
    /// memory the process uses. It never fails and changes nothing.
    pub fn status(&self, request: HealthMessage) -> (answer: Result<StatusResponse, ServiceError>)
        ensures
            answer is Ok,
            answer->Ok_0.state == self@.slot.state.reported().number(),
            answer->Ok_0.memory is Some,
            resident_only(answer->Ok_0.memory->0.breakdown@, answer->Ok_0.memory->0.total),
    {
        Ok(observe(self.slot.state()).into_response())
    }
}

impl<M> Default for BurnBackend<M> {
    /// A service with an empty slot that knows the one model "mnist".
    fn default() -> (backend: Self)
        ensures
            backend.wf(),
            backend@ == BackendView::<M>::started(seq!["mnist"@], DEFAULT_STREAM_CAPACITY),
    {
        let mut models: Vec<String> = Vec::new();
        models.push(String::from_str("mnist"));
        assert(identifiers(models@) =~= seq!["mnist"@]);
        BurnBackend::new(models)
    }
}

impl<M: LLM> BurnBackend<M> {
    /// Loads the model that `request` describes into the slot, in place of
    /// the one held. An identifier without a backing implementation is not
    /// found, and a load that arrives while a load or an inference runs is
    /// unavailable: both leave the service as it was. Otherwise the runtime
    /// loads the model; the slot then holds it and is `Ready`, or, where the
    /// runtime failed, holds nothing and is in `Error`. The model held
    /// before is released once the new one is in place.
    pub fn load_model(&mut self, request: ModelOptions) -> (answer: Result<
        crate::pb::Result,
        ServiceError,
    >)
        requires
            old(self).wf(),
        ensures
            final(self).wf(),
            load_serves(old(self)@, request, final(self)@, answer),
    {
        if !self.knows(&request.model) {
            return Err(
                ServiceError {
                    kind: ErrorKind::NotFound,
                    message: message_about(&request.model, " not found"),
                },
            );
        }
        let previous = match self.slot.begin_load() {
            Ok(previous) => previous,
            Err(refused) => {
                return Err(refused);
            },
        };
        let message = message_about(&request.model, " loaded successfully");
        let outcome = M::load_model(&request);
        let ghost witness = outcome;
        let answer = match self.slot.finish_load(request, outcome) {
            Ok(()) => Ok(crate::pb::Result { message, success: true }),
            Err(error) => Err(error),
        };
        proof {
            assert(M::load_model_spec(request, witness));
            assert(self@.slot == SlotView::loaded(request, witness));
            assert(acknowledges(answer, request, witness));
        }
        let _released = previous;
        answer
    }

    /// Releases the held model and returns the slot to `Uninitialized`; a
    /// slot in `Error` stays there. While a load or an inference runs the
    /// call is unavailable and nothing changes.
    pub fn unload(&mut self) -> (answer: Result<(), ServiceError>)
        requires
            old(self).wf(),
        ensures
            final(self).wf(),
            old(self)@.slot.state.admits_load() ==> {
                &&& answer is Ok
                &&& final(self)@ == (BackendView { slot: old(self)@.slot.unloaded(), ..old(self)@ })
            },
            !old(self)@.slot.state.admits_load() ==> {
                &&& final(self)@ == old(self)@
                &&& answer is Err
                &&& answer->Err_0.says(
                    ErrorKind::Unavailable,
                    old(self)@.slot.state.refusal_message(),
                )
            },
    {
        match self.slot.unload() {
            Ok(_released) => Ok(()),
            Err(refused) => Err(refused),
        }
    }

    /// Predicts the output for `request` with the held model. From any
    /// state but `Ready` the request is turned away and nothing changes.
    /// Otherwise the runtime is asked once, and its text comes back as
    /// bytes, or its fault as an error.
    pub fn predict(&mut self, request: PredictOptions) -> (answer: Result<Reply, ServiceError>)
        requires
            old(self).wf(),
        ensures
            final(self).wf(),
            predict_serves(old(self)@, request, final(self)@, answer),
    {
        match self.slot.begin_inference() {
            Ok(()) => {},
            Err(refused) => {
                return Err(refused);
            },
        }
        let outcome = self.slot.run_predict(&request);
        let ghost witness = outcome;
        let ghost after = self.slot@.model->0;
        let answer = match self.slot.finish_inference(outcome) {
            Ok(text) => Ok(Reply { message: text.as_str().as_bytes_vec() }),
            Err(error) => Err(error),
        };
        proof {
            assert(M::predict_spec(old(self)@.slot.model->0, request, after, witness));
            assert(settled_after(old(self)@, after, corrupted(witness), self@));
            assert(replies(answer, witness));
        }
        answer
    }

    /// Embeds the prompt of `request` with the held model. From any
    /// state but `Ready` the request is turned away and nothing changes.
    /// Otherwise the runtime is asked once, and its vector comes back, or its
    /// fault as an error: unimplemented where the model does not offer the
    /// operation.
    pub fn embedding(&mut self, request: PredictOptions) -> (answer: Result<
        EmbeddingResult,
        ServiceError,
    >)
        requires
            old(self).wf(),
        ensures
            final(self).wf(),
            embedding_serves(old(self)@, request, final(self)@, answer),
    {
        match self.slot.begin_inference() {
            Ok(()) => {},
            Err(refused) => {
                return Err(refused);
            },
        }
        let outcome = self.slot.run_embedding(&request);
        let ghost witness = outcome;
        let ghost after = self.slot@.model->0;
        let answer = match self.slot.finish_inference(outcome) {
            Ok(embeddings) => Ok(EmbeddingResult { embeddings }),
            Err(error) => Err(error),
        };
        proof {
            assert(M::embedding_spec(old(self)@.slot.model->0, request, after, witness));
            assert(settled_after(old(self)@, after, corrupted(witness), self@));
            assert(embeds(answer, witness));
        }
        answer
    }

    /// Generates the image that `request` describes with the held model. From any
    /// state but `Ready` the request is turned away and nothing changes.
    /// Otherwise the runtime is asked once, and its acknowledgement comes back, or its
    /// fault as an error: unimplemented where the model does not offer the
    /// operation.
    pub fn generate_image(&mut self, request: GenerateImageRequest) -> (answer: Result<
        crate::pb::Result,
        ServiceError,
    >)
        requires
            old(self).wf(),
        ensures
            final(self).wf(),
            generate_image_serves(old(self)@, request, final(self)@, answer),
    {
        match self.slot.begin_inference() {
            Ok(()) => {},
            Err(refused) => {
                return Err(refused);
            },
        }
        let outcome = self.slot.run_generate_image(&request);
        let ghost witness = outcome;
        let ghost after = self.slot@.model->0;
        let answer = match self.slot.finish_inference(outcome) {
            Ok(ack) => Ok(ack),
            Err(error) => Err(error),
        };
        proof {
            assert(M::generate_image_spec(old(self)@.slot.model->0, request, after, witness));
            assert(settled_after(old(self)@, after, corrupted(witness), self@));
            assert(reports(answer, witness));
        }
        answer
    }

    /// Transcribes the audio that `request` names with the held model. From any
    /// state but `Ready` the request is turned away and nothing changes.
    /// Otherwise the runtime is asked once, and its transcript comes back, or its
    /// fault as an error: unimplemented where the model does not offer the
    /// operation.
    pub fn audio_transcription(&mut self, request: TranscriptRequest) -> (answer: Result<
        TranscriptResult,
        ServiceError,
    >)
        requires
            old(self).wf(),
        ensures
            final(self).wf(),
            audio_transcription_serves(old(self)@, request, final(self)@, answer),
    {
        match self.slot.begin_inference() {
            Ok(()) => {},
            Err(refused) => {
                return Err(refused);
            },
        }
        let outcome = self.slot.run_audio_transcription(&request);
        let ghost witness = outcome;
        let ghost after = self.slot@.model->0;
        let answer = match self.slot.finish_inference(outcome) {
            Ok(transcript) => Ok(transcript),
            Err(error) => Err(error),
        };
        proof {
            assert(M::audio_transcription_spec(old(self)@.slot.model->0, request, after, witness));
            assert(settled_after(old(self)@, after, corrupted(witness), self@));
            assert(reports(answer, witness));
        }
        answer
    }

    /// Synthesises the speech that `request` describes with the held model. From any
    /// state but `Ready` the request is turned away and nothing changes.
    /// Otherwise the runtime is asked once, and its acknowledgement comes back, or its
    /// fault as an error: unimplemented where the model does not offer the
    /// operation.
    pub fn tts(&mut self, request: TtsRequest) -> (answer: Result<crate::pb::Result, ServiceError>)
        requires
            old(self).wf(),
        ensures
            final(self).wf(),
            tts_serves(old(self)@, request, final(self)@, answer),
    {
        match self.slot.begin_inference() {
            Ok(()) => {},
            Err(refused) => {
                return Err(refused);
            },
        }
        let outcome = self.slot.run_tts(&request);
        let ghost witness = outcome;
        let ghost after = self.slot@.model->0;
        let answer = match self.slot.finish_inference(outcome) {
            Ok(ack) => Ok(ack),
            Err(error) => Err(error),
        };
        proof {
            assert(M::tts_spec(old(self)@.slot.model->0, request, after, witness));
            assert(settled_after(old(self)@, after, corrupted(witness), self@));
            assert(reports(answer, witness));
        }
        answer
    }

    /// Splits the prompt of `request` into tokens with the held model. From any
    /// state but `Ready` the request is turned away and nothing changes.
    /// Otherwise the runtime is asked once, and its tokens comes back, or its
    /// fault as an error: unimplemented where the model does not offer the
    /// operation.
    pub fn tokenize_string(&mut self, request: PredictOptions) -> (answer: Result<
        TokenizationResponse,
        ServiceError,
    >)
        requires
            old(self).wf(),
        ensures
            final(self).wf(),
            tokenize_string_serves(old(self)@, request, final(self)@, answer),
    {
        match self.slot.begin_inference() {
            Ok(()) => {},
            Err(refused) => {
                return Err(refused);
            },
        }
        let outcome = self.slot.run_tokenize_string(&request);
        let ghost witness = outcome;
        let ghost after = self.slot@.model->0;
        let answer = match self.slot.finish_inference(outcome) {
            Ok(tokens) => Ok(tokens),
            Err(error) => Err(error),
        };
        proof {
            assert(M::tokenize_string_spec(old(self)@.slot.model->0, request, after, witness));
            assert(settled_after(old(self)@, after, corrupted(witness), self@));
            assert(reports(answer, witness));
        }
        answer
    }

    /// Starts a streamed prediction for `request`. From any state but
    /// `Ready` the request is turned away, and so is one that asks for a
    /// negative number of tokens; nothing changes then. Otherwise the slot
    /// is `Busy` until the stream's end has been delivered or the stream is
    /// cancelled, and the stream stands before its first step, with the
    /// number of tokens as its step budget.
    pub fn predict_stream(&mut self, request: PredictOptions) -> (answer: Result<(), ServiceError>)
        requires
            old(self).wf(),
        ensures
            final(self).wf(),
            stream_starts(old(self)@, request, final(self)@, answer),
    {
        match self.slot.state().refuse() {
            Some(refused) => {
                return Err(refused);
            },
            None => {},
        }
        let stream = match PredictStream::open(request, self.stream_capacity) {
            Ok(stream) => stream,
            Err(invalid) => {
                return Err(invalid);
            },
        };
        match self.slot.begin_inference() {
            Ok(()) => {},
            Err(refused) => {
                return Err(refused);
            },
        }
        self.stream = Some(stream);
        Ok(())
    }

    /// Lets the stream's producer take its next step. With no stream under
    /// way, with the producer ended, or with the buffer full, nothing
    /// happens: in particular the model is not run. Where the step budget is
    /// spent the producer ends as completed. Otherwise the model runs the
    /// step that is due, and its outcome goes into the stream: one more
    /// chunk, or the producer's end.
    pub fn produce(&mut self) -> (status: ProducerStatus)
        requires
            old(self).wf(),
        ensures
            final(self).wf(),
            produce_steps(old(self)@, final(self)@, status),
    {
        let mut stream = match self.stream.take() {
            Some(stream) => stream,
            None => {
                return ProducerStatus::Idle;
            },
        };
        let status = match stream.demand() {
            Demand::Ended => ProducerStatus::Finished,
            Demand::Suspend => ProducerStatus::Suspended,
            Demand::Finish => {
                stream.finish();
                ProducerStatus::Finished
            },
            Demand::Step(step) => {
                let outcome = self.slot.run_predict_step(stream.request(), step);
                let ghost witness = outcome;
                let ghost after = self.slot@.model->0;
                let status = match &outcome {
                    Ok(Some(_)) => ProducerStatus::Produced,
                    _ => ProducerStatus::Finished,
                };
                stream.record(outcome);
                proof {
                    let before = old(self)@.stream->0;
                    assert(M::predict_step_spec(
                        old(self)@.slot.model->0,
                        before.request,
                        step,
                        after,
                        witness,
                    ));
                    assert(stream@ == before.recorded(witness));
                }
                status
            },
        };
        self.stream = Some(stream);
        status
    }

    /// Hands the stream's consumer its next item. A chunk comes out with
    /// the step number that follows the one delivered before it. Once the
    /// producer has ended and every chunk is delivered, the end comes out:
    /// the stream is closed, and the slot is `Ready` again, or in `Error`
    /// where the model was left unusable.
    pub fn receive(&mut self) -> (item: StreamItem)
        requires
            old(self).wf(),
        ensures
            final(self).wf(),
            receive_hands(old(self)@, final(self)@, item),
    {
        let mut stream = match self.stream.take() {
            Some(stream) => stream,
            None => {
                return StreamItem::Closed;
            },
        };
        match stream.pop() {
            Some(chunk) => {
                self.stream = Some(stream);
                StreamItem::Chunk(chunk)
            },
            None => {
                if stream.is_ended() {
                    self.close(stream.into_end())
                } else {
                    self.stream = Some(stream);
                    StreamItem::Pending
                }
            },
        }
    }

    /// Cancels the stream under way, if there is one: its buffered chunks
    /// are dropped, the producer takes no further step, and the slot is
    /// `Ready` again, or in `Error` where the producer had ended with the
    /// model unusable.
    pub fn cancel_stream(&mut self) -> (cancelled: bool)
        requires
            old(self).wf(),
        ensures
            final(self).wf(),
            cancelled == (old(self)@.stream is Some),
            cancel_closes(old(self)@, final(self)@),
    {
        match self.stream.take() {
            Some(stream) => {
                let _end = self.close(stream.into_end());
                true
            },
            None => false,
        }
    }

    /// Runs the stream under way to its end, as a consumer that takes each
    /// chunk as soon as it is there, and returns the chunks in the order in
    /// which they came out, with the item that ended the stream. The chunks
    /// carry consecutive step numbers, and there are no more of them than
    /// the step budget allows. The slot is left `Ready`, or in `Error`. With
    /// no stream under way there is nothing to run.
    pub fn drain_stream(&mut self) -> (drained: (Vec<StreamChunk>, StreamItem))
        requires
            old(self).wf(),
        ensures
            final(self).wf(),
            final(self)@.stream is None,
            match old(self)@.stream {
                None => drained.0@.len() == 0 && drained.1 is Closed && final(self)@ == old(self)@,
                Some(stream) => {
                    &&& drains(old(self)@, drained.0@, drained.1, final(self)@)
                    &&& forall|i: int|
                        0 <= i < drained.0@.len() ==> (#[trigger] drained.0@[i]).step
                            == stream.delivered() + i
                    &&& stream.delivered() + drained.0@.len() <= stream.budget
                    &&& drained.1 is Completed || drained.1 is Failed
                    &&& final(self)@.slot.state == LifecycleState::Ready || final(self)@.slot.state
                        == LifecycleState::Error
                },
            },
    {
        let mut chunks: Vec<StreamChunk> = Vec::new();
        if !self.is_streaming() {
            return (chunks, StreamItem::Closed);
        }
        let ghost start = old(self)@.stream->0;
        loop
            invariant
                self.wf(),
                old(self)@.stream == Some(start),
                self@.stream is Some,
                self@.stream->0.budget == start.budget,
                self@.stream->0.delivered() == start.delivered() + chunks@.len(),
                forall|i: int|
                    0 <= i < chunks@.len() ==> (#[trigger] chunks@[i]).step == start.delivered()
                        + i,
                streams_to(old(self)@, chunks@, self@),
            decreases self@.stream->0.remaining(),
        {
            let ghost previous = self@;
            let ghost taken = chunks@;
            let status = self.produce();
            let ghost produced = self@;
            match self.receive() {
                StreamItem::Chunk(chunk) => {
                    chunks.push(chunk);
                    proof {
                        assert(chunks@.drop_last() == taken);
                        assert(chunks@.last() == chunk);
                        assert(produce_steps(previous, produced, status));
                    }
                },
                end => {
                    proof {
                        assert(produce_steps(previous, produced, status));
                    }
                    return (chunks, end);
                },
            }
        }
    }

    /// Settles the slot at the end of a stream that is already taken out.
    fn close(&mut self, end: Option<ProducerEnd>) -> (item: StreamItem)
        requires
            old(self).slot.wf(),
            old(self).slot@.state == LifecycleState::Busy,
            old(self).stream is None,
            old(self).stream_capacity >= 1,
        ensures
            final(self).wf(),
            final(self)@ == (BackendView {
                slot: old(self)@.slot.settled(end is Some && end->0.corrupts()),
                ..old(self)@
            }),
            match end {
                Some(ProducerEnd::Faulted(fault)) => item is Failed && item->Failed_0.says(
                    fault.kind(),
                    fault.message(),
                ),
                _ => item is Completed,
            },
    {
        let outcome: Result<(), ModelFault> = match end {
            Some(ProducerEnd::Faulted(fault)) => Err(fault),
            _ => Ok(()),
        };
        match self.slot.finish_inference(outcome) {
            Ok(()) => StreamItem::Completed,
            Err(error) => StreamItem::Failed(error),
        }
    }
}

} // verus!
