//! A runtime without a model behind it: it answers a prompt with the prompt.
//! It serves to try a deployment out, and shows what a runtime promises when
//! it narrows the relations of `LLM`.

use crate::backend::{
    drains, load_serves, predict_serves, produce_steps, receive_hands, stream_starts, streams_to,
    BackendView, ProducerStatus, StreamItem,
};
use crate::error::ServiceError;
use crate::lifecycle::LifecycleState;
use crate::models::{ModelFault, LLM};
use crate::pb::{
    GenerateImageRequest, ModelOptions, PredictOptions, Reply, TokenizationResponse,
    TranscriptRequest, TranscriptResult, TtsRequest,
};
use crate::stream::{ProducerEnd, StreamChunk, StreamView};
use vstd::prelude::*;

verus! {

/// The echo runtime. It has no state.
#[derive(Clone, Copy, Debug, PartialEq, Eq, Structural)]
pub struct Demo {}

impl LLM for Demo {
    /// Loading always succeeds.
    open spec fn load_model_spec(request: ModelOptions, outcome: Result<Self, String>) -> bool {
        outcome is Ok
    }

    fn load_model(request: &ModelOptions) -> (outcome: Result<Self, String>) {
        Ok(Demo {  })
    }

    /// The first step gives the prompt, and the second stops.
    open spec fn predict_step_spec(
        before: Self,
        request: PredictOptions,
        step: u64,
        after: Self,
        outcome: Result<Option<String>, ModelFault>,
    ) -> bool {
        &&& outcome is Ok
        &&& if step == 0 {
            outcome->Ok_0 == Some(request.prompt)
        } else {
            outcome->Ok_0 is None
        }
    }

    fn predict_step(&mut self, request: &PredictOptions, step: u64) -> (outcome: Result<
        Option<String>,
        ModelFault,
    >) {
        if step == 0 {
            Ok(Some(request.prompt.clone()))
        } else {
            Ok(None)
        }
    }

    /// A prediction gives the prompt.
    open spec fn predict_spec(
        before: Self,
        request: PredictOptions,
        after: Self,
        outcome: Result<String, ModelFault>,
    ) -> bool {
        outcome == Ok::<String, ModelFault>(request.prompt)
    }

    fn predict(&mut self, request: &PredictOptions) -> (outcome: Result<String, ModelFault>) {
        Ok(request.prompt.clone())
    }

    /// The runtime embeds nothing.
    open spec fn embedding_spec(
        before: Self,
        request: PredictOptions,
        after: Self,
        outcome: Result<Vec<u32>, ModelFault>,
    ) -> bool {
        outcome == Err::<Vec<u32>, ModelFault>(ModelFault::Unsupported)
    }

    fn embedding(&mut self, request: &PredictOptions) -> (outcome: Result<Vec<u32>, ModelFault>) {
        Err(ModelFault::Unsupported)
    }

    /// The runtime generates no images.
    open spec fn generate_image_spec(
        before: Self,
        request: GenerateImageRequest,
        after: Self,
        outcome: Result<crate::pb::Result, ModelFault>,
    ) -> bool {
        outcome == Err::<crate::pb::Result, ModelFault>(ModelFault::Unsupported)
    }

    fn generate_image(&mut self, request: &GenerateImageRequest) -> (outcome: Result<
        crate::pb::Result,
        ModelFault,
    >) {
        Err(ModelFault::Unsupported)
    }

    /// The runtime transcribes nothing.
    open spec fn audio_transcription_spec(
        before: Self,
        request: TranscriptRequest,
        after: Self,
        outcome: Result<TranscriptResult, ModelFault>,
    ) -> bool {
        outcome == Err::<TranscriptResult, ModelFault>(ModelFault::Unsupported)
    }

    fn audio_transcription(&mut self, request: &TranscriptRequest) -> (outcome: Result<
        TranscriptResult,
        ModelFault,
    >) {
        Err(ModelFault::Unsupported)
    }

    /// The runtime speaks nothing.
    open spec fn tts_spec(
        before: Self,
        request: TtsRequest,
        after: Self,
        outcome: Result<crate::pb::Result, ModelFault>,
    ) -> bool {
        outcome == Err::<crate::pb::Result, ModelFault>(ModelFault::Unsupported)
    }

    fn tts(&mut self, request: &TtsRequest) -> (outcome: Result<crate::pb::Result, ModelFault>) {
        Err(ModelFault::Unsupported)
    }

    /// The runtime has no tokens.
    open spec fn tokenize_string_spec(
        before: Self,
        request: PredictOptions,
        after: Self,
        outcome: Result<TokenizationResponse, ModelFault>,
    ) -> bool {
        outcome == Err::<TokenizationResponse, ModelFault>(ModelFault::Unsupported)
    }

    fn tokenize_string(&mut self, request: &PredictOptions) -> (outcome: Result<
        TokenizationResponse,
        ModelFault,
    >) {
        Err(ModelFault::Unsupported)
    }
}

/// A service over the echo runtime loads every model that it knows, and
/// once `Ready` answers every prediction with its prompt as bytes and stays
/// as it was.
pub proof fn lemma_demo_echoes(
    before: BackendView<Demo>,
    load: ModelOptions,
    loaded: BackendView<Demo>,
    ack: Result<crate::pb::Result, ServiceError>,
    request: PredictOptions,
    next: BackendView<Demo>,
    answer: Result<Reply, ServiceError>,
)
    requires
        before.inv(),
        before.knows(load.model@),
        before.slot.state.admits_load(),
        load_serves(before, load, loaded, ack),
        predict_serves(loaded, request, next, answer),
    ensures
        ack is Ok,
        ack->Ok_0.success,
        loaded.slot.state == LifecycleState::Ready,
        answer is Ok,
        answer->Ok_0.message@ == vstd::utf8::encode_utf8(request.prompt@),
        next == loaded,
{
    assert(loaded.slot.model == Some(Demo {  }));
    let (after, outcome) = choose|after: Demo, outcome: Result<String, ModelFault>|
        {
            &&& #[trigger] Demo::predict_spec(loaded.slot.model->0, request, after, outcome)
            &&& crate::backend::settled_after(
                loaded,
                after,
                crate::models::corrupted(outcome),
                next,
            )
            &&& crate::backend::replies(answer, outcome)
        };
    assert(after == Demo {  });
    assert(next.slot =~= loaded.slot);
}

/// The service over the echo runtime after the first round of a stream: the
/// prompt is produced and delivered.
pub open spec fn echoed(opened: BackendView<Demo>) -> BackendView<Demo> {
    BackendView {
        stream: Some(StreamView { produced: 1, buffer: Seq::empty(), ..opened.stream->0 }),
        ..opened
    }
}

/// Whether the service has just started a stream for `request` over the echo
/// runtime.
pub open spec fn just_opened(opened: BackendView<Demo>, request: PredictOptions) -> bool {
    &&& opened.inv()
    &&& opened.stream == Some(StreamView::opened(request, opened.stream_capacity))
    &&& request.tokens >= 1
}

proof fn lemma_demo_rounds(
    opened: BackendView<Demo>,
    request: PredictOptions,
    chunks: Seq<StreamChunk>,
    current: BackendView<Demo>,
)
    requires
        just_opened(opened, request),
        streams_to(opened, chunks, current),
    ensures
        chunks.len() <= 1,
        chunks.len() == 0 ==> current == opened,
        chunks.len() == 1 ==> chunks[0] == (StreamChunk { step: 0, text: request.prompt })
            && current == echoed(opened),
    decreases chunks.len(),
{
    if chunks.len() > 0 {
        let (previous, produced, status) = choose|
            previous: BackendView<Demo>,
            produced: BackendView<Demo>,
            status: ProducerStatus,
        |
            {
                &&& streams_to(opened, chunks.drop_last(), previous)
                &&& #[trigger] produce_steps(previous, produced, status)
                &&& receive_hands(produced, current, StreamItem::Chunk(chunks.last()))
            };
        lemma_demo_rounds(opened, request, chunks.drop_last(), previous);
        let stream = previous.stream->0;
        if chunks.drop_last().len() == 0 {
            assert(stream.demand() == crate::stream::Demand::Step(0));
            let after_step = produced.stream->0;
            assert(after_step.buffer =~= seq![StreamChunk { step: 0, text: request.prompt }]);
            assert(after_step.buffer[0] == (StreamChunk { step: 0, text: request.prompt }));
            assert(after_step.popped().buffer =~= Seq::<StreamChunk>::empty());
            assert(produced.slot == opened.slot);
        } else {
            assert(previous == echoed(opened));
            assert(stream.buffer.len() == 0);
            assert(produced.stream->0.buffer.len() == 0);
            assert(produced.stream->0.end is Some);
            assert(false);
        }
    }
}

/// A stream over the echo runtime hands out the prompt once, as the chunk
/// of step zero, and completes; the service is then as it was before the
/// stream.
pub proof fn lemma_demo_streams_prompt_once(
    before: BackendView<Demo>,
    request: PredictOptions,
    opened: BackendView<Demo>,
    started: Result<(), ServiceError>,
    chunks: Seq<StreamChunk>,
    end: StreamItem,
    next: BackendView<Demo>,
)
    requires
        before.inv(),
        before.slot.state == LifecycleState::Ready,
        request.tokens >= 1,
        stream_starts(before, request, opened, started),
        drains(opened, chunks, end, next),
    ensures
        started is Ok,
        chunks == seq![StreamChunk { step: 0, text: request.prompt }],
        end is Completed,
        next == before,
{
    assert(before.stream is None);
    assert(just_opened(opened, request));
    let (last, produced, status) = choose|
        last: BackendView<Demo>,
        produced: BackendView<Demo>,
        status: ProducerStatus,
    |
        {
            &&& streams_to(opened, chunks, last)
            &&& #[trigger] produce_steps(last, produced, status)
            &&& receive_hands(produced, next, end)
        };
    lemma_demo_rounds(opened, request, chunks, last);
    if chunks.len() == 0 {
        assert(last.stream->0.demand() == crate::stream::Demand::Step(0));
        assert(produced.stream->0.buffer.len() > 0);
        assert(false);
    }
    assert(chunks =~= seq![StreamChunk { step: 0, text: request.prompt }]);
    assert(produced.stream->0.buffer.len() == 0);
    assert(produced.stream->0.end == Some(ProducerEnd::Completed));
    assert(next.slot =~= before.slot);
}

} // verus!
