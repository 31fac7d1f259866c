//! What holds of the service across calls, proved from the contracts of its
//! operations.

use crate::backend::{
    cancel_closes, drains, load_serves, predict_serves, produce_steps, receive_hands,
    stream_starts, streams_to, BackendView, ProducerStatus, StreamItem,
};
use crate::error::{ErrorKind, ServiceError};
use crate::lifecycle::LifecycleState;
use crate::models::{ModelFault, LLM};
use crate::pb::status_response::State;
use crate::pb::{ModelOptions, PredictOptions, Reply};
use crate::slot::SlotView;
use crate::stream::StreamChunk;
use vstd::prelude::*;

verus! {

/// A load of a model identifier that has no backing implementation is
/// answered as not found and leaves the service, and with it the slot's
/// state, as it was.
pub proof fn lemma_unknown_model_not_found<M: LLM>(
    before: BackendView<M>,
    request: ModelOptions,
    next: BackendView<M>,
    answer: Result<crate::pb::Result, ServiceError>,
)
    requires
        load_serves(before, request, next, answer),
        !before.knows(request.model@),
    ensures
        next == before,
        answer is Err,
        answer->Err_0.kind == ErrorKind::NotFound,
{
}

/// A load never leaves a slot that claims a model without holding one: after
/// it the slot keeps its invariant, and it is `Ready` exactly where the load
/// succeeded, unless the load was turned away.
pub proof fn lemma_load_keeps_slot_sound<M: LLM>(
    before: BackendView<M>,
    request: ModelOptions,
    next: BackendView<M>,
    answer: Result<crate::pb::Result, ServiceError>,
)
    requires
        before.inv(),
        load_serves(before, request, next, answer),
    ensures
        next.inv(),
        answer is Ok ==> next.slot.state == LifecycleState::Ready && next.slot.config == Some(
            request,
        ),
        answer is Err && answer->Err_0.kind == ErrorKind::Internal ==> next.slot
            == SlotView::<M>::failed(),
        answer is Err && answer->Err_0.kind != ErrorKind::Internal ==> next == before,
{
}

/// After a load that succeeded the reported state is `Ready`, and a
/// prediction that follows is not turned away for want of a model.
pub proof fn lemma_loaded_is_ready<M: LLM>(
    before: BackendView<M>,
    load: ModelOptions,
    loaded: BackendView<M>,
    ack: Result<crate::pb::Result, ServiceError>,
    request: PredictOptions,
    next: BackendView<M>,
    answer: Result<Reply, ServiceError>,
)
    requires
        before.inv(),
        load_serves(before, load, loaded, ack),
        ack is Ok,
        predict_serves(loaded, request, next, answer),
    ensures
        loaded.slot.state == LifecycleState::Ready,
        loaded.slot.state.reported() == State::Ready,
        loaded.slot.state.reported().number() == 2,
        !(answer is Err && answer->Err_0.kind == ErrorKind::FailedPrecondition),
        !(answer is Err && answer->Err_0.kind == ErrorKind::Unavailable),
{
}

/// A prediction that arrives while the slot holds no model and loads none
/// fails for want of a model and changes nothing. This holds in
/// `Uninitialized`, and in `Error` as well.
pub proof fn lemma_predict_needs_model<M: LLM>(
    before: BackendView<M>,
    request: PredictOptions,
    next: BackendView<M>,
    answer: Result<Reply, ServiceError>,
)
    requires
        before.slot.state == LifecycleState::Uninitialized || before.slot.state
            == LifecycleState::Error,
        predict_serves(before, request, next, answer),
    ensures
        next == before,
        answer is Err,
        answer->Err_0.kind == ErrorKind::FailedPrecondition,
        answer->Err_0.message@ == "no model loaded"@,
{
}

/// While a request runs against the model, or a load is outstanding, a
/// prediction is unavailable and changes nothing: at most one request runs
/// against the model at a time.
pub proof fn lemma_busy_excludes<M: LLM>(
    before: BackendView<M>,
    request: PredictOptions,
    next: BackendView<M>,
    answer: Result<Reply, ServiceError>,
)
    requires
        before.slot.state == LifecycleState::Busy || before.slot.state == LifecycleState::Loading,
        predict_serves(before, request, next, answer),
    ensures
        next == before,
        answer is Err,
        answer->Err_0.kind == ErrorKind::Unavailable,
        answer->Err_0.kind.retryable(),
{
}

/// A prediction that was admitted has ended when it returns: the slot is
/// `Ready` for the next request, or in `Error`, and never left `Busy`. A
/// request that follows therefore finds the model as the first one left it.
pub proof fn lemma_predict_releases_slot<M: LLM>(
    before: BackendView<M>,
    request: PredictOptions,
    next: BackendView<M>,
    answer: Result<Reply, ServiceError>,
)
    requires
        before.inv(),
        before.slot.state == LifecycleState::Ready,
        predict_serves(before, request, next, answer),
    ensures
        next.inv(),
        next.slot.state == LifecycleState::Ready || next.slot.state == LifecycleState::Error,
        answer is Ok ==> next.slot.state == LifecycleState::Ready,
        next.slot.state == LifecycleState::Error ==> answer is Err && answer->Err_0.kind
            == ErrorKind::Internal,
        next.slot.state == LifecycleState::Ready ==> next.slot.config == before.slot.config,
{
}

/// A stream starts before its first step, and its step budget is the number
/// of tokens that the request asks for.
pub proof fn lemma_stream_starts_at_zero<M: LLM>(
    before: BackendView<M>,
    request: PredictOptions,
    next: BackendView<M>,
    answer: Result<(), ServiceError>,
)
    requires
        before.inv(),
        stream_starts(before, request, next, answer),
        answer is Ok,
    ensures
        next.inv(),
        next.slot.state == LifecycleState::Busy,
        next.stream is Some,
        next.stream->0.delivered() == 0,
        next.stream->0.budget == request.tokens,
        next.stream->0.remaining() == 2 * request.tokens + 1,
{
}

/// A step of the producer delivers nothing and never adds to what the stream
/// can still do; a step on which the model ran takes away from it. The
/// producer keeps within the buffer's capacity and the step budget, and the
/// slot stays `Busy`.
pub proof fn lemma_producer_is_bounded<M: LLM>(
    before: BackendView<M>,
    next: BackendView<M>,
    status: ProducerStatus,
)
    requires
        before.inv(),
        before.stream is Some,
        produce_steps(before, next, status),
    ensures
        next.inv(),
        next.stream is Some,
        next.slot.state == LifecycleState::Busy,
        next.stream->0.delivered() == before.stream->0.delivered(),
        next.stream->0.budget == before.stream->0.budget,
        next.stream->0.buffer.len() <= next.stream->0.capacity,
        next.stream->0.produced <= next.stream->0.budget,
        next.stream->0.remaining() <= before.stream->0.remaining(),
        status == ProducerStatus::Produced ==> next.stream->0.remaining()
            < before.stream->0.remaining(),
        status == ProducerStatus::Suspended ==> next == before && before.stream->0.buffer.len()
            == before.stream->0.capacity,
        status == ProducerStatus::Produced || status == ProducerStatus::Finished
            ==> next.stream->0.buffer.len() > 0 || next.stream->0.end is Some,
{
    let stream = before.stream->0;
    if stream.demand() is Step {
        let (after, outcome) = choose|after: M, outcome: Result<Option<String>, ModelFault>|
            {
                &&& #[trigger] M::predict_step_spec(
                    before.slot.model->0,
                    stream.request,
                    stream.demand()->Step_0,
                    after,
                    outcome,
                )
                &&& next == (BackendView {
                    slot: before.slot.with_model(after),
                    stream: Some(stream.recorded(outcome)),
                    ..before
                })
            };
        let recorded = stream.recorded(outcome);
        assert(recorded.inv()) by {
            if outcome matches Ok(Some(text)) {
                assert forall|i: int| 0 <= i < recorded.buffer.len() implies (
                #[trigger] recorded.buffer[i]).step == recorded.delivered() + i by {
                    if i < stream.buffer.len() {
                        assert(recorded.buffer[i] == stream.buffer[i]);
                    }
                }
            }
        }
    }
}

/// The chunks of a stream come out in strictly increasing step order: each
/// carries the number of chunks delivered before it, and its delivery adds
/// one to that number, which never exceeds the step budget. A delivery
/// takes away from what the stream can still do.
pub proof fn lemma_chunks_in_step_order<M>(
    before: BackendView<M>,
    next: BackendView<M>,
    item: StreamItem,
)
    requires
        before.inv(),
        before.stream is Some,
        receive_hands(before, next, item),
        item is Chunk,
    ensures
        next.inv(),
        next.stream is Some,
        item->Chunk_0.step == before.stream->0.delivered(),
        next.stream->0.delivered() == before.stream->0.delivered() + 1,
        next.stream->0.delivered() <= next.stream->0.budget,
        next.stream->0.remaining() < before.stream->0.remaining(),
{
    let stream = before.stream->0;
    let popped = stream.popped();
    assert(stream.buffer.len() > 0);
    assert(stream.buffer[0].step == stream.delivered());
    assert forall|i: int| 0 <= i < popped.buffer.len() implies (#[trigger] popped.buffer[i]).step
        == popped.delivered() + i by {
        assert(popped.buffer[i] == stream.buffer[i + 1]);
    }
}

/// The end of a stream is delivered once: it closes the stream and gives the
/// slot back, `Ready`, or in `Error` where the model was left unusable.
pub proof fn lemma_stream_end_releases_slot<M>(
    before: BackendView<M>,
    next: BackendView<M>,
    item: StreamItem,
)
    requires
        before.inv(),
        before.stream is Some,
        receive_hands(before, next, item),
        item is Completed || item is Failed,
    ensures
        next.inv(),
        next.stream is None,
        before.stream->0.buffer.len() == 0,
        item is Completed ==> next.slot.state == LifecycleState::Ready,
        next.slot.state == LifecycleState::Ready || next.slot.state == LifecycleState::Error,
{
}

/// Cancelling a stream gives the slot back at once, `Ready` unless the
/// producer had already ended with the model unusable, and stops the
/// producer: its next step finds no stream, runs no model and changes
/// nothing.
pub proof fn lemma_cancel_stops_production<M: LLM>(
    before: BackendView<M>,
    cancelled: BackendView<M>,
    next: BackendView<M>,
    status: ProducerStatus,
)
    requires
        before.inv(),
        before.stream is Some,
        cancel_closes(before, cancelled),
        produce_steps(cancelled, next, status),
    ensures
        cancelled.inv(),
        cancelled.stream is None,
        !(before.stream->0.end is Some && before.stream->0.end->0.corrupts())
            ==> cancelled.slot.state == LifecycleState::Ready && cancelled.slot.model
            == before.slot.model,
        cancelled.slot.state == LifecycleState::Ready || cancelled.slot.state
            == LifecycleState::Error,
        status == ProducerStatus::Idle,
        next == cancelled,
{
}

/// Loading a model, then another, then the first again leaves the service
/// as loading the first alone into a fresh slot could have left it: nothing
/// of the second model stays behind.
pub proof fn lemma_reload_round_trip<M: LLM>(
    start: BackendView<M>,
    first: ModelOptions,
    second: ModelOptions,
    after_first: BackendView<M>,
    after_second: BackendView<M>,
    after_third: BackendView<M>,
    ack_first: Result<crate::pb::Result, ServiceError>,
    ack_second: Result<crate::pb::Result, ServiceError>,
    ack_third: Result<crate::pb::Result, ServiceError>,
)
    requires
        start.inv(),
        start.stream is None,
        load_serves(start, first, after_first, ack_first),
        load_serves(after_first, second, after_second, ack_second),
        load_serves(after_second, first, after_third, ack_third),
        ack_first is Ok,
        ack_second is Ok,
        ack_third is Ok,
    ensures
        after_third.inv(),
        after_third.slot.state == LifecycleState::Ready,
        after_third.slot.config == Some(first),
        load_serves(
            BackendView::<M>::started(start.models, start.stream_capacity),
            first,
            after_third,
            ack_third,
        ),
{
    let fresh = BackendView::<M>::started(start.models, start.stream_capacity);
    let outcome = choose|outcome: Result<M, String>|
        {
            &&& #[trigger] M::load_model_spec(first, outcome)
            &&& after_third.slot == SlotView::loaded(first, outcome)
            &&& crate::backend::acknowledges(ack_third, first, outcome)
        };
    assert(M::load_model_spec(first, outcome));
    assert(fresh.knows(first.model@));
    assert(after_third == (BackendView { slot: after_third.slot, ..fresh }));
}

/// Of two loads in a row the last one wins: where it succeeded, the service
/// is as loading its model alone into a fresh slot could have left it,
/// whatever the first load did. Loading the same model twice is therefore
/// the same as loading it once.
pub proof fn lemma_last_load_wins<M: LLM>(
    start: BackendView<M>,
    first: ModelOptions,
    second: ModelOptions,
    after_first: BackendView<M>,
    after_second: BackendView<M>,
    ack_first: Result<crate::pb::Result, ServiceError>,
    ack_second: Result<crate::pb::Result, ServiceError>,
)
    requires
        start.inv(),
        load_serves(start, first, after_first, ack_first),
        load_serves(after_first, second, after_second, ack_second),
        ack_second is Ok,
    ensures
        after_second.inv(),
        after_second.slot.state == LifecycleState::Ready,
        after_second.slot.config == Some(second),
        load_serves(
            BackendView::<M>::started(start.models, start.stream_capacity),
            second,
            after_second,
            ack_second,
        ),
{
    lemma_load_keeps_slot_sound(start, first, after_first, ack_first);
    let fresh = BackendView::<M>::started(start.models, start.stream_capacity);
    let outcome = choose|outcome: Result<M, String>|
        {
            &&& #[trigger] M::load_model_spec(second, outcome)
            &&& after_second.slot == SlotView::loaded(second, outcome)
            &&& crate::backend::acknowledges(ack_second, second, outcome)
        };
    assert(M::load_model_spec(second, outcome));
    assert(fresh.knows(second.model@));
    assert(after_second == (BackendView { slot: after_second.slot, ..fresh }));
}

/// A load moves the slot along the lifecycle: it leaves the state as it
/// was, or takes it through `Loading` to `Ready` or to `Error`.
pub proof fn lemma_load_follows_lifecycle<M: LLM>(
    before: BackendView<M>,
    request: ModelOptions,
    next: BackendView<M>,
    answer: Result<crate::pb::Result, ServiceError>,
)
    requires
        load_serves(before, request, next, answer),
    ensures
        next.slot.state == before.slot.state || (before.slot.state.steps_to(
            LifecycleState::Loading,
        ) && LifecycleState::Loading.steps_to(next.slot.state)),
{
}

/// A prediction moves the slot along the lifecycle: it leaves the state as
/// it was, or takes it through `Busy` to `Ready` or to `Error`.
pub proof fn lemma_predict_follows_lifecycle<M: LLM>(
    before: BackendView<M>,
    request: PredictOptions,
    next: BackendView<M>,
    answer: Result<Reply, ServiceError>,
)
    requires
        predict_serves(before, request, next, answer),
    ensures
        next.slot.state == before.slot.state || (before.slot.state.steps_to(LifecycleState::Busy)
            && LifecycleState::Busy.steps_to(next.slot.state)),
{
}

/// However a stream is run, by rounds of one producer step and one delivery
/// each, its chunks come out in strictly increasing step order: the chunks
/// delivered carry the numbers that follow the one delivered last before,
/// one by one, and there are never more of them than the step budget
/// allows. The stream stays under way and the slot `Busy`.
pub proof fn lemma_stream_in_order<M: LLM>(
    start: BackendView<M>,
    chunks: Seq<StreamChunk>,
    current: BackendView<M>,
)
    requires
        start.inv(),
        start.stream is Some,
        streams_to(start, chunks, current),
    ensures
        current.inv(),
        current.stream is Some,
        current.slot.state == LifecycleState::Busy,
        current.stream->0.budget == start.stream->0.budget,
        current.stream->0.delivered() == start.stream->0.delivered() + chunks.len(),
        start.stream->0.delivered() + chunks.len() <= start.stream->0.budget,
        forall|i: int|
            0 <= i < chunks.len() ==> (#[trigger] chunks[i]).step == start.stream->0.delivered()
                + i,
        forall|i: int, j: int|
            0 <= i < j < chunks.len() ==> (#[trigger] chunks[i]).step < (#[trigger] chunks[j]).step,
    decreases chunks.len(),
{
    if chunks.len() > 0 {
        let (previous, produced, status) = choose|
            previous: BackendView<M>,
            produced: BackendView<M>,
            status: ProducerStatus,
        |
            {
                &&& streams_to(start, chunks.drop_last(), previous)
                &&& #[trigger] produce_steps(previous, produced, status)
                &&& receive_hands(produced, current, StreamItem::Chunk(chunks.last()))
            };
        lemma_stream_in_order(start, chunks.drop_last(), previous);
        lemma_producer_is_bounded(previous, produced, status);
        lemma_chunks_in_step_order(produced, current, StreamItem::Chunk(chunks.last()));
        assert forall|i: int| 0 <= i < chunks.len() implies (#[trigger] chunks[i]).step
            == start.stream->0.delivered() + i by {
            if i < chunks.len() - 1 {
                assert(chunks[i] == chunks.drop_last()[i]);
            }
        }
    }
}

/// A stream that was run to its end has ended for good: its last item is
/// the completion or the error, the stream is closed, and the slot is given
/// back, `Ready`, or in `Error`. What was said of the chunks on the way
/// holds of all of them.
pub proof fn lemma_drained_stream_is_closed<M: LLM>(
    before: BackendView<M>,
    chunks: Seq<StreamChunk>,
    end: StreamItem,
    next: BackendView<M>,
)
    requires
        before.inv(),
        before.stream is Some,
        drains(before, chunks, end, next),
    ensures
        next.inv(),
        next.stream is None,
        end is Completed || end is Failed,
        next.slot.state == LifecycleState::Ready || next.slot.state == LifecycleState::Error,
        end is Completed ==> next.slot.state == LifecycleState::Ready,
        before.stream->0.delivered() + chunks.len() <= before.stream->0.budget,
        forall|i: int|
            0 <= i < chunks.len() ==> (#[trigger] chunks[i]).step == before.stream->0.delivered()
                + i,
{
    let (last, produced, status) = choose|
        last: BackendView<M>,
        produced: BackendView<M>,
        status: ProducerStatus,
    |
        {
            &&& streams_to(before, chunks, last)
            &&& #[trigger] produce_steps(last, produced, status)
            &&& receive_hands(produced, next, end)
        };
    lemma_stream_in_order(before, chunks, last);
    lemma_producer_is_bounded(last, produced, status);
}

} // verus!
