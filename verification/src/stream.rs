//! A streamed prediction: the partial results that the model has produced
//! and the transport has not yet taken, in a buffer of bounded size.
//!
//! The producer runs one generation step at a time and may run ahead of the
//! consumer by no more than the buffer's capacity. The stream ends when the
//! model stops, when it faults, or when the request's step budget is spent.

use crate::error::{ErrorKind, ServiceError};
use crate::models::ModelFault;
use crate::pb::{PredictOptions, Reply};
use std::collections::VecDeque;
use vstd::prelude::*;
use vstd::string::*;

verus! {

/// One partial result of a stream.
#[derive(Debug, PartialEq, Eq)]
pub struct StreamChunk {
    /// The number of the generation step that produced it, from zero.
    pub step: u64,
    pub text: String,
}

impl StreamChunk {
    /// The chunk as the payload of a reply.
    pub fn into_reply(self) -> (reply: Reply)
        ensures
            reply.message@ == vstd::utf8::encode_utf8(self.text@),
    {
        Reply { message: self.text.as_str().as_bytes_vec() }
    }
}

/// How the producer of a stream ended.
#[derive(Debug, PartialEq, Eq)]
pub enum ProducerEnd {
    /// The model met a stop condition, or the step budget is spent.
    Completed,
    /// The model faulted.
    Faulted(ModelFault),
}

impl ProducerEnd {
    /// Whether the stream left the model unusable.
    pub open spec fn corrupts(self) -> bool {
        self matches ProducerEnd::Faulted(fault) && fault.corrupts()
    }

    /// Tells whether the stream left the model unusable.
    pub fn is_corrupting(&self) -> (b: bool)
        ensures
            b == self.corrupts(),
    {
        match self {
            ProducerEnd::Completed => false,
            ProducerEnd::Faulted(fault) => fault.is_corrupting(),
        }
    }
}

/// What the producer is to do next.
#[derive(Clone, Copy, Debug, PartialEq, Eq, Structural)]
pub enum Demand {
    /// Run the generation step with this number.
    Step(u64),
    /// Wait: the buffer is full.
    Suspend,
    /// End the stream as completed: the step budget is spent.
    Finish,
    /// Nothing: the producer has ended.
    Ended,
}

/// The state of one streamed prediction.
#[derive(Debug)]
pub struct PredictStream {
    request: PredictOptions,
    budget: u64,
    capacity: usize,
    produced: u64,
    buffer: VecDeque<StreamChunk>,
    end: Option<ProducerEnd>,
}

/// What a stream holds, for contracts.
pub struct StreamView {
    pub request: PredictOptions,
    /// The most steps the stream may run.
    pub budget: u64,
    /// The most chunks the buffer may hold.
    pub capacity: usize,
    /// The number of chunks produced so far.
    pub produced: u64,
    /// The chunks produced and not yet delivered, oldest first.
    pub buffer: Seq<StreamChunk>,
    /// How the producer ended, once it has.
    pub end: Option<ProducerEnd>,
}

impl StreamView {
    /// The number of chunks delivered so far.
    pub open spec fn delivered(self) -> int {
        self.produced - self.buffer.len()
    }

    /// The buffer keeps within its capacity, the producer within its budget,
    /// and the buffered chunks carry the step numbers that follow the last
    /// delivered one, in order.
    pub open spec fn inv(self) -> bool {
        &&& self.capacity >= 1
        &&& self.buffer.len() <= self.capacity
        &&& self.buffer.len() <= self.produced
        &&& self.produced <= self.budget
        &&& forall|i: int|
            0 <= i < self.buffer.len() ==> (#[trigger] self.buffer[i]).step == self.delivered() + i
    }

    /// The step budget of a request: the number of tokens it asks for.
    pub open spec fn budget_of(request: PredictOptions) -> u64 {
        request.tokens as u64
    }

    /// The stream of `request` before its first step.
    pub open spec fn opened(request: PredictOptions, capacity: usize) -> Self {
        StreamView {
            request,
            budget: Self::budget_of(request),
            capacity,
            produced: 0,
            buffer: Seq::empty(),
            end: None,
        }
    }

    /// What the producer is to do next.
    pub open spec fn demand(self) -> Demand {
        if self.end is Some {
            Demand::Ended
        } else if self.produced >= self.budget {
            Demand::Finish
        } else if self.buffer.len() >= self.capacity {
            Demand::Suspend
        } else {
            Demand::Step(self.produced)
        }
    }

    /// The stream after the step that was due ended in `outcome`: one more
    /// chunk in the buffer, or the producer's end.
    pub open spec fn recorded(self, outcome: Result<Option<String>, ModelFault>) -> Self {
        match outcome {
            Ok(Some(text)) => StreamView {
                produced: (self.produced + 1) as u64,
                buffer: self.buffer.push(StreamChunk { step: self.produced, text }),
                ..self
            },
            Ok(None) => self.ended(ProducerEnd::Completed),
            Err(fault) => self.ended(ProducerEnd::Faulted(fault)),
        }
    }

    /// The stream once its producer has ended.
    pub open spec fn ended(self, end: ProducerEnd) -> Self {
        StreamView { end: Some(end), ..self }
    }

    /// The stream once its oldest buffered chunk is delivered.
    pub open spec fn popped(self) -> Self {
        StreamView { buffer: self.buffer.subrange(1, self.buffer.len() as int), ..self }
    }

    /// An upper bound on the producer and consumer steps that the stream
    /// can still take before its end is delivered.
    pub open spec fn remaining(self) -> int {
        2 * (self.budget - self.produced) + self.buffer.len() + if self.end is None {
            1int
        } else {
            0int
        }
    }
}

impl View for PredictStream {
    type V = StreamView;

    closed spec fn view(&self) -> StreamView {
        StreamView {
            request: self.request,
            budget: self.budget,
            capacity: self.capacity,
            produced: self.produced,
            buffer: self.buffer@,
            end: self.end,
        }
    }
}

impl PredictStream {
    /// The stream's invariant holds.
    pub open spec fn wf(&self) -> bool {
        self@.inv()
    }

    /// Opens the stream of `request` over a buffer of `capacity` chunks. A
    /// request that asks for a negative number of tokens has no bounded
    /// budget and is rejected as an invalid argument; so is a buffer that
    /// could hold no chunk.
    pub fn open(request: PredictOptions, capacity: usize) -> (stream: Result<
        PredictStream,
        ServiceError,
    >)
        ensures
            match stream {
                Ok(stream) => {
                    &&& request.tokens >= 0
                    &&& capacity >= 1
                    &&& stream.wf()
                    &&& stream@ == StreamView::opened(request, capacity)
                },
                Err(error) => if request.tokens < 0 {
                    error.says(
                        ErrorKind::InvalidArgument,
                        "the number of tokens to predict must not be negative"@,
                    )
                } else {
                    &&& capacity == 0
                    &&& error.says(
                        ErrorKind::InvalidArgument,
                        "the stream buffer must hold at least one chunk"@,
                    )
                },
            },
    {
        if request.tokens < 0 {
            return Err(
                ServiceError::new(
                    ErrorKind::InvalidArgument,
                    "the number of tokens to predict must not be negative",
                ),
            );
        }
        if capacity == 0 {
            return Err(
                ServiceError::new(
                    ErrorKind::InvalidArgument,
                    "the stream buffer must hold at least one chunk",
                ),
            );
        }
        let budget = request.tokens as u64;
        Ok(
            PredictStream {
                request,
                budget,
                capacity,
                produced: 0,
                buffer: VecDeque::new(),
                end: None,
            },
        )
    }

    /// The request that the stream answers.
    pub fn request(&self) -> (request: &PredictOptions)
        ensures
            *request == self@.request,
    {
        &self.request
    }

    /// The number of chunks produced so far.
    pub fn produced(&self) -> (n: u64)
        ensures
            n == self@.produced,
    {
        self.produced
    }

    /// The number of chunks that wait in the buffer.
    pub fn buffered(&self) -> (n: usize)
        ensures
            n == self@.buffer.len(),
    {
        self.buffer.len()
    }

    /// What the producer is to do next.
    pub fn demand(&self) -> (demand: Demand)
        requires
            self.wf(),
        ensures
            demand == self@.demand(),
    {
        if self.end.is_some() {
            Demand::Ended
        } else if self.produced >= self.budget {
            Demand::Finish
        } else if self.buffer.len() >= self.capacity {
            Demand::Suspend
        } else {
            Demand::Step(self.produced)
        }
    }

    /// Takes in the outcome of the generation step that was due. Where no
    /// step was due, the outcome is dropped and nothing changes.
    pub fn record(&mut self, outcome: Result<Option<String>, ModelFault>) -> (taken: bool)
        requires
            old(self).wf(),
        ensures
            final(self).wf(),
            taken == (old(self)@.demand() is Step),
            taken ==> final(self)@ == old(self)@.recorded(outcome),
            !taken ==> final(self)@ == old(self)@,
            final(self)@.remaining() <= old(self)@.remaining(),
            taken ==> final(self)@.remaining() < old(self)@.remaining(),
    {
        match self.demand() {
            Demand::Step(step) => {
                match outcome {
                    Ok(Some(text)) => {
                        self.buffer.push_back(StreamChunk { step, text });
                        self.produced = self.produced + 1;
                    },
                    Ok(None) => {
                        self.end = Some(ProducerEnd::Completed);
                    },
                    Err(fault) => {
                        self.end = Some(ProducerEnd::Faulted(fault));
                    },
                }
                true
            },
            _ => false,
        }
    }

    /// Ends the stream as completed where its step budget is spent; changes
    /// nothing otherwise.
    pub fn finish(&mut self) -> (finished: bool)
        requires
            old(self).wf(),
        ensures
            final(self).wf(),
            finished == (old(self)@.demand() is Finish),
            finished ==> final(self)@ == old(self)@.ended(ProducerEnd::Completed),
            !finished ==> final(self)@ == old(self)@,
            final(self)@.remaining() <= old(self)@.remaining(),
            finished ==> final(self)@.remaining() < old(self)@.remaining(),
    {
        match self.demand() {
            Demand::Finish => {
                self.end = Some(ProducerEnd::Completed);
                true
            },
            _ => false,
        }
    }

    /// Tells whether the producer has ended.
    pub fn is_ended(&self) -> (b: bool)
        ensures
            b == (self@.end is Some),
    {
        self.end.is_some()
    }

    /// Hands the consumer the oldest buffered chunk, if there is one. It
    /// comes out with the step number that follows the one delivered before
    /// it.
    pub fn pop(&mut self) -> (chunk: Option<StreamChunk>)
        requires
            old(self).wf(),
        ensures
            final(self).wf(),
            old(self)@.buffer.len() > 0 ==> {
                &&& chunk == Some(old(self)@.buffer[0])
                &&& chunk->0.step == old(self)@.delivered()
                &&& final(self)@ == old(self)@.popped()
                &&& final(self)@.delivered() == old(self)@.delivered() + 1
                &&& final(self)@.remaining() < old(self)@.remaining()
            },
            old(self)@.buffer.len() == 0 ==> chunk is None && final(self)@ == old(self)@,
    {
        self.buffer.pop_front()
    }

    /// Closes the stream and tells how its producer ended, if it has. The
    /// chunks still buffered are dropped.
    pub fn into_end(self) -> (end: Option<ProducerEnd>)
        ensures
            end == self@.end,
    {
        self.end
    }
}

} // verus!
