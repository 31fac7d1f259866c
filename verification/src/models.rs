//! What the service asks of a model runtime.

use crate::pb::{
    GenerateImageRequest, ModelOptions, PredictOptions, TokenizationResponse, TranscriptRequest,
    TranscriptResult, TtsRequest,
};
use crate::error::{ErrorKind, ServiceError};
use vstd::prelude::*;
use vstd::string::*;

pub mod demo;
pub mod llama;

verus! {

/// How a model runtime failed on a request.
#[derive(Clone, Debug, PartialEq, Eq)]
pub enum ModelFault {
    /// The model does not offer the operation.
    Unsupported,
    /// The request failed; the model is as usable as before.
    Failed(String),
    /// The request failed and left the model unusable.
    Corrupted(String),
}

impl ModelFault {
    /// Whether the fault left the model unusable.
    pub open spec fn corrupts(self) -> bool {
        self is Corrupted
    }

    /// The kind under which the service reports the fault: what the model
    /// does not offer is unimplemented, every other fault is internal.
    pub open spec fn kind(self) -> ErrorKind {
        match self {
            ModelFault::Unsupported => ErrorKind::Unimplemented,
            _ => ErrorKind::Internal,
        }
    }

    /// The message under which the service reports the fault: the
    /// runtime's own, where it gave one.
    pub open spec fn message(self) -> Seq<char> {
        match self {
            ModelFault::Unsupported => "the active model does not offer this operation"@,
            ModelFault::Failed(m) => m@,
            ModelFault::Corrupted(m) => m@,
        }
    }

    /// Tells whether the fault left the model unusable.
    pub fn is_corrupting(&self) -> (b: bool)
        ensures
            b == self.corrupts(),
    {
        match self {
            ModelFault::Corrupted(_) => true,
            _ => false,
        }
    }

    /// The error that reports the fault to the caller.
    pub fn into_error(self) -> (error: ServiceError)
        ensures
            error.says(self.kind(), self.message()),
    {
        match self {
            ModelFault::Unsupported => ServiceError::new(
                ErrorKind::Unimplemented,
                "the active model does not offer this operation",
            ),
            ModelFault::Failed(m) => ServiceError { kind: ErrorKind::Internal, message: m },
            ModelFault::Corrupted(m) => ServiceError { kind: ErrorKind::Internal, message: m },
        }
    }
}

/// Whether `answer` is what the service returns for the runtime's `outcome`:
/// the result itself, or the error that reports the fault.
pub open spec fn reports<T>(
    answer: Result<T, ServiceError>,
    outcome: Result<T, ModelFault>,
) -> bool {
    match outcome {
        Ok(value) => answer == Ok::<T, ServiceError>(value),
        Err(fault) => answer is Err && answer->Err_0.says(fault.kind(), fault.message()),
    }
}

/// Whether the runtime's `outcome` left the model unusable.
pub open spec fn corrupted<T>(outcome: Result<T, ModelFault>) -> bool {
    outcome is Err && outcome->Err_0.corrupts()
}

/// A model runtime: how one is loaded, and what a loaded one can be asked.
///
/// Each method comes with a relation that says which outcomes the runtime
/// admits. As declared here a relation admits every outcome; a runtime may
/// narrow it, and then has to keep to it. A runtime answers
/// `ModelFault::Unsupported` to what it does not offer.
pub trait LLM: Sized {
    /// The outcomes that loading with `request` admits.
    open spec fn load_model_spec(request: ModelOptions, outcome: Result<Self, String>) -> bool {
        true
    }

    /// Loads the model that `request` describes; the error is the runtime's
    /// message.
    fn load_model(request: &ModelOptions) -> (outcome: Result<Self, String>)
        ensures
            Self::load_model_spec(*request, outcome),
    ;

    /// The outcomes that one generation step admits, with the model after
    /// it.
    open spec fn predict_step_spec(
        before: Self,
        request: PredictOptions,
        step: u64,
        after: Self,
        outcome: Result<Option<String>, ModelFault>,
    ) -> bool {
        true
    }

    /// Advances the generation for `request` by one step, the one numbered
    /// `step` from zero: the step's partial result, or `None` where the
    /// model has met a stop condition.
    fn predict_step(&mut self, request: &PredictOptions, step: u64) -> (outcome: Result<
        Option<String>,
        ModelFault,
    >)
        ensures
            Self::predict_step_spec(*old(self), *request, step, *final(self), outcome),
    ;

    /// The outcomes that a prediction admits, with the model after it.
    open spec fn predict_spec(
        before: Self,
        request: PredictOptions,
        after: Self,
        outcome: Result<String, ModelFault>,
    ) -> bool {
        true
    }

    /// Predicts the whole output for `request`.
    fn predict(&mut self, request: &PredictOptions) -> (outcome: Result<String, ModelFault>)
        ensures
            Self::predict_spec(*old(self), *request, *final(self), outcome),
    ;

    /// The outcomes that an embedding admits, with the model after it.
    open spec fn embedding_spec(
        before: Self,
        request: PredictOptions,
        after: Self,
        outcome: Result<Vec<u32>, ModelFault>,
    ) -> bool {
        true
    }

    /// Embeds the prompt of `request`; the vector holds the bit patterns of
    /// its numbers.
    fn embedding(&mut self, request: &PredictOptions) -> (outcome: Result<Vec<u32>, ModelFault>)
        ensures
            Self::embedding_spec(*old(self), *request, *final(self), outcome),
    ;

    /// The outcomes that an image generation admits, with the model after it.
    open spec fn generate_image_spec(
        before: Self,
        request: GenerateImageRequest,
        after: Self,
        outcome: Result<crate::pb::Result, ModelFault>,
    ) -> bool {
        true
    }

    /// Generates the image that `request` describes.
    fn generate_image(&mut self, request: &GenerateImageRequest) -> (outcome: Result<
        crate::pb::Result,
        ModelFault,
    >)
        ensures
            Self::generate_image_spec(*old(self), *request, *final(self), outcome),
    ;

    /// The outcomes that a transcription admits, with the model after it.
    open spec fn audio_transcription_spec(
        before: Self,
        request: TranscriptRequest,
        after: Self,
        outcome: Result<TranscriptResult, ModelFault>,
    ) -> bool {
        true
    }

    /// Transcribes the audio that `request` names.
    fn audio_transcription(&mut self, request: &TranscriptRequest) -> (outcome: Result<
        TranscriptResult,
        ModelFault,
    >)
        ensures
            Self::audio_transcription_spec(*old(self), *request, *final(self), outcome),
    ;

    /// The outcomes that a speech synthesis admits, with the model after it.
    open spec fn tts_spec(
        before: Self,
        request: TtsRequest,
        after: Self,
        outcome: Result<crate::pb::Result, ModelFault>,
    ) -> bool {
        true
    }

    /// Synthesises the speech that `request` describes.
    fn tts(&mut self, request: &TtsRequest) -> (outcome: Result<crate::pb::Result, ModelFault>)
        ensures
            Self::tts_spec(*old(self), *request, *final(self), outcome),
    ;

    /// The outcomes that a tokenization admits, with the model after it.
    open spec fn tokenize_string_spec(
        before: Self,
        request: PredictOptions,
        after: Self,
        outcome: Result<TokenizationResponse, ModelFault>,
    ) -> bool {
        true
    }

    /// Splits the prompt of `request` into tokens.
    fn tokenize_string(&mut self, request: &PredictOptions) -> (outcome: Result<
        TokenizationResponse,
        ModelFault,
    >)
        ensures
            Self::tokenize_string_spec(*old(self), *request, *final(self), outcome),
    ;
}

} // verus!
