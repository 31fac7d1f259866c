//! The entry point of the service: which operation a call names, and the
//! dispatch of each call to its handler.

use crate::backend::{
    audio_transcription_serves, embedding_serves, generate_image_serves, load_serves,
    alive, predict_serves, stream_starts, tokenize_string_serves, tts_serves, BackendView,
    BurnBackend,
};
use crate::error::{ErrorKind, ServiceError};
use crate::models::LLM;
use crate::pb::{
    EmbeddingResult, GenerateImageRequest, HealthMessage, ModelOptions, PredictOptions, Reply,
    StatusResponse, TokenizationResponse, TranscriptRequest, TranscriptResult, TtsRequest,
};
use crate::status::resident_only;
use vstd::prelude::*;
use vstd::string::*;

verus! {

/// The name of the service in the paths of its operations.
pub const NAME: &'static str = "backend.Backend";

/// The ten operations of the service.
#[derive(Clone, Copy, Debug, PartialEq, Eq, Structural, Hash)]
pub enum Operation {
    Health,
    Predict,
    LoadModel,
    PredictStream,
    Embedding,
    GenerateImage,
    AudioTranscription,
    Tts,
    TokenizeString,
    Status,
}

impl Operation {
    /// The path under which a call names the operation.
    pub open spec fn path_spec(self) -> Seq<char> {
        match self {
            Operation::Health => "/backend.Backend/Health"@,
            Operation::Predict => "/backend.Backend/Predict"@,
            Operation::LoadModel => "/backend.Backend/LoadModel"@,
            Operation::PredictStream => "/backend.Backend/PredictStream"@,
            Operation::Embedding => "/backend.Backend/Embedding"@,
            Operation::GenerateImage => "/backend.Backend/GenerateImage"@,
            Operation::AudioTranscription => "/backend.Backend/AudioTranscription"@,
            Operation::Tts => "/backend.Backend/TTS"@,
            Operation::TokenizeString => "/backend.Backend/TokenizeString"@,
            Operation::Status => "/backend.Backend/Status"@,
        }
    }

    /// Whether the operation answers with a stream of messages instead of
    /// one.
    pub open spec fn server_streaming(self) -> bool {
        self == Operation::PredictStream
    }

    /// Whether the operation runs against the held model, and so is
    /// admitted only from `Ready`.
    pub open spec fn needs_model(self) -> bool {
        self != Operation::Health && self != Operation::Status && self != Operation::LoadModel
    }

    /// The path of the operation.
    pub fn path(&self) -> (path: &'static str)
        ensures
            path@ == self.path_spec(),
    {
        match self {
            Operation::Health => "/backend.Backend/Health",
            Operation::Predict => "/backend.Backend/Predict",
            Operation::LoadModel => "/backend.Backend/LoadModel",
            Operation::PredictStream => "/backend.Backend/PredictStream",
            Operation::Embedding => "/backend.Backend/Embedding",
            Operation::GenerateImage => "/backend.Backend/GenerateImage",
            Operation::AudioTranscription => "/backend.Backend/AudioTranscription",
            Operation::Tts => "/backend.Backend/TTS",
            Operation::TokenizeString => "/backend.Backend/TokenizeString",
            Operation::Status => "/backend.Backend/Status",
        }
    }

    /// The operation with the given path, if there is one.
    pub fn from_path(path: &str) -> (operation: Option<Operation>)
        ensures
            forall|op: Operation| #[trigger] op.path_spec() == path@ ==> operation == Some(op),
            operation matches Some(op) ==> op.path_spec() == path@,
    {
        let asked = path.to_owned();
        let operation = if asked == String::from_str("/backend.Backend/Health") {
            Some(Operation::Health)
        } else if asked == String::from_str("/backend.Backend/Predict") {
            Some(Operation::Predict)
        } else if asked == String::from_str("/backend.Backend/LoadModel") {
            Some(Operation::LoadModel)
        } else if asked == String::from_str("/backend.Backend/PredictStream") {
            Some(Operation::PredictStream)
        } else if asked == String::from_str("/backend.Backend/Embedding") {
            Some(Operation::Embedding)
        } else if asked == String::from_str("/backend.Backend/GenerateImage") {
            Some(Operation::GenerateImage)
        } else if asked == String::from_str("/backend.Backend/AudioTranscription") {
            Some(Operation::AudioTranscription)
        } else if asked == String::from_str("/backend.Backend/TTS") {
            Some(Operation::Tts)
        } else if asked == String::from_str("/backend.Backend/TokenizeString") {
            Some(Operation::TokenizeString)
        } else if asked == String::from_str("/backend.Backend/Status") {
            Some(Operation::Status)
        } else {
            None
        };
        proof {
            assert forall|op: Operation| #[trigger] op.path_spec() == path@ implies operation
                == Some(op) by {
                if operation is Some {
                    lemma_paths_distinct(op, operation->0);
                }
            }
        }
        operation
    }

    /// Tells whether the operation answers with a stream.
    pub fn is_server_streaming(&self) -> (b: bool)
        ensures
            b == self.server_streaming(),
    {
        match self {
            Operation::PredictStream => true,
            _ => false,
        }
    }

    /// Tells whether the operation runs against the held model.
    pub fn requires_model(&self) -> (b: bool)
        ensures
            b == self.needs_model(),
    {
        match self {
            Operation::Health => false,
            Operation::Status => false,
            Operation::LoadModel => false,
            _ => true,
        }
    }
}

/// No two operations share a path.
pub proof fn lemma_paths_distinct(a: Operation, b: Operation)
    ensures
        a.path_spec() == b.path_spec() ==> a == b,
{
    reveal_strlit("/backend.Backend/Health");
    reveal_strlit("/backend.Backend/Predict");
    reveal_strlit("/backend.Backend/LoadModel");
    reveal_strlit("/backend.Backend/PredictStream");
    reveal_strlit("/backend.Backend/Embedding");
    reveal_strlit("/backend.Backend/GenerateImage");
    reveal_strlit("/backend.Backend/AudioTranscription");
    reveal_strlit("/backend.Backend/TTS");
    reveal_strlit("/backend.Backend/TokenizeString");
    reveal_strlit("/backend.Backend/Status");
    if a != b && a.path_spec() == b.path_spec() {
        assert(a.path_spec().len() == b.path_spec().len());
        assert(a.path_spec()[17] == b.path_spec()[17]);
    }
}

/// Finds the operation that a call's path names. A path that names none is
/// answered as unimplemented.
pub fn route(path: &str) -> (operation: Result<Operation, ServiceError>)
    ensures
        forall|op: Operation|
            #[trigger] op.path_spec() == path@ ==> operation == Ok::<Operation, ServiceError>(op),
        match operation {
            Ok(op) => op.path_spec() == path@,
            Err(error) => error.says(ErrorKind::Unimplemented, "no such operation"@),
        },
{
    match Operation::from_path(path) {
        Some(operation) => Ok(operation),
        None => Err(ServiceError::new(ErrorKind::Unimplemented, "no such operation")),
    }
}

/// A call: an operation with its request.
#[derive(Clone, Debug, PartialEq, Eq)]
pub enum Call {
    Health(HealthMessage),
    Predict(PredictOptions),
    LoadModel(ModelOptions),
    PredictStream(PredictOptions),
    Embedding(PredictOptions),
    GenerateImage(GenerateImageRequest),
    AudioTranscription(TranscriptRequest),
    Tts(TtsRequest),
    TokenizeString(PredictOptions),
    Status(HealthMessage),
}

impl Call {
    /// The operation that the call asks for.
    pub open spec fn operation_spec(self) -> Operation {
        match self {
            Call::Health(_) => Operation::Health,
            Call::Predict(_) => Operation::Predict,
            Call::LoadModel(_) => Operation::LoadModel,
            Call::PredictStream(_) => Operation::PredictStream,
            Call::Embedding(_) => Operation::Embedding,
            Call::GenerateImage(_) => Operation::GenerateImage,
            Call::AudioTranscription(_) => Operation::AudioTranscription,
            Call::Tts(_) => Operation::Tts,
            Call::TokenizeString(_) => Operation::TokenizeString,
            Call::Status(_) => Operation::Status,
        }
    }

    /// The operation of the call.
    pub fn operation(&self) -> (operation: Operation)
        ensures
            operation == self.operation_spec(),
    {
        match self {
            Call::Health(_) => Operation::Health,
            Call::Predict(_) => Operation::Predict,
            Call::LoadModel(_) => Operation::LoadModel,
            Call::PredictStream(_) => Operation::PredictStream,
            Call::Embedding(_) => Operation::Embedding,
            Call::GenerateImage(_) => Operation::GenerateImage,
            Call::AudioTranscription(_) => Operation::AudioTranscription,
            Call::Tts(_) => Operation::Tts,
            Call::TokenizeString(_) => Operation::TokenizeString,
            Call::Status(_) => Operation::Status,
        }
    }
}

/// What a call is answered with.
#[derive(Debug, PartialEq, Eq)]
pub enum Answer {
    Reply(Reply),
    Result(crate::pb::Result),
    Embedding(EmbeddingResult),
    Transcript(TranscriptResult),
    Tokens(TokenizationResponse),
    Status(StatusResponse),
    /// The stream has started; its items are to be taken from the service.
    Streaming,
}

/// The answer to a call as the handler for replies gave it.
pub open spec fn as_reply(answer: Result<Answer, ServiceError>) -> Result<Reply, ServiceError> {
    match answer {
        Ok(Answer::Reply(reply)) => Ok(reply),
        Ok(_) => arbitrary(),
        Err(error) => Err(error),
    }
}

/// The answer to a call as the handler for acknowledgements gave it.
pub open spec fn as_result(answer: Result<Answer, ServiceError>) -> Result<
    crate::pb::Result,
    ServiceError,
> {
    match answer {
        Ok(Answer::Result(ack)) => Ok(ack),
        Ok(_) => arbitrary(),
        Err(error) => Err(error),
    }
}

/// The answer to a call as the handler for embeddings gave it.
pub open spec fn as_embedding(answer: Result<Answer, ServiceError>) -> Result<
    EmbeddingResult,
    ServiceError,
> {
    match answer {
        Ok(Answer::Embedding(embedding)) => Ok(embedding),
        Ok(_) => arbitrary(),
        Err(error) => Err(error),
    }
}

/// The answer to a call as the handler for transcripts gave it.
pub open spec fn as_transcript(answer: Result<Answer, ServiceError>) -> Result<
    TranscriptResult,
    ServiceError,
> {
    match answer {
        Ok(Answer::Transcript(transcript)) => Ok(transcript),
        Ok(_) => arbitrary(),
        Err(error) => Err(error),
    }
}

/// The answer to a call as the handler for tokenizations gave it.
pub open spec fn as_tokens(answer: Result<Answer, ServiceError>) -> Result<
    TokenizationResponse,
    ServiceError,
> {
    match answer {
        Ok(Answer::Tokens(tokens)) => Ok(tokens),
        Ok(_) => arbitrary(),
        Err(error) => Err(error),
    }
}

/// The answer to a call as the handler that starts a stream gave it.
pub open spec fn as_started(answer: Result<Answer, ServiceError>) -> Result<(), ServiceError> {
    match answer {
        Ok(_) => Ok(()),
        Err(error) => Err(error),
    }
}

/// Whether `next` and `answer` are what `request` may leave of the service
/// `before`: what the handler of the call's operation leaves, with the
/// handler's answer in the variant that belongs to the operation.
pub open spec fn call_serves<M: LLM>(
    before: BackendView<M>,
    request: Call,
    next: BackendView<M>,
    answer: Result<Answer, ServiceError>,
) -> bool {
    match request {
        Call::Health(_) => {
            &&& next == before
            &&& answer matches Ok(Answer::Reply(reply))
            &&& reply.message@ == alive()
        },
        Call::Status(_) => {
            &&& next == before
            &&& answer matches Ok(Answer::Status(status))
            &&& status.state == before.slot.state.reported().number()
            &&& status.memory is Some
            &&& resident_only(status.memory->0.breakdown@, status.memory->0.total)
        },
        Call::LoadModel(request) => {
            &&& answer is Ok ==> answer->Ok_0 is Result
            &&& load_serves(before, request, next, as_result(answer))
        },
        Call::Predict(request) => {
            &&& answer is Ok ==> answer->Ok_0 is Reply
            &&& predict_serves(before, request, next, as_reply(answer))
        },
        Call::PredictStream(request) => {
            &&& answer is Ok ==> answer->Ok_0 is Streaming
            &&& stream_starts(before, request, next, as_started(answer))
        },
        Call::Embedding(request) => {
            &&& answer is Ok ==> answer->Ok_0 is Embedding
            &&& embedding_serves(before, request, next, as_embedding(answer))
        },
        Call::GenerateImage(request) => {
            &&& answer is Ok ==> answer->Ok_0 is Result
            &&& generate_image_serves(before, request, next, as_result(answer))
        },
        Call::AudioTranscription(request) => {
            &&& answer is Ok ==> answer->Ok_0 is Transcript
            &&& audio_transcription_serves(before, request, next, as_transcript(answer))
        },
        Call::Tts(request) => {
            &&& answer is Ok ==> answer->Ok_0 is Result
            &&& tts_serves(before, request, next, as_result(answer))
        },
        Call::TokenizeString(request) => {
            &&& answer is Ok ==> answer->Ok_0 is Tokens
            &&& tokenize_string_serves(before, request, next, as_tokens(answer))
        },
    }
}

/// A call whose operation runs against the model is turned away, and
/// changes nothing, from every state but `Ready`; the liveness probe and the
/// status query are answered in every state and change nothing.
pub proof fn lemma_call_admission<M: LLM>(
    before: BackendView<M>,
    request: Call,
    next: BackendView<M>,
    answer: Result<Answer, ServiceError>,
)
    requires
        call_serves(before, request, next, answer),
    ensures
        request.operation_spec().needs_model() && before.slot.state.refusal() is Some ==> {
            &&& next == before
            &&& answer is Err
            &&& answer->Err_0.says(
                before.slot.state.refusal()->0,
                before.slot.state.refusal_message(),
            )
        },
        request.operation_spec() == Operation::Health || request.operation_spec()
            == Operation::Status ==> next == before && answer is Ok,
{
}

/// The service behind its entry point, with the limits that the transport
/// is to keep.
#[derive(Debug)]
pub struct BackendServer<M> {
    pub inner: BurnBackend<M>,
    /// The limit on the size of a message that is decoded, if one is set.
    pub max_decoding_message_size: Option<usize>,
    /// The limit on the size of a message that is encoded, if one is set.
    pub max_encoding_message_size: Option<usize>,
}

impl<M> BackendServer<M> {
    /// The entry point of `inner`, with no limit set.
    pub fn new(inner: BurnBackend<M>) -> (server: Self)
        ensures
            server == (BackendServer {
                inner,
                max_decoding_message_size: None,
                max_encoding_message_size: None,
            }),
    {
        BackendServer { inner, max_decoding_message_size: None, max_encoding_message_size: None }
    }

    /// The same entry point with the size of a decoded message limited to
    /// `limit`.
    pub fn max_decoding_message_size(self, limit: usize) -> (server: Self)
        ensures
            server == (BackendServer { max_decoding_message_size: Some(limit), ..self }),
    {
        BackendServer {
            inner: self.inner,
            max_decoding_message_size: Some(limit),
            max_encoding_message_size: self.max_encoding_message_size,
        }
    }

    /// The same entry point with the size of an encoded message limited to
    /// `limit`.
    pub fn max_encoding_message_size(self, limit: usize) -> (server: Self)
        ensures
            server == (BackendServer { max_encoding_message_size: Some(limit), ..self }),
    {
        BackendServer {
            inner: self.inner,
            max_decoding_message_size: self.max_decoding_message_size,
            max_encoding_message_size: Some(limit),
        }
    }
}

impl<M: LLM> BackendServer<M> {
    /// Dispatches `request` to the handler of its operation and wraps the
    /// handler's answer.
    pub fn call(&mut self, request: Call) -> (answer: Result<Answer, ServiceError>)
        requires
            old(self).inner.wf(),
        ensures
            final(self).inner.wf(),
            final(self).max_decoding_message_size == old(self).max_decoding_message_size,
            final(self).max_encoding_message_size == old(self).max_encoding_message_size,
            call_serves(old(self).inner@, request, final(self).inner@, answer),
    {
        match request {
            Call::Health(request) => match self.inner.health(request) {
                Ok(reply) => Ok(Answer::Reply(reply)),
                Err(error) => Err(error),
            },
            Call::Status(request) => match self.inner.status(request) {
                Ok(status) => Ok(Answer::Status(status)),
                Err(error) => Err(error),
            },
            Call::LoadModel(request) => match self.inner.load_model(request) {
                Ok(ack) => Ok(Answer::Result(ack)),
                Err(error) => Err(error),
            },
            Call::Predict(request) => match self.inner.predict(request) {
                Ok(reply) => Ok(Answer::Reply(reply)),
                Err(error) => Err(error),
            },
            Call::PredictStream(request) => match self.inner.predict_stream(request) {
                Ok(()) => Ok(Answer::Streaming),
                Err(error) => Err(error),
            },
            Call::Embedding(request) => match self.inner.embedding(request) {
                Ok(embedding) => Ok(Answer::Embedding(embedding)),
                Err(error) => Err(error),
            },
            Call::GenerateImage(request) => match self.inner.generate_image(request) {
                Ok(ack) => Ok(Answer::Result(ack)),
                Err(error) => Err(error),
            },
            Call::AudioTranscription(request) => match self.inner.audio_transcription(request) {
                Ok(transcript) => Ok(Answer::Transcript(transcript)),
                Err(error) => Err(error),
            },
            Call::Tts(request) => match self.inner.tts(request) {
                Ok(ack) => Ok(Answer::Result(ack)),
                Err(error) => Err(error),
            },
            Call::TokenizeString(request) => match self.inner.tokenize_string(request) {
                Ok(tokens) => Ok(Answer::Tokens(tokens)),
                Err(error) => Err(error),
            },
        }
    }
}

} // verus!
