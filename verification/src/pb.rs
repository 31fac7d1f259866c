//! The messages of the wire contract, as plain values.
//!
//! A field that carries a single-precision number holds its IEEE 754 bit
//! pattern in a `u32`, so that every message can be compared and copied
//! exactly.

use vstd::prelude::*;

pub mod backend_server;
pub mod status_response;

verus! {

/// The empty request of the liveness probe and of the status query.
#[derive(Clone, Debug, PartialEq, Eq, Default)]
pub struct HealthMessage {}

/// What a caller asks of the active model: prompt, sampling parameters and stop conditions.
#[derive(Clone, Debug, PartialEq, Eq, Default)]
pub struct PredictOptions {
    pub prompt: String,
    pub seed: i32,
    pub threads: i32,
    pub tokens: i32,
    pub top_k: i32,
    pub repeat: i32,
    pub batch: i32,
    pub n_keep: i32,
    /// Bit pattern of the number.
    pub temperature: u32,
    /// Bit pattern of the number.
    pub penalty: u32,
    pub f16kv: bool,
    pub debug_mode: bool,
    pub stop_prompts: Vec<String>,
    pub ignore_eos: bool,
    /// Bit pattern of the number.
    pub tail_free_sampling_z: u32,
    /// Bit pattern of the number.
    pub typical_p: u32,
    /// Bit pattern of the number.
    pub frequency_penalty: u32,
    /// Bit pattern of the number.
    pub presence_penalty: u32,
    pub mirostat: i32,
    /// Bit pattern of the number.
    pub mirostat_eta: u32,
    /// Bit pattern of the number.
    pub mirostat_tau: u32,
    pub penalize_nl: bool,
    pub logit_bias: String,
    pub m_lock: bool,
    pub m_map: bool,
    pub prompt_cache_all: bool,
    pub prompt_cache_ro: bool,
    pub grammar: String,
    pub main_gpu: String,
    pub tensor_split: String,
    /// Bit pattern of the number.
    pub top_p: u32,
    pub prompt_cache_path: String,
    pub debug: bool,
    pub embedding_tokens: Vec<i32>,
    pub embeddings: String,
    /// Bit pattern of the number.
    pub rope_freq_base: u32,
    /// Bit pattern of the number.
    pub rope_freq_scale: u32,
    /// Bit pattern of the number.
    pub negative_prompt_scale: u32,
    pub negative_prompt: String,
    pub n_draft: i32,
}

/// An opaque result payload, whole or one chunk of a stream.
#[derive(Clone, Debug, PartialEq, Eq, Default)]
pub struct Reply {
    pub message: Vec<u8>,
}

/// The load-time parameters of a model; the service reads only `model`.
#[derive(Clone, Debug, PartialEq, Eq, Default)]
pub struct ModelOptions {
    pub model: String,
    pub context_size: i32,
    pub seed: i32,
    pub n_batch: i32,
    pub f16_memory: bool,
    pub m_lock: bool,
    pub m_map: bool,
    pub vocab_only: bool,
    pub low_vram: bool,
    pub embeddings: bool,
    pub numa: bool,
    pub ngpu_layers: i32,
    pub main_gpu: String,
    pub tensor_split: String,
    pub threads: i32,
    pub library_search_path: String,
    /// Bit pattern of the number.
    pub rope_freq_base: u32,
    /// Bit pattern of the number.
    pub rope_freq_scale: u32,
    /// Bit pattern of the number.
    pub rms_norm_eps: u32,
    pub ngqa: i32,
    pub model_file: String,
    pub device: String,
    pub use_triton: bool,
    pub model_base_name: String,
    pub use_fast_tokenizer: bool,
    pub pipeline_type: String,
    pub scheduler_type: String,
    pub cuda: bool,
    /// Bit pattern of the number.
    pub cfg_scale: u32,
    pub img2img: bool,
    pub clip_model: String,
    pub clip_subfolder: String,
    pub clip_skip: i32,
    pub tokenizer: String,
    pub lora_base: String,
    pub lora_adapter: String,
    pub no_mul_mat_q: bool,
    pub draft_model: String,
    pub audio_path: String,
    pub quantization: String,
}

/// An acknowledgement: a message and whether the operation succeeded.
#[derive(Clone, Debug, PartialEq, Eq, Default)]
pub struct Result {
    pub message: String,
    pub success: bool,
}

/// An embedding vector.
#[derive(Clone, Debug, PartialEq, Eq, Default)]
pub struct EmbeddingResult {
    /// Bit patterns of the numbers, in order.
    pub embeddings: Vec<u32>,
}

/// A request to transcribe the audio stored at `dst`.
#[derive(Clone, Debug, PartialEq, Eq, Default)]
pub struct TranscriptRequest {
    pub dst: String,
    pub language: String,
    pub threads: u32,
}

/// A transcript: its segments in order, and the full text.
#[derive(Clone, Debug, PartialEq, Eq, Default)]
pub struct TranscriptResult {
    pub segments: Vec<TranscriptSegment>,
    pub text: String,
}

/// One segment of a transcript.
#[derive(Clone, Debug, PartialEq, Eq, Default)]
pub struct TranscriptSegment {
    pub id: i32,
    pub start: i64,
    pub end: i64,
    pub text: String,
    pub tokens: Vec<i32>,
}

/// A request to generate an image.
#[derive(Clone, Debug, PartialEq, Eq, Default)]
pub struct GenerateImageRequest {
    pub height: i32,
    pub width: i32,
    pub mode: i32,
    pub step: i32,
    pub seed: i32,
    pub positive_prompt: String,
    pub negative_prompt: String,
    pub dst: String,
    pub src: String,
    pub enable_parameters: String,
    pub clip_skip: i32,
}

/// A request to synthesise speech from `text` into the file `dst`.
#[derive(Clone, Debug, PartialEq, Eq, Default)]
pub struct TtsRequest {
    pub text: String,
    pub model: String,
    pub dst: String,
}

/// The token ids of a prompt, and how many there are.
#[derive(Clone, Debug, PartialEq, Eq, Default)]
pub struct TokenizationResponse {
    pub length: i32,
    pub tokens: Vec<i32>,
}

/// One labelled part of the memory in use.
#[derive(Clone, Debug, PartialEq, Eq, Default)]
pub struct MemoryUsageEntry {
    pub label: String,
    pub amount: u64,
}

/// Memory used by the process: the total, and its parts by label.
#[derive(Clone, Debug, PartialEq, Eq, Default)]
pub struct MemoryUsageData {
    pub total: u64,
    /// The parts, each label at most once.
    pub breakdown: Vec<MemoryUsageEntry>,
}

/// The answer to a status query.
#[derive(Clone, Debug, PartialEq, Eq, Default)]
pub struct StatusResponse {
    /// The number of a `status_response::State`.
    pub state: i32,
    pub memory: Option<MemoryUsageData>,
}

} // verus!
