use bunker::backend::BurnBackend;
use bunker::error::ErrorKind;
use bunker::lifecycle::LifecycleState;
use bunker::models::{ModelFault, LLM};
use bunker::pb::backend_server::{Answer, BackendServer, Call, Operation};
use bunker::pb::{
    EmbeddingResult, GenerateImageRequest, HealthMessage, ModelOptions, PredictOptions, Reply,
    TokenizationResponse, TranscriptRequest, TranscriptResult, TtsRequest,
};

/// A runtime that answers with its own name and the prompt, and fails on
/// request.
#[derive(Debug, PartialEq)]
struct Toy {
    name: String,
    served: u32,
}

impl LLM for Toy {
    fn load_model(request: &ModelOptions) -> Result<Self, String> {
        if request.model_file == "missing.bin" {
            return Err("cannot read missing.bin".to_string());
        }
        Ok(Toy { name: request.model.clone(), served: 0 })
    }

    fn predict_step(
        &mut self,
        request: &PredictOptions,
        step: u64,
    ) -> Result<Option<String>, ModelFault> {
        Ok(Some(format!("{}{}", request.prompt, step)))
    }

    fn predict(&mut self, request: &PredictOptions) -> Result<String, ModelFault> {
        self.served += 1;
        match request.prompt.as_str() {
            "fail" => Err(ModelFault::Failed("prediction failed".to_string())),
            "crash" => Err(ModelFault::Corrupted("runtime crashed".to_string())),
            prompt => Ok(format!("{}:{}:{}", self.name, prompt, self.served)),
        }
    }

    fn embedding(&mut self, request: &PredictOptions) -> Result<Vec<u32>, ModelFault> {
        Ok(request.prompt.bytes().map(|b| (b as f32).to_bits()).collect())
    }

    fn generate_image(
        &mut self,
        _request: &GenerateImageRequest,
    ) -> Result<bunker::pb::Result, ModelFault> {
        Err(ModelFault::Unsupported)
    }

    fn audio_transcription(
        &mut self,
        _request: &TranscriptRequest,
    ) -> Result<TranscriptResult, ModelFault> {
        Err(ModelFault::Unsupported)
    }

    fn tts(&mut self, request: &TtsRequest) -> Result<bunker::pb::Result, ModelFault> {
        Ok(bunker::pb::Result { message: format!("spoken to {}", request.dst), success: true })
    }

    fn tokenize_string(
        &mut self,
        request: &PredictOptions,
    ) -> Result<TokenizationResponse, ModelFault> {
        let tokens: Vec<i32> = request.prompt.bytes().map(|b| b as i32).collect();
        Ok(TokenizationResponse { length: tokens.len() as i32, tokens })
    }
}

fn backend(models: &[&str]) -> BurnBackend<Toy> {
    BurnBackend::new(models.iter().map(|m| m.to_string()).collect())
}

fn model(name: &str, file: &str) -> ModelOptions {
    ModelOptions { model: name.to_string(), model_file: file.to_string(), ..Default::default() }
}

fn prompt(text: &str) -> PredictOptions {
    PredictOptions { prompt: text.to_string(), tokens: 10, ..Default::default() }
}

fn text(reply: Reply) -> String {
    String::from_utf8(reply.message).unwrap()
}

#[test]
fn test_health() {
    let backend = BurnBackend::<Toy>::default();
    let response = backend.health(HealthMessage {});

    assert!(response.is_ok());
    let response = response.unwrap();
    let message_str = String::from_utf8(response.message.clone()).unwrap();
    assert_eq!(message_str, "OK");
}

#[test]
fn test_status() {
    let backend = BurnBackend::<Toy>::default();
    let response = backend.status(HealthMessage {});

    assert!(response.is_ok());
    let response = response.unwrap();
    let state = response.state;
    let memory = response.memory.clone();
    assert_eq!(state, 0);
    assert!(memory.is_some());
}

#[test]
fn test_load_model() {
    let mut backend = BurnBackend::<Toy>::default();
    let model_options = ModelOptions {
        model: "test".to_string(),
        context_size: 0,
        seed: 0,
        n_batch: 0,
        f16_memory: false,
        m_lock: false,
        m_map: false,
        vocab_only: false,
        low_vram: false,
        embeddings: false,
        numa: false,
        ngpu_layers: 0,
        main_gpu: "".to_string(),
        tensor_split: "".to_string(),
        threads: 1,
        library_search_path: "".to_string(),
        rope_freq_base: 0.0f32.to_bits(),
        rope_freq_scale: 0.0f32.to_bits(),
        rms_norm_eps: 0.0f32.to_bits(),
        ngqa: 0,
        model_file: "models/src/mnist/model.bin".to_string(),
        device: "".to_string(),
        use_triton: false,
        model_base_name: "".to_string(),
        use_fast_tokenizer: false,
        pipeline_type: "".to_string(),
        scheduler_type: "".to_string(),
        cuda: false,
        cfg_scale: 0.0f32.to_bits(),
        img2img: false,
        clip_model: "".to_string(),
        clip_subfolder: "".to_string(),
        clip_skip: 0,
        tokenizer: "".to_string(),
        lora_base: "".to_string(),
        lora_adapter: "".to_string(),
        no_mul_mat_q: false,
        draft_model: "".to_string(),
        audio_path: "".to_string(),
        quantization: "".to_string(),
    };

    // Load the wrong model
    let response = backend.load_model(model_options.clone());

    let error = response.unwrap_err();
    assert_eq!(error.kind, ErrorKind::NotFound);
    assert_eq!(error.message, format!("Model {} not found", model_options.model.clone()));
    assert_eq!(backend.state(), LifecycleState::Uninitialized);

    // Load the correct model
    let mut model_options2 = model_options.clone();
    model_options2.model = "mnist".to_string();
    model_options2.model_file = "models/src/mnist/model.bin".to_string();

    let response = backend.load_model(model_options2.clone());

    assert!(response.is_ok());
    let response = response.unwrap();
    let message_str = response.message.clone();
    assert_eq!(message_str, format!("Model {} loaded successfully", model_options2.model.clone()));
    assert!(response.success);
    assert_eq!(backend.state(), LifecycleState::Ready);
    assert_eq!(backend.slot().config(), Some(&model_options2));
}

#[test]
fn test_predict() {
    let mut backend = BurnBackend::<Toy>::default();
    let request = PredictOptions {
        prompt: "test".to_string(),
        seed: 100,
        threads: 1,
        tokens: 10,
        temperature: 0.0f32.to_bits(),
        top_k: 0,
        top_p: 0.0f32.to_bits(),
        repeat: 0,
        batch: 1,
        n_keep: 0,
        penalty: 0.0f32.to_bits(),
        f16kv: false,
        debug_mode: false,
        stop_prompts: vec!["".to_string()],
        ignore_eos: false,
        tail_free_sampling_z: 0.0f32.to_bits(),
        typical_p: 0.0f32.to_bits(),
        frequency_penalty: 0.0f32.to_bits(),
        presence_penalty: 0.0f32.to_bits(),
        mirostat: 0,
        mirostat_eta: 0.0f32.to_bits(),
        mirostat_tau: 0.0f32.to_bits(),
        penalize_nl: false,
        logit_bias: "".to_string(),
        m_lock: false,
        m_map: false,
        prompt_cache_all: false,
        prompt_cache_ro: false,
        grammar: "".to_string(),
        main_gpu: "".to_string(),
        tensor_split: "".to_string(),
        prompt_cache_path: "".to_string(),
        debug: false,
        embedding_tokens: vec![0],
        embeddings: "".to_string(),
        rope_freq_base: 0.0f32.to_bits(),
        rope_freq_scale: 0.0f32.to_bits(),
        negative_prompt_scale: 0.0f32.to_bits(),
        negative_prompt: "".to_string(),
        n_draft: 0,
    };
    // No model is loaded yet: the prediction is turned away.
    let response = backend.predict(request.clone());
    assert_eq!(response.unwrap_err().kind, ErrorKind::FailedPrecondition);

    backend.load_model(model("mnist", "model.bin")).unwrap();
    let response = backend.predict(request);

    assert!(response.is_ok());
    let response = response.unwrap();
    assert_eq!(text(response), "mnist:test:1");
}

#[test]
fn the_probe_answers_without_a_service() {
    assert_eq!(bunker::backend::alive_reply(), Reply { message: vec![b'O', b'K'] });
}

#[test]
fn health_is_ok_in_every_state() {
    let mut backend = backend(&["demo"]);
    assert_eq!(backend.health(HealthMessage {}).unwrap().message, b"OK".to_vec());
    backend.load_model(model("demo", "demo.bin")).unwrap();
    assert_eq!(backend.health(HealthMessage {}).unwrap().message, b"OK".to_vec());
    backend.predict_stream(prompt("x")).unwrap();
    assert_eq!(backend.state(), LifecycleState::Busy);
    assert_eq!(backend.health(HealthMessage {}).unwrap().message, b"OK".to_vec());
    backend.cancel_stream();
    assert!(backend.predict(prompt("crash")).is_err());
    assert_eq!(backend.state(), LifecycleState::Error);
    assert_eq!(backend.health(HealthMessage {}).unwrap().message, b"OK".to_vec());
}

#[test]
fn unknown_model_is_not_found_and_changes_nothing() {
    let mut backend = backend(&["demo", "mnist"]);
    for name in ["", "Demo", "demo ", "llama", "mnis"] {
        let error = backend.load_model(model(name, "demo.bin")).unwrap_err();
        assert_eq!(error.kind, ErrorKind::NotFound);
        assert_eq!(error.message, format!("Model {} not found", name));
        assert_eq!(backend.state(), LifecycleState::Uninitialized);
        assert_eq!(backend.slot().config(), None);
    }
    backend.load_model(model("demo", "demo.bin")).unwrap();
    let error = backend.load_model(model("llama", "llama.bin")).unwrap_err();
    assert_eq!(error.kind, ErrorKind::NotFound);
    assert_eq!(backend.state(), LifecycleState::Ready);
    assert_eq!(backend.slot().config(), Some(&model("demo", "demo.bin")));
    assert_eq!(text(backend.predict(prompt("x")).unwrap()), "demo:x:1");
}

#[test]
fn knows_its_models() {
    let backend = backend(&["demo", "mnist"]);
    assert!(backend.knows(&"demo".to_string()));
    assert!(backend.knows(&"mnist".to_string()));
    assert!(!backend.knows(&"llama".to_string()));
    assert!(!backend.knows(&"".to_string()));
    let default = BurnBackend::<Toy>::default();
    assert!(default.knows(&"mnist".to_string()));
    assert!(!default.knows(&"demo".to_string()));
}

#[test]
fn after_a_load_the_state_is_ready_and_predict_is_admitted() {
    let mut backend = backend(&["demo"]);
    let ack = backend.load_model(model("demo", "demo.bin")).unwrap();
    assert!(ack.success);
    assert_eq!(ack.message, "Model demo loaded successfully");
    assert_eq!(backend.status(HealthMessage {}).unwrap().state, 2);
    for text in ["x", "fail", "crash"] {
        match backend.predict(prompt(text)) {
            Ok(_) => {}
            Err(error) => {
                assert_ne!(error.kind, ErrorKind::FailedPrecondition);
                assert_ne!(error.kind, ErrorKind::Unavailable);
            }
        }
        backend.load_model(model("demo", "demo.bin")).unwrap();
    }
}

#[test]
fn predict_without_a_model_fails_and_changes_nothing() {
    let mut backend = backend(&["demo"]);
    let error = backend.predict(prompt("x")).unwrap_err();
    assert_eq!(error.kind, ErrorKind::FailedPrecondition);
    assert_eq!(error.message, "no model loaded");
    assert_eq!(backend.state(), LifecycleState::Uninitialized);
    assert_eq!(backend.status(HealthMessage {}).unwrap().state, 0);
}

#[test]
fn example_scenario() {
    let mut early = backend(&["demo"]);
    assert_eq!(early.predict(prompt("x")).unwrap_err().kind, ErrorKind::FailedPrecondition);

    let mut backend = backend(&["demo"]);
    let ack = backend.load_model(model("demo", "demo.bin")).unwrap();
    assert!(ack.success);
    assert!(backend.predict(prompt("x")).is_ok());
    let status = backend.status(HealthMessage {}).unwrap();
    assert_eq!(status.state, 2);
    assert_eq!(backend.state(), LifecycleState::Ready);
}

#[test]
fn reload_round_trip_leaves_the_first_model() {
    let mut backend = backend(&["a", "b"]);
    backend.load_model(model("a", "a.bin")).unwrap();
    assert_eq!(text(backend.predict(prompt("x")).unwrap()), "a:x:1");
    backend.load_model(model("b", "b.bin")).unwrap();
    assert_eq!(text(backend.predict(prompt("x")).unwrap()), "b:x:1");
    assert_eq!(text(backend.predict(prompt("y")).unwrap()), "b:y:2");
    backend.load_model(model("a", "a.bin")).unwrap();
    assert_eq!(backend.state(), LifecycleState::Ready);
    assert_eq!(backend.slot().config(), Some(&model("a", "a.bin")));
    assert_eq!(text(backend.predict(prompt("x")).unwrap()), "a:x:1");

    let mut fresh = self::backend(&["a", "b"]);
    fresh.load_model(model("a", "a.bin")).unwrap();
    assert_eq!(fresh.slot().config(), backend.slot().config());
    assert_eq!(text(fresh.predict(prompt("z")).unwrap()), "a:z:1");
    assert_eq!(text(backend.predict(prompt("z")).unwrap()), "a:z:2");
}

#[test]
fn failed_load_leaves_no_model() {
    let mut backend = backend(&["demo"]);
    let error = backend.load_model(model("demo", "missing.bin")).unwrap_err();
    assert_eq!(error.kind, ErrorKind::Internal);
    assert_eq!(error.message, "cannot read missing.bin");
    assert_eq!(backend.state(), LifecycleState::Error);
    assert_eq!(backend.slot().config(), None);
    assert_eq!(backend.status(HealthMessage {}).unwrap().state, -1);
    let error = backend.predict(prompt("x")).unwrap_err();
    assert_eq!(error.kind, ErrorKind::FailedPrecondition);
    assert_eq!(backend.state(), LifecycleState::Error);
}

#[test]
fn failed_reload_drops_the_old_model() {
    let mut backend = backend(&["demo"]);
    backend.load_model(model("demo", "demo.bin")).unwrap();
    let error = backend.load_model(model("demo", "missing.bin")).unwrap_err();
    assert_eq!(error.kind, ErrorKind::Internal);
    assert_eq!(backend.state(), LifecycleState::Error);
    assert_eq!(backend.predict(prompt("x")).unwrap_err().kind, ErrorKind::FailedPrecondition);
}

#[test]
fn error_is_left_by_a_load_that_succeeds() {
    let mut backend = backend(&["demo"]);
    backend.load_model(model("demo", "missing.bin")).unwrap_err();
    assert_eq!(backend.unload(), Ok(()));
    assert_eq!(backend.state(), LifecycleState::Error);
    backend.load_model(model("demo", "missing.bin")).unwrap_err();
    assert_eq!(backend.state(), LifecycleState::Error);
    backend.load_model(model("demo", "demo.bin")).unwrap();
    assert_eq!(backend.state(), LifecycleState::Ready);
    assert_eq!(text(backend.predict(prompt("x")).unwrap()), "demo:x:1");
}

#[test]
fn runtime_fault_is_internal_and_keeps_the_model() {
    let mut backend = backend(&["demo"]);
    backend.load_model(model("demo", "demo.bin")).unwrap();
    let error = backend.predict(prompt("fail")).unwrap_err();
    assert_eq!(error.kind, ErrorKind::Internal);
    assert_eq!(error.message, "prediction failed");
    assert_eq!(backend.state(), LifecycleState::Ready);
    assert_eq!(text(backend.predict(prompt("x")).unwrap()), "demo:x:2");
}

#[test]
fn corrupting_fault_moves_the_slot_to_error() {
    let mut backend = backend(&["demo"]);
    backend.load_model(model("demo", "demo.bin")).unwrap();
    let error = backend.predict(prompt("crash")).unwrap_err();
    assert_eq!(error.kind, ErrorKind::Internal);
    assert_eq!(error.message, "runtime crashed");
    assert_eq!(backend.state(), LifecycleState::Error);
    assert_eq!(backend.slot().config(), None);
    assert_eq!(backend.predict(prompt("x")).unwrap_err().kind, ErrorKind::FailedPrecondition);
}

#[test]
fn unary_operations_pass_the_runtime_answer_on() {
    let mut backend = backend(&["demo"]);
    backend.load_model(model("demo", "demo.bin")).unwrap();
    assert_eq!(
        backend.embedding(prompt("AB")),
        Ok(EmbeddingResult { embeddings: vec![65.0f32.to_bits(), 66.0f32.to_bits()] })
    );
    assert_eq!(
        backend.tokenize_string(prompt("AB")),
        Ok(TokenizationResponse { length: 2, tokens: vec![65, 66] })
    );
    let request = TtsRequest { text: "hi".to_string(), dst: "out.wav".to_string(), ..Default::default() };
    assert_eq!(
        backend.tts(request),
        Ok(bunker::pb::Result { message: "spoken to out.wav".to_string(), success: true })
    );
    assert_eq!(backend.state(), LifecycleState::Ready);
}

#[test]
fn missing_capability_is_unimplemented() {
    let mut backend = backend(&["demo"]);
    backend.load_model(model("demo", "demo.bin")).unwrap();
    let error = backend.generate_image(GenerateImageRequest::default()).unwrap_err();
    assert_eq!(error.kind, ErrorKind::Unimplemented);
    assert_eq!(error.message, "the active model does not offer this operation");
    assert_eq!(backend.state(), LifecycleState::Ready);
    let error = backend.audio_transcription(TranscriptRequest::default()).unwrap_err();
    assert_eq!(error.kind, ErrorKind::Unimplemented);
    assert_eq!(backend.state(), LifecycleState::Ready);
}

#[test]
fn unary_operations_need_a_model() {
    let mut backend = backend(&["demo"]);
    assert_eq!(backend.embedding(prompt("x")).unwrap_err().kind, ErrorKind::FailedPrecondition);
    assert_eq!(
        backend.generate_image(GenerateImageRequest::default()).unwrap_err().kind,
        ErrorKind::FailedPrecondition
    );
    assert_eq!(
        backend.audio_transcription(TranscriptRequest::default()).unwrap_err().kind,
        ErrorKind::FailedPrecondition
    );
    assert_eq!(backend.tts(TtsRequest::default()).unwrap_err().kind, ErrorKind::FailedPrecondition);
    assert_eq!(
        backend.tokenize_string(prompt("x")).unwrap_err().kind,
        ErrorKind::FailedPrecondition
    );
    assert_eq!(backend.state(), LifecycleState::Uninitialized);
}

#[test]
fn unload_releases_the_model() {
    let mut backend = backend(&["demo"]);
    assert_eq!(backend.unload(), Ok(()));
    assert_eq!(backend.state(), LifecycleState::Uninitialized);
    backend.load_model(model("demo", "demo.bin")).unwrap();
    assert_eq!(backend.unload(), Ok(()));
    assert_eq!(backend.state(), LifecycleState::Uninitialized);
    assert_eq!(backend.slot().config(), None);
    assert_eq!(backend.predict(prompt("x")).unwrap_err().kind, ErrorKind::FailedPrecondition);
}

#[test]
fn a_stream_keeps_the_slot_to_itself() {
    let mut backend = backend(&["demo"]);
    backend.load_model(model("demo", "demo.bin")).unwrap();
    backend.predict_stream(prompt("x")).unwrap();
    let error = backend.predict(prompt("x")).unwrap_err();
    assert_eq!(error.kind, ErrorKind::Unavailable);
    assert_eq!(error.message, "another request is running against the model");
    assert!(error.kind.is_retryable());
    assert_eq!(backend.predict_stream(prompt("x")).unwrap_err().kind, ErrorKind::Unavailable);
    assert_eq!(backend.load_model(model("demo", "demo.bin")).unwrap_err().kind, ErrorKind::Unavailable);
    assert_eq!(backend.unload().unwrap_err().kind, ErrorKind::Unavailable);
    assert_eq!(backend.state(), LifecycleState::Busy);
    assert_eq!(backend.status(HealthMessage {}).unwrap().state, 1);
    assert!(backend.cancel_stream());
    assert_eq!(text(backend.predict(prompt("x")).unwrap()), "demo:x:1");
}

#[test]
fn calls_are_dispatched_to_their_handlers() {
    let mut server = BackendServer::new(backend(&["demo"]));
    assert_eq!(
        server.call(Call::Health(HealthMessage {})),
        Ok(Answer::Reply(Reply { message: b"OK".to_vec() }))
    );
    let error = server.call(Call::Predict(prompt("x"))).unwrap_err();
    assert_eq!(error.kind, ErrorKind::FailedPrecondition);
    assert_eq!(
        server.call(Call::LoadModel(model("demo", "demo.bin"))),
        Ok(Answer::Result(bunker::pb::Result {
            message: "Model demo loaded successfully".to_string(),
            success: true
        }))
    );
    assert_eq!(
        server.call(Call::Predict(prompt("x"))),
        Ok(Answer::Reply(Reply { message: b"demo:x:1".to_vec() }))
    );
    assert_eq!(
        server.call(Call::TokenizeString(prompt("A"))),
        Ok(Answer::Tokens(TokenizationResponse { length: 1, tokens: vec![65] }))
    );
    assert_eq!(
        server.call(Call::Embedding(prompt("A"))),
        Ok(Answer::Embedding(EmbeddingResult { embeddings: vec![65.0f32.to_bits()] }))
    );
    assert_eq!(
        server.call(Call::GenerateImage(GenerateImageRequest::default())).unwrap_err().kind,
        ErrorKind::Unimplemented
    );
    assert_eq!(
        server.call(Call::AudioTranscription(TranscriptRequest::default())).unwrap_err().kind,
        ErrorKind::Unimplemented
    );
    assert!(matches!(server.call(Call::Tts(TtsRequest::default())), Ok(Answer::Result(_))));
    match server.call(Call::Status(HealthMessage {})) {
        Ok(Answer::Status(status)) => assert_eq!(status.state, 2),
        other => panic!("unexpected answer: {:?}", other),
    }
    assert_eq!(server.call(Call::PredictStream(prompt("x"))), Ok(Answer::Streaming));
    assert_eq!(server.inner.state(), LifecycleState::Busy);
    assert_eq!(server.call(Call::Predict(prompt("x"))).unwrap_err().kind, ErrorKind::Unavailable);
    let not_found = server.call(Call::LoadModel(model("other", "x.bin"))).unwrap_err();
    assert_eq!(not_found.kind, ErrorKind::NotFound);
}

#[test]
fn a_call_names_its_operation() {
    assert_eq!(Call::Health(HealthMessage {}).operation(), Operation::Health);
    assert_eq!(Call::Status(HealthMessage {}).operation(), Operation::Status);
    assert_eq!(Call::LoadModel(ModelOptions::default()).operation(), Operation::LoadModel);
    assert_eq!(Call::Predict(prompt("x")).operation(), Operation::Predict);
    assert_eq!(Call::PredictStream(prompt("x")).operation(), Operation::PredictStream);
    assert_eq!(Call::Embedding(prompt("x")).operation(), Operation::Embedding);
    assert_eq!(Call::TokenizeString(prompt("x")).operation(), Operation::TokenizeString);
    assert_eq!(Call::Tts(TtsRequest::default()).operation(), Operation::Tts);
    assert_eq!(
        Call::GenerateImage(GenerateImageRequest::default()).operation(),
        Operation::GenerateImage
    );
    assert_eq!(
        Call::AudioTranscription(TranscriptRequest::default()).operation(),
        Operation::AudioTranscription
    );
}

#[test]
fn server_limits_are_kept() {
    let server = BackendServer::new(backend(&["demo"]));
    assert_eq!(server.max_decoding_message_size, None);
    assert_eq!(server.max_encoding_message_size, None);
    let server = server.max_decoding_message_size(4096);
    assert_eq!(server.max_decoding_message_size, Some(4096));
    assert_eq!(server.max_encoding_message_size, None);
    let server = server.max_encoding_message_size(1 << 20);
    assert_eq!(server.max_decoding_message_size, Some(4096));
    assert_eq!(server.max_encoding_message_size, Some(1 << 20));
}
