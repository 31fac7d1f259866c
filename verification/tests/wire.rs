use bunker::error::{status_code, ErrorKind, ServiceError};
use bunker::lifecycle::LifecycleState;
use bunker::pb::backend_server::{route, Operation, NAME};
use bunker::pb::status_response::State;

const KINDS: [ErrorKind; 6] = [
    ErrorKind::InvalidArgument,
    ErrorKind::NotFound,
    ErrorKind::FailedPrecondition,
    ErrorKind::Unavailable,
    ErrorKind::Internal,
    ErrorKind::Unimplemented,
];

const STATES: [LifecycleState; 5] = [
    LifecycleState::Uninitialized,
    LifecycleState::Loading,
    LifecycleState::Ready,
    LifecycleState::Busy,
    LifecycleState::Error,
];

const OPERATIONS: [Operation; 10] = [
    Operation::Health,
    Operation::Predict,
    Operation::LoadModel,
    Operation::PredictStream,
    Operation::Embedding,
    Operation::GenerateImage,
    Operation::AudioTranscription,
    Operation::Tts,
    Operation::TokenizeString,
    Operation::Status,
];

#[test]
fn state_numbers_are_those_of_the_wire() {
    assert_eq!(State::Uninitialized.as_i32(), 0);
    assert_eq!(State::Busy.as_i32(), 1);
    assert_eq!(State::Ready.as_i32(), 2);
    assert_eq!(State::Error.as_i32(), -1);
}

#[test]
fn state_is_recovered_from_its_number() {
    for state in [State::Uninitialized, State::Busy, State::Ready, State::Error] {
        assert_eq!(State::from_i32(state.as_i32()), Some(state));
    }
    assert_eq!(State::from_i32(3), None);
    assert_eq!(State::from_i32(-2), None);
}

#[test]
fn state_names_are_those_of_the_interface() {
    assert_eq!(State::Uninitialized.as_str_name(), "UNINITIALIZED");
    assert_eq!(State::Busy.as_str_name(), "BUSY");
    assert_eq!(State::Ready.as_str_name(), "READY");
    assert_eq!(State::Error.as_str_name(), "ERROR");
}

#[test]
fn state_is_recovered_from_its_name() {
    for state in [State::Uninitialized, State::Busy, State::Ready, State::Error] {
        assert_eq!(State::from_str_name(state.as_str_name()), Some(state));
    }
    assert_eq!(State::from_str_name("ready"), None);
    assert_eq!(State::from_str_name(""), None);
    assert_eq!(State::from_str_name("LOADING"), None);
}

#[test]
fn error_kinds_have_their_status_codes() {
    assert_eq!(ErrorKind::InvalidArgument.code(), 3);
    assert_eq!(ErrorKind::NotFound.code(), 5);
    assert_eq!(ErrorKind::FailedPrecondition.code(), 9);
    assert_eq!(ErrorKind::Unimplemented.code(), 12);
    assert_eq!(ErrorKind::Internal.code(), 13);
    assert_eq!(ErrorKind::Unavailable.code(), 14);
}

#[test]
fn error_kind_is_recovered_from_its_code() {
    for kind in KINDS {
        assert_eq!(ErrorKind::from_code(kind.code()), Some(kind));
    }
    assert_eq!(ErrorKind::from_code(0), None);
    assert_eq!(ErrorKind::from_code(4), None);
    assert_eq!(ErrorKind::from_code(-1), None);
}

#[test]
fn only_unavailable_is_retryable() {
    for kind in KINDS {
        assert_eq!(kind.is_retryable(), kind == ErrorKind::Unavailable);
    }
}

#[test]
fn status_code_is_zero_for_success_only() {
    let ok: Result<u8, ServiceError> = Ok(7);
    assert_eq!(status_code(&ok), 0);
    let failed: Result<u8, ServiceError> = Err(ServiceError::new(ErrorKind::NotFound, "gone"));
    assert_eq!(status_code(&failed), 5);
    let error = ServiceError::new(ErrorKind::Internal, "broken");
    assert_eq!(error.code(), 13);
    assert_eq!(error.message, "broken");
    assert_eq!(error.kind, ErrorKind::Internal);
}

#[test]
fn lifecycle_states_that_hold_a_model() {
    for state in STATES {
        let holds = state == LifecycleState::Ready || state == LifecycleState::Busy;
        assert_eq!(state.has_model(), holds);
    }
}

#[test]
fn lifecycle_states_that_admit_a_load() {
    assert!(LifecycleState::Uninitialized.can_load());
    assert!(LifecycleState::Ready.can_load());
    assert!(LifecycleState::Error.can_load());
    assert!(!LifecycleState::Loading.can_load());
    assert!(!LifecycleState::Busy.can_load());
}

#[test]
fn lifecycle_refusals() {
    assert_eq!(LifecycleState::Ready.refuse(), None);
    let none = LifecycleState::Uninitialized.refuse().unwrap();
    assert_eq!(none.kind, ErrorKind::FailedPrecondition);
    assert_eq!(none.message, "no model loaded");
    let failed = LifecycleState::Error.refuse().unwrap();
    assert_eq!(failed.kind, ErrorKind::FailedPrecondition);
    assert_eq!(failed.message, "no model loaded");
    let loading = LifecycleState::Loading.refuse().unwrap();
    assert_eq!(loading.kind, ErrorKind::Unavailable);
    assert_eq!(loading.message, "a model load is in progress");
    let busy = LifecycleState::Busy.refuse().unwrap();
    assert_eq!(busy.kind, ErrorKind::Unavailable);
    assert_eq!(busy.message, "another request is running against the model");
}

#[test]
fn lifecycle_states_as_reported() {
    assert_eq!(LifecycleState::Uninitialized.wire_state(), State::Uninitialized);
    assert_eq!(LifecycleState::Loading.wire_state(), State::Busy);
    assert_eq!(LifecycleState::Busy.wire_state(), State::Busy);
    assert_eq!(LifecycleState::Ready.wire_state(), State::Ready);
    assert_eq!(LifecycleState::Error.wire_state(), State::Error);
}

#[test]
fn operation_paths() {
    assert_eq!(NAME, "backend.Backend");
    assert_eq!(Operation::Health.path(), "/backend.Backend/Health");
    assert_eq!(Operation::Predict.path(), "/backend.Backend/Predict");
    assert_eq!(Operation::LoadModel.path(), "/backend.Backend/LoadModel");
    assert_eq!(Operation::PredictStream.path(), "/backend.Backend/PredictStream");
    assert_eq!(Operation::Embedding.path(), "/backend.Backend/Embedding");
    assert_eq!(Operation::GenerateImage.path(), "/backend.Backend/GenerateImage");
    assert_eq!(Operation::AudioTranscription.path(), "/backend.Backend/AudioTranscription");
    assert_eq!(Operation::Tts.path(), "/backend.Backend/TTS");
    assert_eq!(Operation::TokenizeString.path(), "/backend.Backend/TokenizeString");
    assert_eq!(Operation::Status.path(), "/backend.Backend/Status");
}

#[test]
fn operation_is_recovered_from_its_path() {
    for operation in OPERATIONS {
        assert_eq!(Operation::from_path(operation.path()), Some(operation));
        assert_eq!(route(operation.path()), Ok(operation));
    }
}

#[test]
fn unknown_path_is_unimplemented() {
    for path in ["", "/", "/backend.Backend/", "/backend.Backend/health", "/backend.Backend/Tts", "/other.Service/Health"] {
        assert_eq!(Operation::from_path(path), None);
        let error = route(path).unwrap_err();
        assert_eq!(error.kind, ErrorKind::Unimplemented);
        assert_eq!(error.code(), 12);
        assert_eq!(error.message, "no such operation");
    }
}

#[test]
fn only_predict_stream_streams() {
    for operation in OPERATIONS {
        assert_eq!(operation.is_server_streaming(), operation == Operation::PredictStream);
    }
}

#[test]
fn operations_that_run_against_the_model() {
    for operation in OPERATIONS {
        let free = matches!(operation, Operation::Health | Operation::Status | Operation::LoadModel);
        assert_eq!(operation.requires_model(), !free);
    }
}
