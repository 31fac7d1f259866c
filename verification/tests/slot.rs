use bunker::error::ErrorKind;
use bunker::lifecycle::LifecycleState;
use bunker::models::ModelFault;
use bunker::pb::ModelOptions;
use bunker::slot::ModelSlot;

fn config(name: &str) -> ModelOptions {
    ModelOptions { model: name.to_string(), ..Default::default() }
}

fn ready(model: u32) -> ModelSlot<u32> {
    let mut slot = ModelSlot::new();
    slot.begin_load().unwrap();
    slot.finish_load(config("m"), Ok(model)).unwrap();
    slot
}

#[test]
fn a_new_slot_is_empty() {
    let slot: ModelSlot<u32> = ModelSlot::new();
    assert_eq!(slot.state(), LifecycleState::Uninitialized);
    assert_eq!(slot.config(), None);
}

#[test]
fn a_load_passes_through_loading() {
    let mut slot: ModelSlot<u32> = ModelSlot::new();
    assert_eq!(slot.begin_load(), Ok(None));
    assert_eq!(slot.state(), LifecycleState::Loading);
    assert_eq!(slot.config(), None);
    assert_eq!(slot.finish_load(config("m"), Ok(7)), Ok(()));
    assert_eq!(slot.state(), LifecycleState::Ready);
    assert_eq!(slot.config(), Some(&config("m")));
}

#[test]
fn requests_are_unavailable_while_loading() {
    let mut slot: ModelSlot<u32> = ModelSlot::new();
    slot.begin_load().unwrap();
    let error = slot.begin_inference().unwrap_err();
    assert_eq!(error.kind, ErrorKind::Unavailable);
    assert_eq!(error.message, "a model load is in progress");
    let error = slot.begin_load().unwrap_err();
    assert_eq!(error.kind, ErrorKind::Unavailable);
    let error = slot.unload().unwrap_err();
    assert_eq!(error.kind, ErrorKind::Unavailable);
    assert_eq!(slot.state(), LifecycleState::Loading);
}

#[test]
fn a_reload_hands_out_the_old_model() {
    let mut slot = ready(7);
    assert_eq!(slot.begin_load(), Ok(Some(7)));
    assert_eq!(slot.state(), LifecycleState::Loading);
    assert_eq!(slot.finish_load(config("n"), Ok(8)), Ok(()));
    assert_eq!(slot.config(), Some(&config("n")));
    assert_eq!(slot.unload(), Ok(Some(8)));
}

#[test]
fn a_failed_load_ends_in_error() {
    let mut slot = ready(7);
    slot.begin_load().unwrap();
    let error = slot.finish_load(config("n"), Err("bad checkpoint".to_string())).unwrap_err();
    assert_eq!(error.kind, ErrorKind::Internal);
    assert_eq!(error.message, "bad checkpoint");
    assert_eq!(slot.state(), LifecycleState::Error);
    assert_eq!(slot.config(), None);
    assert_eq!(slot.begin_inference().unwrap_err().kind, ErrorKind::FailedPrecondition);
    assert_eq!(slot.begin_load(), Ok(None));
    assert_eq!(slot.finish_load(config("n"), Ok(9)), Ok(()));
    assert_eq!(slot.state(), LifecycleState::Ready);
}

#[test]
fn finishing_a_load_that_never_began_fails() {
    let mut slot = ready(7);
    let error = slot.finish_load(config("n"), Ok(8)).unwrap_err();
    assert_eq!(error.kind, ErrorKind::FailedPrecondition);
    assert_eq!(error.message, "no load is outstanding");
    assert_eq!(slot.state(), LifecycleState::Ready);
    assert_eq!(slot.config(), Some(&config("m")));
    assert_eq!(slot.unload(), Ok(Some(7)));
}

#[test]
fn an_inference_passes_through_busy() {
    let mut slot = ready(7);
    assert_eq!(slot.begin_inference(), Ok(()));
    assert_eq!(slot.state(), LifecycleState::Busy);
    let error = slot.begin_inference().unwrap_err();
    assert_eq!(error.kind, ErrorKind::Unavailable);
    assert_eq!(error.message, "another request is running against the model");
    assert_eq!(slot.begin_load().unwrap_err().kind, ErrorKind::Unavailable);
    assert_eq!(slot.unload().unwrap_err().kind, ErrorKind::Unavailable);
    assert_eq!(slot.finish_inference(Ok("done")), Ok("done"));
    assert_eq!(slot.state(), LifecycleState::Ready);
    assert_eq!(slot.config(), Some(&config("m")));
}

#[test]
fn a_fault_is_reported_by_its_kind() {
    let mut slot = ready(7);
    slot.begin_inference().unwrap();
    let error = slot.finish_inference::<u8>(Err(ModelFault::Unsupported)).unwrap_err();
    assert_eq!(error.kind, ErrorKind::Unimplemented);
    assert_eq!(slot.state(), LifecycleState::Ready);

    slot.begin_inference().unwrap();
    let error = slot.finish_inference::<u8>(Err(ModelFault::Failed("no".to_string()))).unwrap_err();
    assert_eq!(error.kind, ErrorKind::Internal);
    assert_eq!(error.message, "no");
    assert_eq!(slot.state(), LifecycleState::Ready);

    slot.begin_inference().unwrap();
    let error =
        slot.finish_inference::<u8>(Err(ModelFault::Corrupted("dead".to_string()))).unwrap_err();
    assert_eq!(error.kind, ErrorKind::Internal);
    assert_eq!(error.message, "dead");
    assert_eq!(slot.state(), LifecycleState::Error);
    assert_eq!(slot.config(), None);
    assert_eq!(slot.unload(), Ok(None));
    assert_eq!(slot.state(), LifecycleState::Error);
}

#[test]
fn finishing_an_inference_that_never_began_fails() {
    let mut slot = ready(7);
    let error = slot.finish_inference(Ok(1)).unwrap_err();
    assert_eq!(error.kind, ErrorKind::FailedPrecondition);
    assert_eq!(error.message, "no request is running");
    assert_eq!(slot.state(), LifecycleState::Ready);
    let mut empty: ModelSlot<u32> = ModelSlot::new();
    let error = empty.finish_inference::<u8>(Err(ModelFault::Corrupted("x".to_string()))).unwrap_err();
    assert_eq!(error.kind, ErrorKind::FailedPrecondition);
    assert_eq!(empty.state(), LifecycleState::Uninitialized);
}

#[test]
fn an_inference_needs_a_model() {
    let mut slot: ModelSlot<u32> = ModelSlot::new();
    let error = slot.begin_inference().unwrap_err();
    assert_eq!(error.kind, ErrorKind::FailedPrecondition);
    assert_eq!(error.message, "no model loaded");
    assert_eq!(slot.state(), LifecycleState::Uninitialized);
}

#[test]
fn faults_tell_their_kind_and_message() {
    assert!(!ModelFault::Unsupported.is_corrupting());
    assert!(!ModelFault::Failed("a".to_string()).is_corrupting());
    assert!(ModelFault::Corrupted("a".to_string()).is_corrupting());
    let error = ModelFault::Unsupported.into_error();
    assert_eq!(error.kind, ErrorKind::Unimplemented);
    assert_eq!(error.message, "the active model does not offer this operation");
    let error = ModelFault::Failed("a".to_string()).into_error();
    assert_eq!((error.kind, error.message.as_str()), (ErrorKind::Internal, "a"));
    let error = ModelFault::Corrupted("b".to_string()).into_error();
    assert_eq!((error.kind, error.message.as_str()), (ErrorKind::Internal, "b"));
}
