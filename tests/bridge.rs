use model_bridge::adapter::{
    catalog_result, generate_result, list_models_result, model_info_result, normalize,
    CatalogFetch, CatalogResponse, CATALOG_URL,
};
use model_bridge::dispatch::{operation_named, Arguments, Command, DispatchError, Operation, Registry};
use model_bridge::error::{ErrorCode, ErrorInfo};
use model_bridge::progress::{ProgressEvent, PullAction, PullEvent, PullResponse, PullSession};

fn args(model: Option<&str>, prompt: Option<&str>) -> Arguments {
    Arguments { model: model.map(|m| m.to_string()), prompt: prompt.map(|p| p.to_string()) }
}

fn chunk(completed: u64, total: u64) -> ProgressEvent {
    ProgressEvent { digest: None, completed: Some(completed), total: Some(total) }
}

#[test]
fn generate_scenario_returns_completion_text() {
    let registry = Registry::new(true);
    let command = registry.resolve("generate", args(Some("llama3.2:latest"), Some("hello")));
    assert_eq!(
        command,
        Ok(Command::Generate { model: "llama3.2:latest".to_string(), prompt: "hello".to_string() })
    );
    assert_eq!(generate_result(Ok("hi there".to_string())), Ok("hi there".to_string()));
}

#[test]
fn pull_scenario_emits_two_events_then_completes() {
    let registry = Registry::new(true);
    let command = registry.resolve("pullModel", args(Some("llama3.2:latest"), None));
    assert_eq!(command, Ok(Command::PullModel { model: "llama3.2:latest".to_string() }));
    let mut session = PullSession::new();
    assert_eq!(session.step(PullEvent::Progress(chunk(50, 100))), PullAction::Emit(chunk(50, 100)));
    assert!(!session.is_finished());
    assert_eq!(session.step(PullEvent::Progress(chunk(100, 100))), PullAction::Emit(chunk(100, 100)));
    assert!(!session.is_finished());
    assert_eq!(
        session.step(PullEvent::Completed),
        PullAction::Finish(Ok(PullResponse { status: "completed".to_string() }))
    );
    assert!(session.is_finished());
}

#[test]
fn list_models_scenario_connection_refused() {
    let r = list_models_result::<String>(Err("connection refused".to_string()));
    assert_eq!(
        r,
        Err(ErrorInfo { code: ErrorCode::ListModelError, message: "connection refused".to_string() })
    );
    assert_eq!(ErrorCode::ListModelError.as_str(), "LIST_MODEL_ERROR");
}

#[test]
fn catalog_scenario_unreachable_host_gives_raw_text() {
    let text = "error sending request for url (https://ollama-models.zwz.workers.dev/)".to_string();
    assert_eq!(catalog_result(CatalogFetch::Unreachable(text.clone())), Err(text));
}

#[test]
fn catalog_passes_every_status_through() {
    for status in [200u16, 404, 500] {
        let body = format!("body {}", status);
        let r = catalog_result(CatalogFetch::Received { status, body: body.clone() });
        assert_eq!(r, Ok(CatalogResponse { data: body, status }));
    }
}

#[test]
fn catalog_unreadable_body_gives_raw_text() {
    let r = catalog_result(CatalogFetch::BodyUnreadable("error decoding response body".to_string()));
    assert_eq!(r, Err("error decoding response body".to_string()));
}

#[test]
fn catalog_url_is_the_community_mirror() {
    assert_eq!(CATALOG_URL, "https://ollama-models.zwz.workers.dev/");
}

#[test]
fn every_supported_name_resolves_with_its_arguments() {
    let registry = Registry::new(true);
    let full = || args(Some("m"), Some("p"));
    assert_eq!(
        registry.resolve("generate", full()),
        Ok(Command::Generate { model: "m".to_string(), prompt: "p".to_string() })
    );
    assert_eq!(registry.resolve("listModels", full()), Ok(Command::ListModels));
    assert_eq!(
        registry.resolve("fetchModelInfo", full()),
        Ok(Command::FetchModelInfo { model: "m".to_string() })
    );
    assert_eq!(registry.resolve("fetchAvailableModels", full()), Ok(Command::FetchAvailableModels));
    assert_eq!(registry.resolve("pullModel", full()), Ok(Command::PullModel { model: "m".to_string() }));
    assert_eq!(registry.resolve("listModels", args(None, None)), Ok(Command::ListModels));
}

#[test]
fn operation_names_are_looked_up_exactly() {
    assert_eq!(operation_named("generate"), Some(Operation::Generate));
    assert_eq!(operation_named("listModels"), Some(Operation::ListModels));
    assert_eq!(operation_named("fetchModelInfo"), Some(Operation::FetchModelInfo));
    assert_eq!(operation_named("fetchAvailableModels"), Some(Operation::FetchAvailableModels));
    assert_eq!(operation_named("pullModel"), Some(Operation::PullModel));
    assert_eq!(operation_named("Generate"), None);
    assert_eq!(operation_named("generat"), None);
    assert_eq!(operation_named(""), None);
}

#[test]
fn unknown_name_is_rejected() {
    let registry = Registry::new(true);
    assert_eq!(registry.resolve("deleteModel", args(Some("m"), Some("p"))), Err(DispatchError::UnknownOperation));
    assert_eq!(registry.resolve("lama", args(Some("m"), Some("p"))), Err(DispatchError::UnknownOperation));
}

#[test]
fn disabled_operations_are_rejected_like_unknown_names() {
    let registry = Registry::new(false);
    assert_eq!(registry.resolve("listModels", args(None, None)), Err(DispatchError::UnknownOperation));
    assert_eq!(registry.resolve("generate", args(Some("m"), Some("p"))), Err(DispatchError::UnknownOperation));
}

#[test]
fn missing_argument_is_rejected() {
    let registry = Registry::new(true);
    assert_eq!(registry.resolve("generate", args(Some("m"), None)), Err(DispatchError::MissingArgument));
    assert_eq!(registry.resolve("generate", args(None, Some("p"))), Err(DispatchError::MissingArgument));
    assert_eq!(registry.resolve("fetchModelInfo", args(None, None)), Err(DispatchError::MissingArgument));
    assert_eq!(registry.resolve("pullModel", args(None, Some("p"))), Err(DispatchError::MissingArgument));
}

#[test]
fn backend_failures_carry_the_documented_codes() {
    let e = generate_result(Err("model not found".to_string())).unwrap_err();
    assert_eq!(e.code.as_str(), "GENERATE_ERROR");
    assert_eq!(e.message, "model not found");
    let e = model_info_result::<u8>(Err("timeout".to_string())).unwrap_err();
    assert_eq!(e.code.as_str(), "LIST_MODEL_ERROR");
    assert_eq!(e.message, "timeout");
    let mut session = PullSession::new();
    let action = session.step(PullEvent::Failed("disk full".to_string()));
    assert_eq!(
        action,
        PullAction::Finish(Err(ErrorInfo { code: ErrorCode::PullModelError, message: "disk full".to_string() }))
    );
    assert_eq!(ErrorCode::PullModelError.as_str(), "PULL_MODEL_ERROR");
}

#[test]
fn successful_backend_payloads_pass_through() {
    assert_eq!(list_models_result(Ok(vec![1u8, 2, 3])), Ok(vec![1u8, 2, 3]));
    assert_eq!(model_info_result(Ok("info".to_string())), Ok("info".to_string()));
    assert_eq!(normalize::<u32>(Ok(7), ErrorCode::GenerateError), Ok(7));
}

#[test]
fn pull_failure_after_progress_keeps_the_emitted_events() {
    let mut session = PullSession::new();
    let digest = Some("sha256:abc".to_string());
    let first = ProgressEvent { digest: digest.clone(), completed: Some(10), total: Some(40) };
    assert_eq!(session.step(PullEvent::Progress(first.clone())), PullAction::Emit(first));
    let action = session.step(PullEvent::Failed("connection reset".to_string()));
    assert_eq!(
        action,
        PullAction::Finish(Err(ErrorInfo::new(ErrorCode::PullModelError, "connection reset".to_string())))
    );
}

#[test]
fn pull_reports_after_the_end_are_ignored() {
    let mut session = PullSession::new();
    assert_eq!(
        session.step(PullEvent::Completed),
        PullAction::Finish(Ok(PullResponse { status: "completed".to_string() }))
    );
    assert_eq!(session.step(PullEvent::Progress(chunk(1, 2))), PullAction::Ignore);
    assert_eq!(session.step(PullEvent::Failed("late".to_string())), PullAction::Ignore);
    assert_eq!(session.step(PullEvent::Completed), PullAction::Ignore);
    assert!(session.is_finished());
}

#[test]
fn pull_without_progress_completes_at_once() {
    let mut session = PullSession::new();
    assert!(!session.is_finished());
    assert_eq!(
        session.step(PullEvent::Completed),
        PullAction::Finish(Ok(PullResponse { status: "completed".to_string() }))
    );
}

#[test]
fn dispatch_errors_have_texts() {
    assert_eq!(DispatchError::UnknownOperation.as_str(), "unknown operation");
    assert_eq!(DispatchError::MissingArgument.as_str(), "missing argument");
    assert_eq!(ErrorCode::GenerateError.as_str(), "GENERATE_ERROR");
}
