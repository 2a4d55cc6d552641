use server_agent::docker::{container_inspect, container_logs, container_rm, container_start};
use server_agent::docker::{container_stop, create_or_update_container, list_containers};
use server_agent::docker::{log_lines, missing_image, split_image};
use server_agent::docker::{CreateAction, CreateEvent, CreateStage, CreateState};
use server_agent::docker::{EngineError, LogChunk, LogKind};
use server_agent::protocol::Response;

const INIT_FAILED: &str = "{\"error\": \"Docker init failed\"}";

fn run(image: &str, events: Vec<CreateEvent>) -> (Vec<CreateAction>, CreateState) {
    let mut state = CreateState::new(image.to_string());
    let mut actions = Vec::new();
    for event in events {
        let (next, action) = create_or_update_container(state, event);
        state = next;
        actions.push(action);
    }
    (actions, state)
}

fn pulls(actions: &[CreateAction]) -> usize {
    actions.iter().filter(|a| matches!(a, CreateAction::Pull { .. })).count()
}

fn creates(actions: &[CreateAction]) -> usize {
    actions.iter().filter(|a| matches!(a, CreateAction::Create)).count()
}

fn response(action: &CreateAction) -> &Response {
    match action {
        CreateAction::Respond(r) => r,
        _ => panic!("no response"),
    }
}

fn failed(text: &str) -> CreateEvent {
    CreateEvent::Failed(text.to_string())
}

#[test]
fn image_without_colon_gets_latest() {
    assert_eq!(split_image("nginx"), ("nginx".to_string(), "latest".to_string()));
    assert_eq!(split_image(""), ("".to_string(), "latest".to_string()));
}

#[test]
fn image_is_split_at_its_last_colon() {
    assert_eq!(split_image("nginx:1.25"), ("nginx".to_string(), "1.25".to_string()));
    assert_eq!(
        split_image("registry.local:5000/team/app:v2"),
        ("registry.local:5000/team/app".to_string(), "v2".to_string())
    );
    assert_eq!(
        split_image("registry.local:5000/app"),
        ("registry.local".to_string(), "5000/app".to_string())
    );
    assert_eq!(split_image("app:"), ("app".to_string(), "".to_string()));
    assert_eq!(split_image(":tag"), ("".to_string(), "tag".to_string()));
    assert_eq!(split_image(":"), ("".to_string(), "".to_string()));
    assert_eq!(split_image("caf\u{e9}:t\u{e9}"), ("caf\u{e9}".to_string(), "t\u{e9}".to_string()));
}

#[test]
fn missing_image_is_told_by_the_error_text() {
    assert!(missing_image("Docker responded with status code 404: No such image: nginx:1"));
    assert!(missing_image("No such image"));
    assert!(missing_image("status 404"));
    assert!(missing_image("x404x"));
    assert!(!missing_image("no such image"));
    assert!(!missing_image("Conflict. The container name is already in use"));
    assert!(!missing_image("40 4"));
    assert!(!missing_image(""));
}

#[test]
fn create_succeeds_at_once() {
    let (actions, state) = run(
        "nginx:1",
        vec![CreateEvent::Begin, CreateEvent::Done, CreateEvent::Created("{\"Id\":\"abc\"}".to_string())],
    );
    assert!(matches!(actions[0], CreateAction::Connect));
    assert!(matches!(actions[1], CreateAction::Create));
    assert_eq!(response(&actions[2]).status, 200);
    assert_eq!(response(&actions[2]).body, "{\"Id\":\"abc\"}");
    assert_eq!(state.stage, CreateStage::Finished);
    assert_eq!(pulls(&actions), 0);
    assert_eq!(creates(&actions), 1);
}

#[test]
fn unreachable_engine_is_reported() {
    let (actions, state) = run("nginx", vec![CreateEvent::Begin, failed("socket missing")]);
    assert_eq!(response(&actions[1]).status, 500);
    assert_eq!(response(&actions[1]).body, INIT_FAILED);
    assert_eq!(state.stage, CreateStage::Finished);
    assert_eq!(creates(&actions), 0);
}

#[test]
fn missing_image_is_pulled_once_and_creation_retried_once() {
    let (actions, state) = run(
        "registry.local:5000/app:v2",
        vec![
            CreateEvent::Begin,
            CreateEvent::Done,
            failed("404: No such image: registry.local:5000/app:v2"),
            CreateEvent::Done,
            CreateEvent::Created("{\"Id\":\"new\"}".to_string()),
        ],
    );
    match &actions[2] {
        CreateAction::Pull { repo, tag } => {
            assert_eq!(repo, "registry.local:5000/app");
            assert_eq!(tag, "v2");
        },
        _ => panic!("no pull"),
    }
    assert!(matches!(actions[3], CreateAction::Create));
    assert_eq!(response(&actions[4]).status, 200);
    assert_eq!(response(&actions[4]).body, "{\"Id\":\"new\"}");
    assert_eq!(pulls(&actions), 1);
    assert_eq!(creates(&actions), 2);
    assert_eq!(state.stage, CreateStage::Finished);
}

#[test]
fn pull_of_untagged_image_asks_for_latest() {
    let (actions, _) = run("nginx", vec![CreateEvent::Begin, CreateEvent::Done, failed("No such image")]);
    match &actions[2] {
        CreateAction::Pull { repo, tag } => {
            assert_eq!(repo, "nginx");
            assert_eq!(tag, "latest");
        },
        _ => panic!("no pull"),
    }
}

#[test]
fn second_failure_is_not_retried() {
    let (actions, state) = run(
        "nginx:1",
        vec![
            CreateEvent::Begin,
            CreateEvent::Done,
            failed("No such image: nginx:1"),
            CreateEvent::Done,
            failed("No such image: nginx:1"),
            CreateEvent::Done,
            failed("No such image: nginx:1"),
        ],
    );
    assert_eq!(response(&actions[4]).status, 500);
    assert_eq!(
        response(&actions[4]).body,
        "{\"error\": \"Docker create container failed\",\"message\":\"No such image: nginx:1\"}"
    );
    assert_eq!(pulls(&actions), 1);
    assert_eq!(creates(&actions), 2);
    assert_eq!(response(&actions[5]).status, 500);
    assert_eq!(response(&actions[6]).status, 500);
    assert_eq!(state.stage, CreateStage::Finished);
}

#[test]
fn other_failure_is_surfaced_without_pull() {
    let (actions, state) = run(
        "nginx:1",
        vec![CreateEvent::Begin, CreateEvent::Done, failed("Conflict: name in use")],
    );
    assert_eq!(response(&actions[2]).status, 500);
    assert_eq!(
        response(&actions[2]).body,
        "{\"error\": \"Docker create container failed\",\"message\":\"Conflict: name in use\"}"
    );
    assert_eq!(pulls(&actions), 0);
    assert_eq!(creates(&actions), 1);
    assert_eq!(state.stage, CreateStage::Finished);
}

#[test]
fn missing_image_without_image_name_is_a_bad_request() {
    let (actions, _) = run("", vec![CreateEvent::Begin, CreateEvent::Done, failed("No such image: ")]);
    assert_eq!(response(&actions[2]).status, 400);
    assert_eq!(response(&actions[2]).body, "{\"error\":\"No image specified\"}");
    assert_eq!(pulls(&actions), 0);
}

#[test]
fn failed_pull_is_reported() {
    let (actions, state) = run(
        "nginx:1",
        vec![CreateEvent::Begin, CreateEvent::Done, failed("status 404"), failed("registry down")],
    );
    assert_eq!(response(&actions[3]).status, 500);
    assert_eq!(
        response(&actions[3]).body,
        "{\"error\":\"Image pull failed\",\"message\":\"registry down\"}"
    );
    assert_eq!(creates(&actions), 1);
    assert_eq!(state.stage, CreateStage::Finished);
}

#[test]
fn outcome_out_of_turn_ends_the_creation() {
    let (actions, state) = run("nginx", vec![CreateEvent::Done]);
    assert_eq!(response(&actions[0]).status, 500);
    assert_eq!(response(&actions[0]).body, "{\"error\": \"unexpected event\"}");
    assert_eq!(state.stage, CreateStage::Finished);
    let (actions, _) = run("nginx", vec![CreateEvent::Begin, CreateEvent::Created("{}".to_string())]);
    assert_eq!(response(&actions[1]).status, 500);
    let (actions, _) = run("nginx", vec![CreateEvent::Begin, CreateEvent::Done, CreateEvent::Begin]);
    assert_eq!(response(&actions[2]).status, 500);
}

#[test]
fn list_and_inspect_answers() {
    let r = list_containers(Ok("[{\"Id\":\"a\"}]".to_string()));
    assert_eq!((r.status, r.body.as_str()), (200, "[{\"Id\":\"a\"}]"));
    let r = list_containers(Err(EngineError::Unreachable));
    assert_eq!((r.status, r.body.as_str()), (500, INIT_FAILED));
    let r = list_containers(Err(EngineError::Refused));
    assert_eq!((r.status, r.body.as_str()), (200, INIT_FAILED));
    let r = container_inspect(Ok("{\"Id\":\"a\"}".to_string()));
    assert_eq!((r.status, r.body.as_str()), (200, "{\"Id\":\"a\"}"));
    let r = container_inspect(Err(EngineError::Unreachable));
    assert_eq!((r.status, r.body.as_str()), (500, INIT_FAILED));
    let r = container_inspect(Err(EngineError::Refused));
    assert_eq!((r.status, r.body.as_str()), (200, INIT_FAILED));
}

#[test]
fn start_stop_and_remove_answers() {
    let r = container_start(Ok(()));
    assert_eq!((r.status, r.body.as_str()), (200, "{\"ok\": \"Docker container started\"}"));
    let r = container_start(Err(EngineError::Unreachable));
    assert_eq!((r.status, r.body.as_str()), (500, INIT_FAILED));
    let r = container_start(Err(EngineError::Refused));
    assert_eq!((r.status, r.body.as_str()), (500, "{\"error\": \"Docker container start failed\"}"));
    let r = container_stop(Ok(()));
    assert_eq!((r.status, r.body.as_str()), (200, "{\"ok\": \"Docker container stopped\"}"));
    let r = container_stop(Err(EngineError::Unreachable));
    assert_eq!((r.status, r.body.as_str()), (500, INIT_FAILED));
    let r = container_stop(Err(EngineError::Refused));
    assert_eq!((r.status, r.body.as_str()), (500, "{\"error\": \"Docker container stop failed\"}"));
    let r = container_rm(Ok(()));
    assert_eq!((r.status, r.body.as_str()), (200, "{\"ok\": \"Docker container removed\"}"));
    let r = container_rm(Err(EngineError::Unreachable));
    assert_eq!((r.status, r.body.as_str()), (500, INIT_FAILED));
    let r = container_rm(Err(EngineError::Refused));
    assert_eq!((r.status, r.body.as_str()), (500, "{\"error\": \"Docker container stop failed\"}"));
}

fn chunk(kind: LogKind, message: &str) -> LogChunk {
    LogChunk { kind, message: message.to_string() }
}

#[test]
fn log_pieces_become_lines() {
    let chunks = vec![
        chunk(LogKind::StdOut, "out\n"),
        chunk(LogKind::StdErr, "err\n"),
        chunk(LogKind::StdIn, "typed"),
        chunk(LogKind::Console, "console"),
    ];
    assert_eq!(log_lines(&chunks), vec!["out\n", "err\n", "", ""]);
    assert!(log_lines(&Vec::new()).is_empty());
}

#[test]
fn logs_keep_the_last_hundred_of_many() {
    let chunks: Vec<LogChunk> = (0..250).map(|i| chunk(LogKind::StdOut, &format!("line {}", i))).collect();
    let r = container_logs(Ok(chunks));
    assert_eq!(r.status, 200);
    let lines: Vec<String> = serde_json::from_str(&r.body).unwrap();
    let expected: Vec<String> = (150..250).map(|i| format!("line {}", i)).collect();
    assert_eq!(lines, expected);
}

#[test]
fn logs_keep_all_of_few() {
    let chunks: Vec<LogChunk> = (0..30).map(|i| chunk(LogKind::StdErr, &format!("line {}", i))).collect();
    let r = container_logs(Ok(chunks));
    assert_eq!(r.status, 200);
    let lines: Vec<String> = serde_json::from_str(&r.body).unwrap();
    let expected: Vec<String> = (0..30).map(|i| format!("line {}", i)).collect();
    assert_eq!(lines, expected);
}

#[test]
fn logs_are_written_as_json() {
    let r = container_logs(Ok(vec![chunk(LogKind::StdOut, "say \"hi\"\n"), chunk(LogKind::StdIn, "x")]));
    assert_eq!((r.status, r.body.as_str()), (200, "[\"say \\\"hi\\\"\\n\",\"\"]"));
    let r = container_logs(Ok(Vec::new()));
    assert_eq!((r.status, r.body.as_str()), (200, "[]"));
}

#[test]
fn failed_logs_are_reported() {
    let r = container_logs(Err(EngineError::Unreachable));
    assert_eq!((r.status, r.body.as_str()), (500, INIT_FAILED));
    let r = container_logs(Err(EngineError::Refused));
    assert_eq!((r.status, r.body.as_str()), (500, "{\"error\": \"Docker read logs failed\"}"));
}
