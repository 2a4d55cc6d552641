use server_agent::github_runners::{download_url, extract_tag, get_status, release_file_name};
use server_agent::github_runners::{service_command_in, setup_new, status_command};
use server_agent::github_runners::{SetupAction, SetupEvent, SetupStage, SetupState};
use server_agent::protocol::{Command, Response};

fn run(events: Vec<SetupEvent>) -> (Vec<SetupAction>, SetupState) {
    let mut state = SetupState::new(
        "TOKEN123".to_string(),
        "/opt/runner".to_string(),
        "https://github.com/acme/app".to_string(),
    );
    let mut actions = Vec::new();
    for event in events {
        let (next, action) = setup_new(state, event);
        state = next;
        actions.push(action);
    }
    (actions, state)
}

fn response(action: &SetupAction) -> &Response {
    match action {
        SetupAction::Respond(r) => r,
        _ => panic!("no response"),
    }
}

fn command(action: &SetupAction) -> &Command {
    match action {
        SetupAction::Run(c) => c,
        _ => panic!("no command"),
    }
}

fn failed(text: &str) -> SetupEvent {
    SetupEvent::Failed(text.to_string())
}

fn exited(success: bool, exit: &str) -> SetupEvent {
    SetupEvent::Exited { success, exit: exit.to_string() }
}

fn redirect(status: u16, location: Option<&str>) -> SetupEvent {
    SetupEvent::Redirect { status, location: location.map(|l| l.to_string()) }
}

fn fetched(status: u16, reason: &str) -> SetupEvent {
    SetupEvent::Fetched { status, reason: reason.to_string() }
}

const LOCATION: &str = "https://github.com/actions/runner/releases/tag/v2.311.0";

fn up_to_install() -> Vec<SetupEvent> {
    vec![
        SetupEvent::Begin,
        SetupEvent::Exists(false),
        SetupEvent::Done,
        SetupEvent::Done,
        redirect(302, Some(LOCATION)),
        fetched(200, "200 OK"),
        SetupEvent::Done,
        SetupEvent::Done,
        exited(true, "exit status: 0"),
        exited(true, "exit status: 0"),
    ]
}

fn writes_to_disk(action: &SetupAction) -> bool {
    matches!(
        action,
        SetupAction::CreateDir(_) | SetupAction::WriteArchive { .. } | SetupAction::Run(_)
    )
}

#[test]
fn tag_is_taken_from_the_end_of_the_location() {
    assert_eq!(extract_tag(LOCATION), Some("v2.311.0".to_string()));
    assert_eq!(extract_tag("/tag/v1"), Some("v1".to_string()));
    assert_eq!(extract_tag("x/tag/v2.0.0-beta/extra"), Some("v2.0.0-beta/extra".to_string()));
}

#[test]
fn location_without_tag_gives_none() {
    assert_eq!(extract_tag("https://github.com/actions/runner/releases/latest"), None);
    assert_eq!(extract_tag("https://github.com/actions/runner/releases/tag/2.311.0"), None);
    assert_eq!(extract_tag("https://github.com/actions/runner/releases/tag/vNext"), None);
    assert_eq!(extract_tag("/tag/v"), None);
    assert_eq!(extract_tag(""), None);
}

#[test]
fn file_name_drops_the_leading_v() {
    assert_eq!(release_file_name("v2.311.0"), "actions-runner-linux-x64-2.311.0.tar.gz");
    assert_eq!(release_file_name("vv9"), "actions-runner-linux-x64-9.tar.gz");
    assert_eq!(release_file_name("2.0v"), "actions-runner-linux-x64-2.0v.tar.gz");
    assert_eq!(release_file_name("v"), "actions-runner-linux-x64-.tar.gz");
    assert_eq!(release_file_name(""), "actions-runner-linux-x64-.tar.gz");
}

#[test]
fn download_url_names_tag_and_file() {
    assert_eq!(
        download_url("v2.311.0"),
        "https://github.com/actions/runner/releases/download/v2.311.0/actions-runner-linux-x64-2.311.0.tar.gz"
    );
}

#[test]
fn existing_path_is_refused_without_writing() {
    let (actions, state) = run(vec![
        SetupEvent::Begin,
        SetupEvent::Exists(true),
        SetupEvent::Done,
        exited(true, "exit status: 0"),
    ]);
    match &actions[0] {
        SetupAction::CheckPath(p) => assert_eq!(p, "/opt/runner"),
        _ => panic!("no path check"),
    }
    assert_eq!(response(&actions[1]).status, 400);
    assert_eq!(response(&actions[1]).body, "{\"error\": \"path already exists\"}");
    assert!(!actions.iter().any(writes_to_disk));
    assert_eq!(state.stage, SetupStage::Finished);
}

#[test]
fn whole_installation_in_order() {
    let mut events = up_to_install();
    events.push(exited(true, "exit status: 0"));
    events.push(exited(true, "exit status: 0"));
    let (actions, state) = run(events);
    assert!(matches!(&actions[0], SetupAction::CheckPath(p) if p == "/opt/runner"));
    assert!(matches!(&actions[1], SetupAction::CreateDir(p) if p == "/opt/runner"));
    assert!(matches!(&actions[2], SetupAction::BuildClient));
    assert!(matches!(
        &actions[3],
        SetupAction::FetchLatest(u) if u == "https://github.com/actions/runner/releases/latest"
    ));
    assert!(matches!(
        &actions[4],
        SetupAction::Download(u) if u == "https://github.com/actions/runner/releases/download/v2.311.0/actions-runner-linux-x64-2.311.0.tar.gz"
    ));
    assert!(matches!(&actions[5], SetupAction::ReadBody));
    match &actions[6] {
        SetupAction::WriteArchive { dir, file_name } => {
            assert_eq!(dir, "/opt/runner");
            assert_eq!(file_name, "actions-runner-linux-x64-2.311.0.tar.gz");
        },
        _ => panic!("no write"),
    }
    let tar = command(&actions[7]);
    assert_eq!(tar.program, "tar");
    assert_eq!(tar.args, vec!["xzf", "actions-runner-linux-x64-2.311.0.tar.gz"]);
    assert_eq!(tar.dir.as_deref(), Some("/opt/runner"));
    let config = command(&actions[8]);
    assert_eq!(config.program, "./config.sh");
    assert_eq!(
        config.args,
        vec!["--url", "https://github.com/acme/app", "--token", "TOKEN123", "--unattended"]
    );
    assert_eq!(config.dir.as_deref(), Some("/opt/runner"));
    let install = command(&actions[9]);
    assert_eq!(install.program, "sudo");
    assert_eq!(install.args, vec!["-n", "./svc.sh", "install"]);
    assert_eq!(install.dir.as_deref(), Some("/opt/runner"));
    let start = command(&actions[10]);
    assert_eq!(start.program, "sudo");
    assert_eq!(start.args, vec!["-n", "./svc.sh", "start"]);
    assert_eq!(start.dir.as_deref(), Some("/opt/runner"));
    assert_eq!(response(&actions[11]).status, 200);
    assert_eq!(response(&actions[11]).body, "{\"ok\": true, \"service\": \"installed started\"}");
    assert_eq!(state.stage, SetupStage::Finished);
    assert_eq!(state.service, "installed started");
}

#[test]
fn permanent_redirect_is_taken_too() {
    let (actions, _) = run(vec![
        SetupEvent::Begin,
        SetupEvent::Exists(false),
        SetupEvent::Done,
        SetupEvent::Done,
        redirect(301, Some(LOCATION)),
    ]);
    assert!(matches!(&actions[4], SetupAction::Download(_)));
}

#[test]
fn failed_mkdir_and_client_are_reported() {
    let (actions, _) = run(vec![SetupEvent::Begin, SetupEvent::Exists(false), failed("denied")]);
    assert_eq!(response(&actions[2]).status, 500);
    assert_eq!(response(&actions[2]).body, "{\"error\": \"mkdir failed: denied\"}");
    let (actions, _) = run(vec![SetupEvent::Begin, SetupEvent::Exists(false), SetupEvent::Done, failed("tls")]);
    assert_eq!(response(&actions[3]).status, 500);
    assert_eq!(response(&actions[3]).body, "{\"error\": \"client init failed: tls\"}");
}

fn at_latest(event: SetupEvent) -> (u16, String) {
    let (actions, state) = run(vec![
        SetupEvent::Begin,
        SetupEvent::Exists(false),
        SetupEvent::Done,
        SetupEvent::Done,
        event,
    ]);
    assert_eq!(state.stage, SetupStage::Finished);
    let r = response(&actions[4]);
    (r.status, r.body.clone())
}

#[test]
fn bad_answers_to_the_release_request_are_reported() {
    assert_eq!(
        at_latest(failed("dns error")),
        (502, "{\"error\": \"request failed: dns error\"}".to_string())
    );
    assert_eq!(
        at_latest(redirect(200, Some(LOCATION))),
        (502, "{\"error\": \"unexpected redirect status: 200\"}".to_string())
    );
    assert_eq!(
        at_latest(redirect(303, Some(LOCATION))),
        (502, "{\"error\": \"unexpected redirect status: 303\"}".to_string())
    );
    assert_eq!(
        at_latest(redirect(65535, None)),
        (502, "{\"error\": \"unexpected redirect status: 65535\"}".to_string())
    );
    assert_eq!(
        at_latest(redirect(0, None)),
        (502, "{\"error\": \"unexpected redirect status: 0\"}".to_string())
    );
    assert_eq!(at_latest(redirect(302, None)), (502, "{\"error\": \"no location header\"}".to_string()));
    assert_eq!(
        at_latest(redirect(302, Some(""))),
        (502, "{\"error\": \"no location header\"}".to_string())
    );
    assert_eq!(
        at_latest(redirect(302, Some("https://github.com/actions/runner/releases"))),
        (502, "{\"error\": \"could not extract version tag\"}".to_string())
    );
}

#[test]
fn bad_downloads_are_reported() {
    let mut events: Vec<SetupEvent> = up_to_install().into_iter().take(5).collect();
    events.push(fetched(404, "404 Not Found"));
    let (actions, _) = run(events);
    assert_eq!(response(&actions[5]).status, 502);
    assert_eq!(response(&actions[5]).body, "{\"error\": \"download returned 404 Not Found\"}");

    for (status, ok) in [(199, false), (200, true), (204, true), (299, true), (300, false), (500, false)] {
        let mut events: Vec<SetupEvent> = up_to_install().into_iter().take(5).collect();
        events.push(fetched(status, "text"));
        let (actions, _) = run(events);
        assert_eq!(matches!(&actions[5], SetupAction::ReadBody), ok, "{}", status);
    }

    let mut events: Vec<SetupEvent> = up_to_install().into_iter().take(5).collect();
    events.push(failed("reset"));
    let (actions, _) = run(events);
    assert_eq!(response(&actions[5]).status, 502);
    assert_eq!(response(&actions[5]).body, "{\"error\": \"download failed: reset\"}");

    let mut events: Vec<SetupEvent> = up_to_install().into_iter().take(6).collect();
    events.push(failed("truncated"));
    let (actions, _) = run(events);
    assert_eq!(response(&actions[6]).status, 502);
    assert_eq!(response(&actions[6]).body, "{\"error\": \"reading download failed: truncated\"}");

    let mut events: Vec<SetupEvent> = up_to_install().into_iter().take(7).collect();
    events.push(failed("disk full"));
    let (actions, _) = run(events);
    assert_eq!(response(&actions[7]).status, 500);
    assert_eq!(response(&actions[7]).body, "{\"error\": \"write file failed: disk full\"}");
}

#[test]
fn failed_tar_and_config_end_the_installation() {
    let mut events: Vec<SetupEvent> = up_to_install().into_iter().take(8).collect();
    events.push(exited(false, "exit status: 2"));
    let (actions, state) = run(events);
    assert_eq!(response(&actions[8]).status, 500);
    assert_eq!(response(&actions[8]).body, "{\"error\": \"tar exited with exit status: 2\"}");
    assert_eq!(state.stage, SetupStage::Finished);

    let mut events: Vec<SetupEvent> = up_to_install().into_iter().take(8).collect();
    events.push(failed("No such file or directory"));
    let (actions, _) = run(events);
    assert_eq!(response(&actions[8]).status, 500);
    assert_eq!(response(&actions[8]).body, "{\"error\": \"tar failed: No such file or directory\"}");

    let mut events: Vec<SetupEvent> = up_to_install().into_iter().take(9).collect();
    events.push(exited(false, "exit status: 1"));
    let (actions, _) = run(events);
    assert_eq!(response(&actions[9]).status, 500);
    assert_eq!(response(&actions[9]).body, "{\"error\": \"config exited with exit status: 1\"}");

    let mut events: Vec<SetupEvent> = up_to_install().into_iter().take(9).collect();
    events.push(failed("denied"));
    let (actions, _) = run(events);
    assert_eq!(response(&actions[9]).status, 500);
    assert_eq!(response(&actions[9]).body, "{\"error\": \"config failed: denied\"}");
}

fn service_report(install: SetupEvent, start: SetupEvent) -> (u16, String) {
    let mut events = up_to_install();
    events.push(install);
    events.push(start);
    let (actions, _) = run(events);
    assert!(matches!(&actions[10], SetupAction::Run(_)));
    let r = response(&actions[11]);
    (r.status, r.body.clone())
}

#[test]
fn service_steps_are_reported_with_status_200() {
    assert_eq!(
        service_report(exited(false, "exit status: 1"), exited(true, "")),
        (200, "{\"ok\": true, \"service\": \"install-exit:exit status: 1 started\"}".to_string())
    );
    assert_eq!(
        service_report(failed("no sudo"), exited(false, "exit status: 3")),
        (200, "{\"ok\": true, \"service\": \"install-err:no sudo start-exit:exit status: 3\"}".to_string())
    );
    assert_eq!(
        service_report(exited(true, ""), failed("no sudo")),
        (200, "{\"ok\": true, \"service\": \"installed start-err:no sudo\"}".to_string())
    );
}

#[test]
fn outcome_out_of_turn_ends_the_installation() {
    let (actions, state) = run(vec![SetupEvent::Exists(false)]);
    assert_eq!(response(&actions[0]).status, 500);
    assert_eq!(response(&actions[0]).body, "{\"error\": \"unexpected event\"}");
    assert_eq!(state.stage, SetupStage::Finished);
    let (actions, _) = run(vec![SetupEvent::Begin, SetupEvent::Done]);
    assert_eq!(response(&actions[1]).status, 500);
    let mut events = up_to_install();
    events.push(SetupEvent::Done);
    let (actions, _) = run(events);
    assert_eq!(response(&actions[10]).status, 500);
    assert_eq!(response(&actions[10]).body, "{\"error\": \"unexpected event\"}");
}

#[test]
fn status_is_handed_back_as_it_is() {
    let r = get_status("active (running)\n".to_string());
    assert_eq!((r.status, r.body.as_str()), (200, "active (running)\n"));
    let r = get_status(String::new());
    assert_eq!((r.status, r.body.as_str()), (200, ""));
}

#[test]
fn service_commands() {
    let c = status_command("/opt/runner");
    assert_eq!(c.program, "sudo");
    assert_eq!(c.args, vec!["-n", "./svc.sh", "status"]);
    assert_eq!(c.dir.as_deref(), Some("/opt/runner"));
    let c = service_command_in("/x", "stop");
    assert_eq!(c.args, vec!["-n", "./svc.sh", "stop"]);
}
