//! The compose handlers: writing a project's compose file and bringing the
//! project up, and reading the project's log.

use vstd::prelude::*;
use vstd::string::StringExecFns;
use crate::lines::{lines, lines_of, lines_reply, lines_response};
use crate::protocol::{command, no_args, push_arg, reply, views};
use crate::protocol::{Command, CommandModel, Response, ResponseModel};

verus! {

/// How far an update has come: the step whose outcome is awaited.
#[derive(Clone, Copy, PartialEq, Eq, Structural, Debug)]
pub enum ComposeStage {
    Start,
    Mkdir,
    Write,
    Up,
    Finished,
}

/// An update in progress: the project's directory and the text of its
/// compose file.
pub struct ComposeState {
    pub stage: ComposeStage,
    pub path: String,
    pub compose: String,
}

/// What a `ComposeState` stands for.
pub ghost struct ComposeStateModel {
    pub stage: ComposeStage,
    pub path: Seq<char>,
    pub compose: Seq<char>,
}

impl View for ComposeState {
    type V = ComposeStateModel;

    open spec fn view(&self) -> ComposeStateModel {
        ComposeStateModel { stage: self.stage, path: self.path@, compose: self.compose@ }
    }
}

/// The outcome of the step that was asked for last.
pub enum ComposeEvent {
    /// The request has arrived.
    Begin,
    /// The step succeeded.
    Done,
    /// The step failed; the text is the error's.
    Failed(String),
    /// The command ran; the text is what it printed.
    Output(String),
}

/// What a `ComposeEvent` stands for.
pub ghost enum ComposeEventModel {
    Begin,
    Done,
    Failed(Seq<char>),
    Output(Seq<char>),
}

impl View for ComposeEvent {
    type V = ComposeEventModel;

    open spec fn view(&self) -> ComposeEventModel {
        match *self {
            ComposeEvent::Begin => ComposeEventModel::Begin,
            ComposeEvent::Done => ComposeEventModel::Done,
            ComposeEvent::Failed(e) => ComposeEventModel::Failed(e@),
            ComposeEvent::Output(text) => ComposeEventModel::Output(text@),
        }
    }
}

/// The next thing to do for an update.
pub enum ComposeAction {
    /// Create this directory and its missing parents.
    CreateDir(String),
    /// Write this text to this file, in place of what the file holds.
    WriteFile { file: String, contents: String },
    /// Run this command and take what it prints.
    Run(Command),
    /// Answer the request.
    Respond(Response),
}

/// What a `ComposeAction` stands for.
pub ghost enum ComposeActionModel {
    CreateDir(Seq<char>),
    WriteFile { file: Seq<char>, contents: Seq<char> },
    Run(CommandModel),
    Respond(ResponseModel),
}

impl View for ComposeAction {
    type V = ComposeActionModel;

    open spec fn view(&self) -> ComposeActionModel {
        match *self {
            ComposeAction::CreateDir(p) => ComposeActionModel::CreateDir(p@),
            ComposeAction::WriteFile { file, contents } => ComposeActionModel::WriteFile {
                file: file@,
                contents: contents@,
            },
            ComposeAction::Run(c) => ComposeActionModel::Run(c@),
            ComposeAction::Respond(r) => ComposeActionModel::Respond(r@),
        }
    }
}

/// The compose file of the project in `path`.
pub open spec fn compose_file(path: Seq<char>) -> Seq<char> {
    path + "/docker-compose.yml"@
}

/// The command that brings the project in `path` up: detached, with its
/// images rebuilt and its orphaned containers removed.
pub open spec fn up_command(path: Seq<char>) -> CommandModel {
    command(
        "docker"@,
        seq!["compose"@, "up"@, "-d"@, "--remove-orphans"@, "--build"@],
        Some(path),
    )
}

/// The command that prints the log of the project in `path`.
pub open spec fn logs_command(path: Seq<char>) -> CommandModel {
    command("docker"@, seq!["compose"@, "logs"@], Some(path))
}

/// The update ends with this response.
pub open spec fn settle(s: ComposeStateModel, status: u16, body: Seq<char>) -> (
    ComposeStateModel,
    ComposeActionModel,
) {
    (
        ComposeStateModel { stage: ComposeStage::Finished, ..s },
        ComposeActionModel::Respond(reply(status, body)),
    )
}

/// The update goes on with `action`, at `stage`.
pub open spec fn go_on(s: ComposeStateModel, stage: ComposeStage, action: ComposeActionModel) -> (
    ComposeStateModel,
    ComposeActionModel,
) {
    (ComposeStateModel { stage, ..s }, action)
}

/// An outcome that does not belong to the awaited step ends the update.
pub open spec fn misplaced(s: ComposeStateModel) -> (ComposeStateModel, ComposeActionModel) {
    settle(s, 500, "{\"error\": \"unexpected event\"}"@)
}

/// The update's rule: for the awaited step and its outcome, the next state
/// and what to do next. A directory or a file that cannot be written ends
/// the update with status 500 before any command runs; what the command
/// prints is handed back as it is, with status 200.
pub open spec fn compose_step(s: ComposeStateModel, e: ComposeEventModel) -> (
    ComposeStateModel,
    ComposeActionModel,
) {
    match s.stage {
        ComposeStage::Start => match e {
            ComposeEventModel::Begin => go_on(
                s,
                ComposeStage::Mkdir,
                ComposeActionModel::CreateDir(s.path),
            ),
            _ => misplaced(s),
        },
        ComposeStage::Mkdir => match e {
            ComposeEventModel::Done => go_on(
                s,
                ComposeStage::Write,
                ComposeActionModel::WriteFile { file: compose_file(s.path), contents: s.compose },
            ),
            ComposeEventModel::Failed(err) => settle(
                s,
                500,
                "{\"error\": \"mkdir failed: "@ + err + "\"}"@,
            ),
            _ => misplaced(s),
        },
        ComposeStage::Write => match e {
            ComposeEventModel::Done => go_on(
                s,
                ComposeStage::Up,
                ComposeActionModel::Run(up_command(s.path)),
            ),
            ComposeEventModel::Failed(_) => settle(
                s,
                500,
                "{\"error\": \"Cant read/write docker-compose.yml\"}"@,
            ),
            _ => misplaced(s),
        },
        ComposeStage::Up => match e {
            ComposeEventModel::Output(text) => settle(
                s,
                200,
                "{\"ok\": true, \"compose\": \""@ + text + "\"}"@,
            ),
            _ => misplaced(s),
        },
        ComposeStage::Finished => misplaced(s),
    }
}

/// The command that brings the project in `path` up.
pub fn compose_up_command(path: &str) -> (r: Command)
    ensures
        r@ == up_command(path@),
{
    let mut args = no_args();
    push_arg(&mut args, "compose");
    push_arg(&mut args, "up");
    push_arg(&mut args, "-d");
    push_arg(&mut args, "--remove-orphans");
    push_arg(&mut args, "--build");
    assert(views(args@) =~= seq!["compose"@, "up"@, "-d"@, "--remove-orphans"@, "--build"@]);
    Command::in_dir("docker", args, path)
}

/// The command that prints the log of the project in `path`.
pub fn compose_logs_command(path: &str) -> (r: Command)
    ensures
        r@ == logs_command(path@),
{
    let mut args = no_args();
    push_arg(&mut args, "compose");
    push_arg(&mut args, "logs");
    assert(views(args@) =~= seq!["compose"@, "logs"@]);
    Command::in_dir("docker", args, path)
}

impl ComposeState {
    /// The state of an update that has not begun.
    pub fn new(path: String, compose: String) -> (r: ComposeState)
        ensures
            r@ == (ComposeStateModel { stage: ComposeStage::Start, path: path@, compose: compose@ }),
    {
        ComposeState { stage: ComposeStage::Start, path, compose }
    }

    fn settle(self, response: Response) -> (r: (ComposeState, ComposeAction))
        ensures
            (r.0@, r.1@) == settle(self@, response@.status, response@.body),
    {
        (
            ComposeState { stage: ComposeStage::Finished, path: self.path, compose: self.compose },
            ComposeAction::Respond(response),
        )
    }

    fn go_on(self, stage: ComposeStage, action: ComposeAction) -> (r: (ComposeState, ComposeAction))
        ensures
            (r.0@, r.1@) == go_on(self@, stage, action@),
    {
        (ComposeState { stage, path: self.path, compose: self.compose }, action)
    }

    fn misplaced(self) -> (r: (ComposeState, ComposeAction))
        ensures
            (r.0@, r.1@) == misplaced(self@),
    {
        self.settle(Response::text(500, "{\"error\": \"unexpected event\"}"))
    }
}

/// One step of an update: takes the outcome of the step that was asked for
/// last, and says what to do next.
pub fn create_or_update_compose(state: ComposeState, event: ComposeEvent) -> (r: (
    ComposeState,
    ComposeAction,
))
    ensures
        (r.0@, r.1@) == compose_step(state@, event@),
{
    match state.stage {
        ComposeStage::Start => match event {
            ComposeEvent::Begin => {
                let dir = state.path.clone();
                state.go_on(ComposeStage::Mkdir, ComposeAction::CreateDir(dir))
            },
            _ => state.misplaced(),
        },
        ComposeStage::Mkdir => match event {
            ComposeEvent::Done => {
                let mut file = state.path.clone();
                file.append("/docker-compose.yml");
                let contents = state.compose.clone();
                state.go_on(ComposeStage::Write, ComposeAction::WriteFile { file, contents })
            },
            ComposeEvent::Failed(err) => state.settle(
                Response::framed(500, "{\"error\": \"mkdir failed: ", err.as_str(), "\"}"),
            ),
            _ => state.misplaced(),
        },
        ComposeStage::Write => match event {
            ComposeEvent::Done => {
                let run = compose_up_command(state.path.as_str());
                state.go_on(ComposeStage::Up, ComposeAction::Run(run))
            },
            ComposeEvent::Failed(_) => state.settle(
                Response::text(500, "{\"error\": \"Cant read/write docker-compose.yml\"}"),
            ),
            _ => state.misplaced(),
        },
        ComposeStage::Up => match event {
            ComposeEvent::Output(text) => state.settle(
                Response::framed(200, "{\"ok\": true, \"compose\": \"", text.as_str(), "\"}"),
            ),
            _ => state.misplaced(),
        },
        ComposeStage::Finished => state.misplaced(),
    }
}

/// The answer to a request for a project's log: the last hundred lines of
/// what the log command printed, as a JSON array.
pub fn logs(compose_logs_output: &str) -> (r: Response)
    ensures
        r@ == lines_reply(lines_of(compose_logs_output@)),
{
    let all = lines(compose_logs_output);
    lines_response(&all)
}

/// Two updates of one project write to one file, and each writes exactly its
/// own text: what the second writes does not depend on the first.
pub proof fn update_writes_own_text(path: Seq<char>, first: Seq<char>, second: Seq<char>)
    ensures
        ({
            let a = ComposeStateModel { stage: ComposeStage::Mkdir, path, compose: first };
            let b = ComposeStateModel { stage: ComposeStage::Mkdir, path, compose: second };
            &&& compose_step(a, ComposeEventModel::Done).1 == ComposeActionModel::WriteFile {
                file: compose_file(path),
                contents: first,
            }
            &&& compose_step(b, ComposeEventModel::Done).1 == ComposeActionModel::WriteFile {
                file: compose_file(path),
                contents: second,
            }
        }),
{
}

/// What an update asks for, step by step, when its steps have the outcomes
/// `events` in turn.
pub open spec fn compose_actions(s: ComposeStateModel, events: Seq<ComposeEventModel>) -> Seq<
    ComposeActionModel,
>
    decreases events.len(),
{
    if events.len() == 0 {
        Seq::empty()
    } else {
        let step = compose_step(s, events[0]);
        seq![step.1] + compose_actions(step.0, events.drop_first())
    }
}

/// From its third step on an update runs no command: whatever is reported
/// to it then, it only answers.
pub proof fn late_steps_only_respond(s: ComposeStateModel, events: Seq<ComposeEventModel>)
    requires
        s.stage == ComposeStage::Up || s.stage == ComposeStage::Finished,
    ensures
        compose_actions(s, events).len() == events.len(),
        forall|i: int|
            0 <= i < events.len() ==> (#[trigger] compose_actions(s, events)[i]) is Respond,
    decreases events.len(),
{
    if events.len() > 0 {
        let step = compose_step(s, events[0]);
        late_steps_only_respond(step.0, events.drop_first());
    }
}

/// An update runs a command only as its third step, and only after the
/// directory was created and the file was written: where either fails, no
/// command runs at all.
pub proof fn command_runs_only_after_write(s: ComposeStateModel, events: Seq<ComposeEventModel>)
    requires
        s.stage == ComposeStage::Start,
    ensures
        compose_actions(s, events).len() == events.len(),
        forall|i: int|
            0 <= i < events.len() && (#[trigger] compose_actions(s, events)[i]) is Run ==> {
                &&& i == 2
                &&& events[0] == ComposeEventModel::Begin
                &&& events[1] == ComposeEventModel::Done
                &&& events[2] == ComposeEventModel::Done
                &&& compose_actions(s, events)[1] == ComposeActionModel::WriteFile {
                    file: compose_file(s.path),
                    contents: s.compose,
                }
            },
{
    if events.len() > 0 {
        let first = compose_step(s, events[0]);
        let rest1 = events.drop_first();
        if first.0.stage == ComposeStage::Finished {
            late_steps_only_respond(first.0, rest1);
        } else if rest1.len() > 0 {
            let second = compose_step(first.0, rest1[0]);
            let rest2 = rest1.drop_first();
            if second.0.stage == ComposeStage::Finished {
                late_steps_only_respond(second.0, rest2);
            } else if rest2.len() > 0 {
                let third = compose_step(second.0, rest2[0]);
                let rest3 = rest2.drop_first();
                late_steps_only_respond(third.0, rest3);
                assert(compose_actions(second.0, rest2) == seq![third.1] + compose_actions(
                    third.0,
                    rest3,
                ));
            }
            assert(compose_actions(first.0, rest1) == seq![second.1] + compose_actions(
                second.0,
                rest2,
            ));
        }
        assert(compose_actions(s, events) == seq![first.1] + compose_actions(first.0, rest1));
    }
}

} // verus!
