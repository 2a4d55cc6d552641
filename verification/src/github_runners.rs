//! Installing a self-hosted runner: which release to download, which commands
//! to run, and how each outcome is answered.

use vstd::prelude::*;
use vstd::string::StrSliceExecFns;
use vstd::string::StringExecFns;
use crate::protocol::{command, no_args, opt_view, push_arg, reply, views};
use crate::protocol::{Command, CommandModel, Response, ResponseModel};
use crate::text::{decimal, decimal_text};
use crate::text::to_chars;

verus! {

#[verifier::external_type_specification]
#[verifier::external_body]
pub struct ExRegexError(regex::Error);

/// What the `regex` crate finds for a pattern in a text: `None` where the
/// pattern does not compile; otherwise whether its leftmost match exists and
/// has a first capture group, and that group's text.
pub uninterp spec fn regex_capture(pattern: Seq<char>, text: Seq<char>) -> Option<Option<Seq<char>>>;

/// Compiles `pattern` with `regex::Regex::new` and searches `text` with
/// `Regex::captures`, handing back the text of capture group 1. Nothing is
/// claimed of the outcome but that it is the one named by `regex_capture`.
#[verifier::external_body]
fn first_capture(pattern: &str, text: &str) -> (r: Result<Option<String>, regex::Error>)
    ensures
        match r {
            Ok(group) => regex_capture(pattern@, text@) == Some(opt_view(group)),
            Err(_) => regex_capture(pattern@, text@) is None,
        },
{
    let re = regex::Regex::new(pattern)?;
    Ok(re.captures(text).and_then(|c| c.get(1)).map(|m| m.as_str().to_string()))
}

/// The pattern of a release location: it ends in `/tag/`, then a `v`, a
/// digit, and the rest of the version.
pub open spec fn tag_pattern() -> Seq<char> {
    "/tag/(v[0-9].*)$"@
}

/// The version tag in a release location, where it has one.
pub open spec fn tag_of(location: Seq<char>) -> Option<Seq<char>> {
    match regex_capture(tag_pattern(), location) {
        Some(Some(tag)) => Some(tag),
        _ => None,
    }
}

/// The version tag in a release location, where it has one.
pub fn extract_tag(location: &str) -> (r: Option<String>)
    ensures
        opt_view(r) == tag_of(location@),
{
    match first_capture("/tag/(v[0-9].*)$", location) {
        Ok(Some(tag)) => Some(tag),
        Ok(None) => None,
        Err(_) => None,
    }
}

/// The first position at or after `i` where `s` does not hold `c`.
pub open spec fn run_end(s: Seq<char>, c: char, i: int) -> int
    decreases s.len() - i,
{
    if 0 <= i < s.len() && s[i] == c {
        run_end(s, c, i + 1)
    } else {
        i
    }
}

/// `s` without the `c`s that it starts with.
pub open spec fn trim_leading(s: Seq<char>, c: char) -> Seq<char> {
    s.subrange(run_end(s, c, 0), s.len() as int)
}

/// The archive's file name for a version tag.
pub open spec fn file_name_of(tag: Seq<char>) -> Seq<char> {
    "actions-runner-linux-x64-"@ + trim_leading(tag, 'v') + ".tar.gz"@
}

/// The archive's download address for a version tag.
pub open spec fn download_url_of(tag: Seq<char>) -> Seq<char> {
    "https://github.com/actions/runner/releases/download/"@ + tag + "/"@ + file_name_of(tag)
}

/// The archive's file name for a version tag: the tag without its leading
/// `v`s, between the platform's prefix and `.tar.gz`.
pub fn release_file_name(tag: &str) -> (r: String)
    ensures
        r@ == file_name_of(tag@),
{
    let chars = to_chars(tag);
    let mut i: usize = 0;
    while i < chars.len() && chars[i] == 'v'
        invariant
            i <= chars.len(),
            chars@ == tag@,
            run_end(tag@, 'v', 0) == run_end(tag@, 'v', i as int),
        decreases chars.len() - i,
    {
        i += 1;
    }
    let version = tag.substring_char(i, chars.len());
    let mut name = String::from_str("actions-runner-linux-x64-");
    name.append(version);
    name.append(".tar.gz");
    name
}

/// The archive's download address for a version tag.
pub fn download_url(tag: &str) -> (r: String)
    ensures
        r@ == download_url_of(tag@),
{
    let name = release_file_name(tag);
    let mut url = String::from_str("https://github.com/actions/runner/releases/download/");
    url.append(tag);
    url.append("/");
    url.append(name.as_str());
    url
}

/// How far an installation has come: the step whose outcome is awaited.
#[derive(Clone, Copy, PartialEq, Eq, Structural, Debug)]
pub enum SetupStage {
    Start,
    PathCheck,
    Mkdir,
    Client,
    Latest,
    Download,
    Body,
    Write,
    Extract,
    Configure,
    Install,
    Launch,
    Finished,
}

/// An installation in progress: the request's registration token, target
/// path and repository address, the archive's file name once it is known, and
/// what has been found of the service so far.
pub struct SetupState {
    pub stage: SetupStage,
    pub token: String,
    pub path: String,
    pub git_url: String,
    pub file_name: String,
    pub service: String,
}

/// What a `SetupState` stands for.
pub ghost struct SetupStateModel {
    pub stage: SetupStage,
    pub token: Seq<char>,
    pub path: Seq<char>,
    pub git_url: Seq<char>,
    pub file_name: Seq<char>,
    pub service: Seq<char>,
}

impl View for SetupState {
    type V = SetupStateModel;

    open spec fn view(&self) -> SetupStateModel {
        SetupStateModel {
            stage: self.stage,
            token: self.token@,
            path: self.path@,
            git_url: self.git_url@,
            file_name: self.file_name@,
            service: self.service@,
        }
    }
}

/// The outcome of the step that was asked for last.
pub enum SetupEvent {
    /// The request has arrived.
    Begin,
    /// Whether the target path exists.
    Exists(bool),
    /// The step succeeded.
    Done,
    /// The step could not be carried out; the text is the error's.
    Failed(String),
    /// The answer to the request for the latest release: its status code and
    /// its `Location` header, where it has a readable one.
    Redirect { status: u16, location: Option<String> },
    /// The answer to the download request: its status code and the status as
    /// text.
    Fetched { status: u16, reason: String },
    /// A command ran to its end: whether it succeeded, and its exit status as
    /// text.
    Exited { success: bool, exit: String },
}

/// What a `SetupEvent` stands for.
pub ghost enum SetupEventModel {
    Begin,
    Exists(bool),
    Done,
    Failed(Seq<char>),
    Redirect { status: u16, location: Option<Seq<char>> },
    Fetched { status: u16, reason: Seq<char> },
    Exited { success: bool, exit: Seq<char> },
}

impl View for SetupEvent {
    type V = SetupEventModel;

    open spec fn view(&self) -> SetupEventModel {
        match *self {
            SetupEvent::Begin => SetupEventModel::Begin,
            SetupEvent::Exists(b) => SetupEventModel::Exists(b),
            SetupEvent::Done => SetupEventModel::Done,
            SetupEvent::Failed(e) => SetupEventModel::Failed(e@),
            SetupEvent::Redirect { status, location } => SetupEventModel::Redirect {
                status,
                location: opt_view(location),
            },
            SetupEvent::Fetched { status, reason } => SetupEventModel::Fetched {
                status,
                reason: reason@,
            },
            SetupEvent::Exited { success, exit } => SetupEventModel::Exited {
                success,
                exit: exit@,
            },
        }
    }
}

/// The next thing to do for an installation.
pub enum SetupAction {
    /// Find out whether this path exists.
    CheckPath(String),
    /// Create this directory and its missing parents.
    CreateDir(String),
    /// Build an HTTP client that follows no redirect.
    BuildClient,
    /// Request this address with that client.
    FetchLatest(String),
    /// Request this address, following redirects.
    Download(String),
    /// Read the body of the download.
    ReadBody,
    /// Write the body to this file in this directory.
    WriteArchive { dir: String, file_name: String },
    /// Run this command and wait for it.
    Run(Command),
    /// Answer the request.
    Respond(Response),
}

/// What a `SetupAction` stands for.
pub ghost enum SetupActionModel {
    CheckPath(Seq<char>),
    CreateDir(Seq<char>),
    BuildClient,
    FetchLatest(Seq<char>),
    Download(Seq<char>),
    ReadBody,
    WriteArchive { dir: Seq<char>, file_name: Seq<char> },
    Run(CommandModel),
    Respond(ResponseModel),
}

impl View for SetupAction {
    type V = SetupActionModel;

    open spec fn view(&self) -> SetupActionModel {
        match *self {
            SetupAction::CheckPath(p) => SetupActionModel::CheckPath(p@),
            SetupAction::CreateDir(p) => SetupActionModel::CreateDir(p@),
            SetupAction::BuildClient => SetupActionModel::BuildClient,
            SetupAction::FetchLatest(u) => SetupActionModel::FetchLatest(u@),
            SetupAction::Download(u) => SetupActionModel::Download(u@),
            SetupAction::ReadBody => SetupActionModel::ReadBody,
            SetupAction::WriteArchive { dir, file_name } => SetupActionModel::WriteArchive {
                dir: dir@,
                file_name: file_name@,
            },
            SetupAction::Run(c) => SetupActionModel::Run(c@),
            SetupAction::Respond(r) => SetupActionModel::Respond(r@),
        }
    }
}

/// The address that redirects to the latest release.
pub open spec fn latest_release_url() -> Seq<char> {
    "https://github.com/actions/runner/releases/latest"@
}

/// `s` at another stage.
pub open spec fn at(s: SetupStateModel, stage: SetupStage) -> SetupStateModel {
    SetupStateModel { stage, ..s }
}

/// The installation ends with this response.
pub open spec fn finish(s: SetupStateModel, status: u16, body: Seq<char>) -> (
    SetupStateModel,
    SetupActionModel,
) {
    (at(s, SetupStage::Finished), SetupActionModel::Respond(reply(status, body)))
}

/// The installation ends with an error response that names `what` and `detail`.
pub open spec fn fail(s: SetupStateModel, status: u16, what: Seq<char>, detail: Seq<char>) -> (
    SetupStateModel,
    SetupActionModel,
) {
    finish(s, status, "{\"error\": \""@ + what + detail + "\"}"@)
}

/// An outcome that does not belong to the awaited step ends the
/// installation.
pub open spec fn unexpected(s: SetupStateModel) -> (SetupStateModel, SetupActionModel) {
    finish(s, 500, "{\"error\": \"unexpected event\"}"@)
}

/// The command that unpacks the archive.
pub open spec fn extract_command(s: SetupStateModel) -> CommandModel {
    command("tar"@, seq!["xzf"@, s.file_name], Some(s.path))
}

/// The command that registers the runner, unattended.
pub open spec fn configure_command(s: SetupStateModel) -> CommandModel {
    command(
        "./config.sh"@,
        seq!["--url"@, s.git_url, "--token"@, s.token, "--unattended"@],
        Some(s.path),
    )
}

/// The command that runs the service script's subcommand `verb` with
/// privileges and without asking.
pub open spec fn service_command(path: Seq<char>, verb: Seq<char>) -> CommandModel {
    command("sudo"@, seq!["-n"@, "./svc.sh"@, verb], Some(path))
}

/// What the outcome of a service step adds to the report: `done` on success,
/// else `label` with `-exit:` and the exit status, or with `-err:` and the
/// error.
pub open spec fn service_note(e: SetupEventModel, done: Seq<char>, label: Seq<char>) -> Option<
    Seq<char>,
> {
    match e {
        SetupEventModel::Exited { success, exit } => if success {
            Some(done)
        } else {
            Some(label + "-exit:"@ + exit)
        },
        SetupEventModel::Failed(err) => Some(label + "-err:"@ + err),
        _ => None,
    }
}

/// What follows the answer to the request for the latest release.
pub open spec fn after_redirect(s: SetupStateModel, status: u16, location: Option<Seq<char>>) -> (
    SetupStateModel,
    SetupActionModel,
) {
    if status != 301 && status != 302 {
        fail(s, 502, "unexpected redirect status: "@, decimal_text(status as nat))
    } else if location is None || location->0.len() == 0 {
        finish(s, 502, "{\"error\": \"no location header\"}"@)
    } else {
        match tag_of(location->0) {
            None => finish(s, 502, "{\"error\": \"could not extract version tag\"}"@),
            Some(tag) => (
                SetupStateModel { stage: SetupStage::Download, file_name: file_name_of(tag), ..s },
                SetupActionModel::Download(download_url_of(tag)),
            ),
        }
    }
}

/// What follows a command that must succeed: `next` on success, else an
/// error that names the command.
pub open spec fn after_command(
    s: SetupStateModel,
    e: SetupEventModel,
    name: Seq<char>,
    next: (SetupStateModel, SetupActionModel),
) -> (SetupStateModel, SetupActionModel) {
    match e {
        SetupEventModel::Exited { success, exit } => if success {
            next
        } else {
            fail(s, 500, name + " exited with "@, exit)
        },
        SetupEventModel::Failed(err) => fail(s, 500, name + " failed: "@, err),
        _ => unexpected(s),
    }
}

/// The installation's rule: for the awaited step and its outcome, the next
/// state and what to do next. The steps up to the runner's configuration end
/// the installation at their first failure; the two service steps are
/// reported, whatever their outcome, in a response with status 200.
pub open spec fn setup_step(s: SetupStateModel, e: SetupEventModel) -> (
    SetupStateModel,
    SetupActionModel,
) {
    match s.stage {
        SetupStage::Start => match e {
            SetupEventModel::Begin => (at(s, SetupStage::PathCheck), SetupActionModel::CheckPath(s.path)),
            _ => unexpected(s),
        },
        SetupStage::PathCheck => match e {
            SetupEventModel::Exists(found) => if found {
                finish(s, 400, "{\"error\": \"path already exists\"}"@)
            } else {
                (at(s, SetupStage::Mkdir), SetupActionModel::CreateDir(s.path))
            },
            _ => unexpected(s),
        },
        SetupStage::Mkdir => match e {
            SetupEventModel::Done => (at(s, SetupStage::Client), SetupActionModel::BuildClient),
            SetupEventModel::Failed(err) => fail(s, 500, "mkdir failed: "@, err),
            _ => unexpected(s),
        },
        SetupStage::Client => match e {
            SetupEventModel::Done => (
                at(s, SetupStage::Latest),
                SetupActionModel::FetchLatest(latest_release_url()),
            ),
            SetupEventModel::Failed(err) => fail(s, 500, "client init failed: "@, err),
            _ => unexpected(s),
        },
        SetupStage::Latest => match e {
            SetupEventModel::Redirect { status, location } => after_redirect(s, status, location),
            SetupEventModel::Failed(err) => fail(s, 502, "request failed: "@, err),
            _ => unexpected(s),
        },
        SetupStage::Download => match e {
            SetupEventModel::Fetched { status, reason } => if 200 <= status < 300 {
                (at(s, SetupStage::Body), SetupActionModel::ReadBody)
            } else {
                fail(s, 502, "download returned "@, reason)
            },
            SetupEventModel::Failed(err) => fail(s, 502, "download failed: "@, err),
            _ => unexpected(s),
        },
        SetupStage::Body => match e {
            SetupEventModel::Done => (
                at(s, SetupStage::Write),
                SetupActionModel::WriteArchive { dir: s.path, file_name: s.file_name },
            ),
            SetupEventModel::Failed(err) => fail(s, 502, "reading download failed: "@, err),
            _ => unexpected(s),
        },
        SetupStage::Write => match e {
            SetupEventModel::Done => (
                at(s, SetupStage::Extract),
                SetupActionModel::Run(extract_command(s)),
            ),
            SetupEventModel::Failed(err) => fail(s, 500, "write file failed: "@, err),
            _ => unexpected(s),
        },
        SetupStage::Extract => after_command(
            s,
            e,
            "tar"@,
            (at(s, SetupStage::Configure), SetupActionModel::Run(configure_command(s))),
        ),
        SetupStage::Configure => after_command(
            s,
            e,
            "config"@,
            (
                at(s, SetupStage::Install),
                SetupActionModel::Run(service_command(s.path, "install"@)),
            ),
        ),
        SetupStage::Install => match service_note(e, "installed"@, "install"@) {
            Some(note) => (
                SetupStateModel { stage: SetupStage::Launch, service: note + " "@, ..s },
                SetupActionModel::Run(service_command(s.path, "start"@)),
            ),
            None => unexpected(s),
        },
        SetupStage::Launch => match service_note(e, "started"@, "start"@) {
            Some(note) => finish(
                SetupStateModel { service: s.service + note, ..s },
                200,
                "{\"ok\": true, \"service\": \""@ + (s.service + note) + "\"}"@,
            ),
            None => unexpected(s),
        },
        SetupStage::Finished => unexpected(s),
    }
}

impl SetupState {
    /// The state of an installation that has not begun.
    pub fn new(token: String, path: String, git_url: String) -> (r: SetupState)
        ensures
            r@ == (SetupStateModel {
                stage: SetupStage::Start,
                token: token@,
                path: path@,
                git_url: git_url@,
                file_name: Seq::empty(),
                service: Seq::empty(),
            }),
    {
        SetupState {
            stage: SetupStage::Start,
            token,
            path,
            git_url,
            file_name: String::new(),
            service: String::new(),
        }
    }

    fn advance(self, stage: SetupStage) -> (r: SetupState)
        ensures
            r@ == at(self@, stage),
    {
        SetupState {
            stage,
            token: self.token,
            path: self.path,
            git_url: self.git_url,
            file_name: self.file_name,
            service: self.service,
        }
    }

    fn finish(self, status: u16, body: String) -> (r: (SetupState, SetupAction))
        ensures
            (r.0@, r.1@) == finish(self@, status, body@),
    {
        (self.advance(SetupStage::Finished), SetupAction::Respond(Response::new(status, body)))
    }

    fn fail(self, status: u16, what: &str, detail: &str) -> (r: (SetupState, SetupAction))
        ensures
            (r.0@, r.1@) == fail(self@, status, what@, detail@),
    {
        let mut body = String::from_str("{\"error\": \"");
        body.append(what);
        body.append(detail);
        body.append("\"}");
        self.finish(status, body)
    }

    fn unexpected(self) -> (r: (SetupState, SetupAction))
        ensures
            (r.0@, r.1@) == unexpected(self@),
    {
        self.finish(500, String::from_str("{\"error\": \"unexpected event\"}"))
    }

    fn extract_command(&self) -> (r: Command)
        ensures
            r@ == extract_command(self@),
    {
        let mut args = no_args();
        push_arg(&mut args, "xzf");
        push_arg(&mut args, self.file_name.as_str());
        assert(views(args@) =~= seq!["xzf"@, self.file_name@]);
        Command::in_dir("tar", args, self.path.as_str())
    }

    fn configure_command(&self) -> (r: Command)
        ensures
            r@ == configure_command(self@),
    {
        let mut args = no_args();
        push_arg(&mut args, "--url");
        push_arg(&mut args, self.git_url.as_str());
        push_arg(&mut args, "--token");
        push_arg(&mut args, self.token.as_str());
        push_arg(&mut args, "--unattended");
        assert(views(args@) =~= seq![
            "--url"@,
            self.git_url@,
            "--token"@,
            self.token@,
            "--unattended"@,
        ]);
        Command::in_dir("./config.sh", args, self.path.as_str())
    }
}

/// The command that runs the service script's subcommand `verb` in `path`,
/// with privileges and without asking.
pub fn service_command_in(path: &str, verb: &str) -> (r: Command)
    ensures
        r@ == service_command(path@, verb@),
{
    let mut args = no_args();
    push_arg(&mut args, "-n");
    push_arg(&mut args, "./svc.sh");
    push_arg(&mut args, verb);
    assert(views(args@) =~= seq!["-n"@, "./svc.sh"@, verb@]);
    Command::in_dir("sudo", args, path)
}

fn note_of(event: &SetupEvent, done: &str, label: &str) -> (r: Option<String>)
    ensures
        opt_view(r) == service_note(event@, done@, label@),
{
    match event {
        SetupEvent::Exited { success, exit } => {
            if *success {
                Some(String::from_str(done))
            } else {
                let mut note = String::from_str(label);
                note.append("-exit:");
                note.append(exit.as_str());
                Some(note)
            }
        },
        SetupEvent::Failed(err) => {
            let mut note = String::from_str(label);
            note.append("-err:");
            note.append(err.as_str());
            Some(note)
        },
        _ => None,
    }
}

fn redirected(state: SetupState, status: u16, location: Option<String>) -> (r: (
    SetupState,
    SetupAction,
))
    ensures
        (r.0@, r.1@) == after_redirect(state@, status, opt_view(location)),
{
    if status != 301 && status != 302 {
        let code = decimal(status as u64);
        return state.fail(502, "unexpected redirect status: ", code.as_str());
    }
    let target = match location {
        Some(l) => l,
        None => {
            return state.finish(502, String::from_str("{\"error\": \"no location header\"}"));
        },
    };
    if target.as_str().unicode_len() == 0 {
        return state.finish(502, String::from_str("{\"error\": \"no location header\"}"));
    }
    match extract_tag(target.as_str()) {
        None => state.finish(
            502,
            String::from_str("{\"error\": \"could not extract version tag\"}"),
        ),
        Some(tag) => {
            let next = SetupState {
                stage: SetupStage::Download,
                token: state.token,
                path: state.path,
                git_url: state.git_url,
                file_name: release_file_name(tag.as_str()),
                service: state.service,
            };
            (next, SetupAction::Download(download_url(tag.as_str())))
        },
    }
}

fn commanded(
    state: SetupState,
    event: SetupEvent,
    name: &str,
    next: SetupStage,
    then: Command,
) -> (r: (
    SetupState,
    SetupAction,
))
    ensures
        (r.0@, r.1@) == after_command(
            state@,
            event@,
            name@,
            (at(state@, next), SetupActionModel::Run(then@)),
        ),
{
    match event {
        SetupEvent::Exited { success, exit } => {
            if success {
                (state.advance(next), SetupAction::Run(then))
            } else {
                let mut what = String::from_str(name);
                what.append(" exited with ");
                state.fail(500, what.as_str(), exit.as_str())
            }
        },
        SetupEvent::Failed(err) => {
            let mut what = String::from_str(name);
            what.append(" failed: ");
            state.fail(500, what.as_str(), err.as_str())
        },
        _ => state.unexpected(),
    }
}

/// One step of an installation: takes the outcome of the step that was asked
/// for last, and says what to do next.
pub fn setup_new(state: SetupState, event: SetupEvent) -> (r: (SetupState, SetupAction))
    ensures
        (r.0@, r.1@) == setup_step(state@, event@),
{
    match state.stage {
        SetupStage::Start => match event {
            SetupEvent::Begin => {
                let path = state.path.clone();
                (state.advance(SetupStage::PathCheck), SetupAction::CheckPath(path))
            },
            _ => state.unexpected(),
        },
        SetupStage::PathCheck => match event {
            SetupEvent::Exists(found) => {
                if found {
                    state.finish(400, String::from_str("{\"error\": \"path already exists\"}"))
                } else {
                    let path = state.path.clone();
                    (state.advance(SetupStage::Mkdir), SetupAction::CreateDir(path))
                }
            },
            _ => state.unexpected(),
        },
        SetupStage::Mkdir => match event {
            SetupEvent::Done => (state.advance(SetupStage::Client), SetupAction::BuildClient),
            SetupEvent::Failed(err) => state.fail(500, "mkdir failed: ", err.as_str()),
            _ => state.unexpected(),
        },
        SetupStage::Client => match event {
            SetupEvent::Done => (
                state.advance(SetupStage::Latest),
                SetupAction::FetchLatest(
                    String::from_str("https://github.com/actions/runner/releases/latest"),
                ),
            ),
            SetupEvent::Failed(err) => state.fail(500, "client init failed: ", err.as_str()),
            _ => state.unexpected(),
        },
        SetupStage::Latest => match event {
            SetupEvent::Redirect { status, location } => redirected(state, status, location),
            SetupEvent::Failed(err) => state.fail(502, "request failed: ", err.as_str()),
            _ => state.unexpected(),
        },
        SetupStage::Download => match event {
            SetupEvent::Fetched { status, reason } => {
                if 200 <= status && status < 300 {
                    (state.advance(SetupStage::Body), SetupAction::ReadBody)
                } else {
                    state.fail(502, "download returned ", reason.as_str())
                }
            },
            SetupEvent::Failed(err) => state.fail(502, "download failed: ", err.as_str()),
            _ => state.unexpected(),
        },
        SetupStage::Body => match event {
            SetupEvent::Done => {
                let dir = state.path.clone();
                let file_name = state.file_name.clone();
                (state.advance(SetupStage::Write), SetupAction::WriteArchive { dir, file_name })
            },
            SetupEvent::Failed(err) => state.fail(502, "reading download failed: ", err.as_str()),
            _ => state.unexpected(),
        },
        SetupStage::Write => match event {
            SetupEvent::Done => {
                let run = state.extract_command();
                (state.advance(SetupStage::Extract), SetupAction::Run(run))
            },
            SetupEvent::Failed(err) => state.fail(500, "write file failed: ", err.as_str()),
            _ => state.unexpected(),
        },
        SetupStage::Extract => {
            let then = state.configure_command();
            commanded(state, event, "tar", SetupStage::Configure, then)
        },
        SetupStage::Configure => {
            let then = service_command_in(state.path.as_str(), "install");
            commanded(state, event, "config", SetupStage::Install, then)
        },
        SetupStage::Install => match note_of(&event, "installed", "install") {
            Some(note) => {
                let mut service = note;
                service.append(" ");
                let run = service_command_in(state.path.as_str(), "start");
                let next = SetupState {
                    stage: SetupStage::Launch,
                    token: state.token,
                    path: state.path,
                    git_url: state.git_url,
                    file_name: state.file_name,
                    service,
                };
                (next, SetupAction::Run(run))
            },
            None => state.unexpected(),
        },
        SetupStage::Launch => match note_of(&event, "started", "start") {
            Some(note) => {
                let mut service = state.service;
                service.append(note.as_str());
                let mut body = String::from_str("{\"ok\": true, \"service\": \"");
                body.append(service.as_str());
                body.append("\"}");
                let last = SetupState {
                    stage: state.stage,
                    token: state.token,
                    path: state.path,
                    git_url: state.git_url,
                    file_name: state.file_name,
                    service,
                };
                last.finish(200, body)
            },
            None => state.unexpected(),
        },
        SetupStage::Finished => state.unexpected(),
    }
}

/// The command that asks the service script in `svc_path` for its status.
pub fn status_command(svc_path: &str) -> (r: Command)
    ensures
        r@ == service_command(svc_path@, "status"@),
{
    service_command_in(svc_path, "status")
}

/// The answer to a status request: what the service script printed, as it
/// is, with status 200.
pub fn get_status(service_status: String) -> (r: Response)
    ensures
        r@ == reply(200, service_status@),
{
    Response::new(200, service_status)
}

/// What an installation asks for, step by step, when its steps have the
/// outcomes `events` in turn.
pub open spec fn setup_actions(s: SetupStateModel, events: Seq<SetupEventModel>) -> Seq<
    SetupActionModel,
>
    decreases events.len(),
{
    if events.len() == 0 {
        Seq::empty()
    } else {
        let step = setup_step(s, events[0]);
        seq![step.1] + setup_actions(step.0, events.drop_first())
    }
}

/// Whether an action creates or changes anything on disk.
pub open spec fn writes_to_disk(a: SetupActionModel) -> bool {
    a is CreateDir || a is WriteArchive || a is Run
}

/// After its response an installation asks for nothing more: whatever is
/// reported to it then, it only answers.
pub proof fn finished_only_responds(s: SetupStateModel, events: Seq<SetupEventModel>)
    requires
        s.stage == SetupStage::Finished,
    ensures
        setup_actions(s, events).len() == events.len(),
        forall|i: int| 0 <= i < events.len() ==> (#[trigger] setup_actions(s, events)[i]) is Respond,
    decreases events.len(),
{
    if events.len() > 0 {
        let step = setup_step(s, events[0]);
        finished_only_responds(step.0, events.drop_first());
    }
}

/// An installation whose target path exists is refused with status 400, and
/// neither before nor after that does it ask for anything that writes to
/// disk.
pub proof fn existing_path_is_refused(s: SetupStateModel, later: Seq<SetupEventModel>)
    requires
        s.stage == SetupStage::Start,
    ensures
        ({
            let events = seq![SetupEventModel::Begin, SetupEventModel::Exists(true)] + later;
            let actions = setup_actions(s, events);
            &&& actions.len() == events.len()
            &&& actions[0] == SetupActionModel::CheckPath(s.path)
            &&& actions[1] == SetupActionModel::Respond(
                reply(400, "{\"error\": \"path already exists\"}"@),
            )
            &&& forall|i: int| 0 <= i < actions.len() ==> !writes_to_disk(#[trigger] actions[i])
        }),
{
    let events = seq![SetupEventModel::Begin, SetupEventModel::Exists(true)] + later;
    let first = setup_step(s, events[0]);
    let rest = events.drop_first();
    let second = setup_step(first.0, rest[0]);
    assert(rest.drop_first() =~= later);
    finished_only_responds(second.0, later);
    assert(setup_actions(first.0, rest) == seq![second.1] + setup_actions(second.0, later));
    assert(setup_actions(s, events) == seq![first.1] + setup_actions(first.0, rest));
}

/// Whether a failure at this stage ends the installation: so it is from the
/// creation of the directory to the runner's configuration.
pub open spec fn must_succeed(stage: SetupStage) -> bool {
    stage == SetupStage::Mkdir || stage == SetupStage::Client || stage == SetupStage::Latest
        || stage == SetupStage::Download || stage == SetupStage::Body || stage == SetupStage::Write
        || stage == SetupStage::Extract || stage == SetupStage::Configure
}

/// Up to the runner's configuration the first failure ends the installation:
/// it is answered with status 500 or 502, with the error's text in the body,
/// and nothing more is asked for.
pub proof fn first_failure_ends_installation(
    s: SetupStateModel,
    error: Seq<char>,
    later: Seq<SetupEventModel>,
)
    requires
        must_succeed(s.stage),
    ensures
        ({
            let end = setup_step(s, SetupEventModel::Failed(error));
            &&& end.0.stage == SetupStage::Finished
            &&& end.1 is Respond
            &&& end.1->Respond_0.status == 500 || end.1->Respond_0.status == 502
            &&& exists|what: Seq<char>|
                end.1->Respond_0.body == "{\"error\": \""@ + what + error + "\"}"@
            &&& forall|i: int|
                0 <= i < later.len() ==> (#[trigger] setup_actions(end.0, later)[i]) is Respond
        }),
{
    let end = setup_step(s, SetupEventModel::Failed(error));
    finished_only_responds(end.0, later);
    let what = if s.stage == SetupStage::Mkdir {
        "mkdir failed: "@
    } else if s.stage == SetupStage::Client {
        "client init failed: "@
    } else if s.stage == SetupStage::Latest {
        "request failed: "@
    } else if s.stage == SetupStage::Download {
        "download failed: "@
    } else if s.stage == SetupStage::Body {
        "reading download failed: "@
    } else if s.stage == SetupStage::Write {
        "write file failed: "@
    } else if s.stage == SetupStage::Extract {
        "tar"@ + " failed: "@
    } else {
        "config"@ + " failed: "@
    };
    assert(end.1->Respond_0.body == "{\"error\": \""@ + what + error + "\"}"@);
}

/// The two service steps never end an installation with an error: whatever
/// their outcomes, the request is answered with status 200.
pub proof fn service_steps_are_reported(
    s: SetupStateModel,
    install: SetupEventModel,
    start: SetupEventModel,
)
    requires
        s.stage == SetupStage::Install,
        install is Exited || install is Failed,
        start is Exited || start is Failed,
    ensures
        setup_step(s, install).1 == SetupActionModel::Run(service_command(s.path, "start"@)),
        setup_step(setup_step(s, install).0, start).1 is Respond,
        setup_step(setup_step(s, install).0, start).1->Respond_0.status == 200,
{
}

} // verus!
