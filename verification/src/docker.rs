//! The container handlers: how a container is created, with one retry after
//! pulling a missing image, and how the engine's outcomes are answered.

use vstd::prelude::*;
use vstd::string::StrSliceExecFns;
use vstd::string::StringExecFns;
use crate::protocol::{reply, views, Response, ResponseModel};
use crate::lines::{lines_reply, lines_response};
use crate::text::{contains, contains_text, to_chars};

verus! {

/// The greatest position below `n` where `s` holds `c`, or -1.
pub open spec fn last_index(s: Seq<char>, c: char, n: int) -> int
    decreases n,
{
    if n <= 0 {
        -1
    } else if s[n - 1] == c {
        n - 1
    } else {
        last_index(s, c, n - 1)
    }
}

/// What `last_index` finds: a position that holds `c` with no `c` after it
/// below `n`, or -1 where there is no `c` below `n`.
pub proof fn last_index_is_last(s: Seq<char>, c: char, n: int)
    requires
        0 <= n <= s.len(),
    ensures
        -1 <= last_index(s, c, n) < n,
        last_index(s, c, n) >= 0 ==> s[last_index(s, c, n)] == c,
        forall|j: int| last_index(s, c, n) < j < n ==> s[j] != c,
    decreases n,
{
    if n > 0 && s[n - 1] != c {
        last_index_is_last(s, c, n - 1);
    }
}

/// The repository and the tag of an image reference: what stands before and
/// after its last colon; without a colon, the whole reference and `latest`.
pub open spec fn image_reference(image: Seq<char>) -> (Seq<char>, Seq<char>) {
    let i = last_index(image, ':', image.len() as int);
    if i < 0 {
        (image, "latest"@)
    } else {
        (image.subrange(0, i), image.subrange(i + 1, image.len() as int))
    }
}

/// The repository and the tag of an image reference.
pub fn split_image(image: &str) -> (r: (String, String))
    ensures
        (r.0@, r.1@) == image_reference(image@),
{
    let chars = to_chars(image);
    let mut n: usize = chars.len();
    while n > 0 && chars[n - 1] != ':'
        invariant
            n <= chars.len(),
            chars@ == image@,
            last_index(image@, ':', image@.len() as int) == last_index(image@, ':', n as int),
        decreases n,
    {
        n -= 1;
    }
    if n == 0 {
        (String::from_str(image), String::from_str("latest"))
    } else {
        let repo = image.substring_char(0, n - 1);
        let tag = image.substring_char(n, chars.len());
        (String::from_str(repo), String::from_str(tag))
    }
}

/// Whether the engine's error says that the image is missing.
pub open spec fn signals_missing_image(error: Seq<char>) -> bool {
    contains_text(error, "No such image"@) || contains_text(error, "404"@)
}

/// Whether the engine's error says that the image is missing.
pub fn missing_image(error: &str) -> (r: bool)
    ensures
        r == signals_missing_image(error@),
{
    contains(error, "No such image") || contains(error, "404")
}

/// How far the creation of a container has come: the step whose outcome is
/// awaited.
#[derive(Clone, Copy, PartialEq, Eq, Structural, Debug)]
pub enum CreateStage {
    Start,
    Connect,
    Create,
    Pull,
    Retry,
    Finished,
}

/// A creation in progress, with the image that the container's configuration
/// names (empty where it names none).
pub struct CreateState {
    pub stage: CreateStage,
    pub image: String,
}

/// What a `CreateState` stands for.
pub ghost struct CreateStateModel {
    pub stage: CreateStage,
    pub image: Seq<char>,
}

impl View for CreateState {
    type V = CreateStateModel;

    open spec fn view(&self) -> CreateStateModel {
        CreateStateModel { stage: self.stage, image: self.image@ }
    }
}

/// The outcome of the step that was asked for last.
pub enum CreateEvent {
    /// The request has arrived.
    Begin,
    /// The step succeeded.
    Done,
    /// The engine created the container; the text is its answer as JSON.
    Created(String),
    /// The step failed; the text is the error's.
    Failed(String),
}

/// What a `CreateEvent` stands for.
pub ghost enum CreateEventModel {
    Begin,
    Done,
    Created(Seq<char>),
    Failed(Seq<char>),
}

impl View for CreateEvent {
    type V = CreateEventModel;

    open spec fn view(&self) -> CreateEventModel {
        match *self {
            CreateEvent::Begin => CreateEventModel::Begin,
            CreateEvent::Done => CreateEventModel::Done,
            CreateEvent::Created(json) => CreateEventModel::Created(json@),
            CreateEvent::Failed(e) => CreateEventModel::Failed(e@),
        }
    }
}

/// The next thing to do for a creation.
pub enum CreateAction {
    /// Connect to the engine.
    Connect,
    /// Ask the engine to create the container.
    Create,
    /// Pull this tag of this repository, to the end of the engine's progress
    /// reports.
    Pull { repo: String, tag: String },
    /// Answer the request.
    Respond(Response),
}

/// What a `CreateAction` stands for.
pub ghost enum CreateActionModel {
    Connect,
    Create,
    Pull { repo: Seq<char>, tag: Seq<char> },
    Respond(ResponseModel),
}

impl View for CreateAction {
    type V = CreateActionModel;

    open spec fn view(&self) -> CreateActionModel {
        match *self {
            CreateAction::Connect => CreateActionModel::Connect,
            CreateAction::Create => CreateActionModel::Create,
            CreateAction::Pull { repo, tag } => CreateActionModel::Pull { repo: repo@, tag: tag@ },
            CreateAction::Respond(r) => CreateActionModel::Respond(r@),
        }
    }
}

/// The body that reports that the engine could not be reached.
pub open spec fn init_failed() -> Seq<char> {
    "{\"error\": \"Docker init failed\"}"@
}

/// The creation ends with this response.
pub open spec fn answer(s: CreateStateModel, status: u16, body: Seq<char>) -> (
    CreateStateModel,
    CreateActionModel,
) {
    (
        CreateStateModel { stage: CreateStage::Finished, ..s },
        CreateActionModel::Respond(reply(status, body)),
    )
}

/// The creation goes on with `action`, at `stage`.
pub open spec fn proceed(s: CreateStateModel, stage: CreateStage, action: CreateActionModel) -> (
    CreateStateModel,
    CreateActionModel,
) {
    (CreateStateModel { stage, ..s }, action)
}

/// The body that reports why the container was not created.
pub open spec fn create_failed(error: Seq<char>) -> Seq<char> {
    "{\"error\": \"Docker create container failed\",\"message\":\""@ + error + "\"}"@
}

/// The body that reports why the image was not pulled.
pub open spec fn pull_failed(error: Seq<char>) -> Seq<char> {
    "{\"error\":\"Image pull failed\",\"message\":\""@ + error + "\"}"@
}

/// An outcome that does not belong to the awaited step ends the creation.
pub open spec fn out_of_turn(s: CreateStateModel) -> (CreateStateModel, CreateActionModel) {
    answer(s, 500, "{\"error\": \"unexpected event\"}"@)
}

/// The creation's rule: for the awaited step and its outcome, the next state
/// and what to do next. Only a first failure that signals a missing image is
/// followed by a pull and a second attempt; every other failure, and a
/// failure of the second attempt, is answered with status 500.
pub open spec fn create_step(s: CreateStateModel, e: CreateEventModel) -> (
    CreateStateModel,
    CreateActionModel,
) {
    match s.stage {
        CreateStage::Start => match e {
            CreateEventModel::Begin => proceed(s, CreateStage::Connect, CreateActionModel::Connect),
            _ => out_of_turn(s),
        },
        CreateStage::Connect => match e {
            CreateEventModel::Done => proceed(s, CreateStage::Create, CreateActionModel::Create),
            CreateEventModel::Failed(_) => answer(s, 500, init_failed()),
            _ => out_of_turn(s),
        },
        CreateStage::Create => match e {
            CreateEventModel::Created(json) => answer(s, 200, json),
            CreateEventModel::Failed(error) => if !signals_missing_image(error) {
                answer(s, 500, create_failed(error))
            } else if s.image.len() == 0 {
                answer(s, 400, "{\"error\":\"No image specified\"}"@)
            } else {
                proceed(
                    s,
                    CreateStage::Pull,
                    CreateActionModel::Pull {
                        repo: image_reference(s.image).0,
                        tag: image_reference(s.image).1,
                    },
                )
            },
            _ => out_of_turn(s),
        },
        CreateStage::Pull => match e {
            CreateEventModel::Done => proceed(s, CreateStage::Retry, CreateActionModel::Create),
            CreateEventModel::Failed(error) => answer(s, 500, pull_failed(error)),
            _ => out_of_turn(s),
        },
        CreateStage::Retry => match e {
            CreateEventModel::Created(json) => answer(s, 200, json),
            CreateEventModel::Failed(error) => answer(s, 500, create_failed(error)),
            _ => out_of_turn(s),
        },
        CreateStage::Finished => out_of_turn(s),
    }
}

impl CreateState {
    /// The state of a creation that has not begun, for a configuration that
    /// names `image`.
    pub fn new(image: String) -> (r: CreateState)
        ensures
            r@ == (CreateStateModel { stage: CreateStage::Start, image: image@ }),
    {
        CreateState { stage: CreateStage::Start, image }
    }

    fn answer(self, status: u16, body: String) -> (r: (CreateState, CreateAction))
        ensures
            (r.0@, r.1@) == answer(self@, status, body@),
    {
        (
            CreateState { stage: CreateStage::Finished, image: self.image },
            CreateAction::Respond(Response::new(status, body)),
        )
    }

    fn proceed(self, stage: CreateStage, action: CreateAction) -> (r: (CreateState, CreateAction))
        ensures
            (r.0@, r.1@) == proceed(self@, stage, action@),
    {
        (CreateState { stage, image: self.image }, action)
    }

    fn out_of_turn(self) -> (r: (CreateState, CreateAction))
        ensures
            (r.0@, r.1@) == out_of_turn(self@),
    {
        self.answer(500, String::from_str("{\"error\": \"unexpected event\"}"))
    }

    fn create_failed(self, error: &str) -> (r: (CreateState, CreateAction))
        ensures
            (r.0@, r.1@) == answer(self@, 500, create_failed(error@)),
    {
        let mut body = String::from_str(
            "{\"error\": \"Docker create container failed\",\"message\":\"",
        );
        body.append(error);
        body.append("\"}");
        self.answer(500, body)
    }
}

/// One step of the creation of a container: takes the outcome of the step
/// that was asked for last, and says what to do next.
pub fn create_or_update_container(state: CreateState, event: CreateEvent) -> (r: (
    CreateState,
    CreateAction,
))
    ensures
        (r.0@, r.1@) == create_step(state@, event@),
{
    match state.stage {
        CreateStage::Start => match event {
            CreateEvent::Begin => state.proceed(CreateStage::Connect, CreateAction::Connect),
            _ => state.out_of_turn(),
        },
        CreateStage::Connect => match event {
            CreateEvent::Done => state.proceed(CreateStage::Create, CreateAction::Create),
            CreateEvent::Failed(_) => state.answer(
                500,
                String::from_str("{\"error\": \"Docker init failed\"}"),
            ),
            _ => state.out_of_turn(),
        },
        CreateStage::Create => match event {
            CreateEvent::Created(json) => state.answer(200, json),
            CreateEvent::Failed(error) => {
                if !missing_image(error.as_str()) {
                    state.create_failed(error.as_str())
                } else if state.image.as_str().unicode_len() == 0 {
                    state.answer(400, String::from_str("{\"error\":\"No image specified\"}"))
                } else {
                    let (repo, tag) = split_image(state.image.as_str());
                    state.proceed(CreateStage::Pull, CreateAction::Pull { repo, tag })
                }
            },
            _ => state.out_of_turn(),
        },
        CreateStage::Pull => match event {
            CreateEvent::Done => state.proceed(CreateStage::Retry, CreateAction::Create),
            CreateEvent::Failed(error) => {
                let mut body = String::from_str("{\"error\":\"Image pull failed\",\"message\":\"");
                body.append(error.as_str());
                body.append("\"}");
                state.answer(500, body)
            },
            _ => state.out_of_turn(),
        },
        CreateStage::Retry => match event {
            CreateEvent::Created(json) => state.answer(200, json),
            CreateEvent::Failed(error) => state.create_failed(error.as_str()),
            _ => state.out_of_turn(),
        },
        CreateStage::Finished => state.out_of_turn(),
    }
}

/// How many pulls a creation asks for when its steps have the outcomes
/// `events` in turn.
pub open spec fn pulls(s: CreateStateModel, events: Seq<CreateEventModel>) -> nat
    decreases events.len(),
{
    if events.len() == 0 {
        0
    } else {
        let step = create_step(s, events[0]);
        let here: nat = if step.1 is Pull {
            1
        } else {
            0
        };
        here + pulls(step.0, events.drop_first())
    }
}

/// How many times a creation asks the engine to create the container when its
/// steps have the outcomes `events` in turn.
pub open spec fn attempts(s: CreateStateModel, events: Seq<CreateEventModel>) -> nat
    decreases events.len(),
{
    if events.len() == 0 {
        0
    } else {
        let step = create_step(s, events[0]);
        let here: nat = if step.1 is Create {
            1
        } else {
            0
        };
        here + attempts(step.0, events.drop_first())
    }
}

/// How many pulls can still follow at a stage.
pub open spec fn pulls_left(stage: CreateStage) -> nat {
    match stage {
        CreateStage::Start | CreateStage::Connect | CreateStage::Create => 1,
        _ => 0,
    }
}

/// How many attempts can still follow at a stage.
pub open spec fn attempts_left(stage: CreateStage) -> nat {
    match stage {
        CreateStage::Start | CreateStage::Connect => 2,
        CreateStage::Create | CreateStage::Pull => 1,
        _ => 0,
    }
}

/// Whatever the outcomes, a creation pulls at most once and asks the engine
/// at most twice to create the container; after its first attempt it asks
/// once more only where it has pulled, and after the second never again.
pub proof fn retries_at_most_once(s: CreateStateModel, events: Seq<CreateEventModel>)
    ensures
        pulls(s, events) <= pulls_left(s.stage) <= 1,
        attempts(s, events) <= attempts_left(s.stage) <= 2,
        attempts(s, events) - pulls(s, events) <= 1,
        s.stage == CreateStage::Create ==> attempts(s, events) <= pulls(s, events),
    decreases events.len(),
{
    if events.len() > 0 {
        let step = create_step(s, events[0]);
        retries_at_most_once(step.0, events.drop_first());
    }
}

/// A first failure that signals a missing image, for a configuration that
/// names one, is followed by one pull of that image and, once the pull is
/// done, by one more attempt, whose outcome ends the creation.
pub proof fn missing_image_is_pulled_once(
    s: CreateStateModel,
    error: Seq<char>,
    outcome: CreateEventModel,
    later: Seq<CreateEventModel>,
)
    requires
        s.stage == CreateStage::Create,
        signals_missing_image(error),
        s.image.len() > 0,
    ensures
        ({
            let pull = create_step(s, CreateEventModel::Failed(error));
            let retry = create_step(pull.0, CreateEventModel::Done);
            let end = create_step(retry.0, outcome);
            &&& pull.1 == CreateActionModel::Pull {
                repo: image_reference(s.image).0,
                tag: image_reference(s.image).1,
            }
            &&& retry.1 == CreateActionModel::Create
            &&& end.1 is Respond
            &&& outcome is Failed ==> end.1 == CreateActionModel::Respond(
                reply(500, create_failed(outcome->Failed_0)),
            )
            &&& pulls(end.0, later) == 0
            &&& attempts(end.0, later) == 0
        }),
{
    let pull = create_step(s, CreateEventModel::Failed(error));
    let retry = create_step(pull.0, CreateEventModel::Done);
    let end = create_step(retry.0, outcome);
    retries_at_most_once(end.0, later);
}

/// A first failure that does not signal a missing image is answered with
/// status 500 and the engine's own error, and neither a pull nor another
/// attempt follows.
pub proof fn other_failure_is_surfaced(
    s: CreateStateModel,
    error: Seq<char>,
    later: Seq<CreateEventModel>,
)
    requires
        s.stage == CreateStage::Create,
        !signals_missing_image(error),
    ensures
        ({
            let end = create_step(s, CreateEventModel::Failed(error));
            &&& end.1 == CreateActionModel::Respond(reply(500, create_failed(error)))
            &&& pulls(end.0, later) == 0
            &&& attempts(end.0, later) == 0
        }),
{
    let end = create_step(s, CreateEventModel::Failed(error));
    retries_at_most_once(end.0, later);
}

/// Why the engine did not do what it was asked.
#[derive(Clone, Copy, PartialEq, Eq, Structural, Debug)]
pub enum EngineError {
    /// No connection to the engine could be set up.
    Unreachable,
    /// The engine was reached and the call failed.
    Refused,
}

/// The answer to a query whose result the engine gave as JSON: the result
/// itself. A query that failed is answered with the body of an unreachable
/// engine, with status 500 only where the engine was in fact not reached.
pub open spec fn query_reply(outcome: Result<Seq<char>, EngineError>) -> ResponseModel {
    match outcome {
        Ok(json) => reply(200, json),
        Err(EngineError::Unreachable) => reply(500, init_failed()),
        Err(EngineError::Refused) => reply(200, init_failed()),
    }
}

/// The answer to an order: `done` where the engine carried it out, else
/// status 500 with `failed`, or with the body of an unreachable engine.
pub open spec fn order_reply(
    outcome: Result<(), EngineError>,
    done: Seq<char>,
    failed: Seq<char>,
) -> ResponseModel {
    match outcome {
        Ok(_) => reply(200, "{\"ok\": \""@ + done + "\"}"@),
        Err(EngineError::Unreachable) => reply(500, init_failed()),
        Err(EngineError::Refused) => reply(500, "{\"error\": \""@ + failed + "\"}"@),
    }
}

/// The view of a query's outcome.
pub open spec fn outcome_view(
    outcome: Result<String, EngineError>,
) -> Result<Seq<char>, EngineError> {
    match outcome {
        Ok(json) => Ok(json@),
        Err(e) => Err(e),
    }
}

fn query_response(outcome: Result<String, EngineError>) -> (r: Response)
    ensures
        r@ == query_reply(outcome_view(outcome)),
{
    match outcome {
        Ok(json) => Response::new(200, json),
        Err(EngineError::Unreachable) => Response::text(500, "{\"error\": \"Docker init failed\"}"),
        Err(EngineError::Refused) => Response::text(200, "{\"error\": \"Docker init failed\"}"),
    }
}

fn order_response(outcome: Result<(), EngineError>, done: &str, failed: &str) -> (r: Response)
    ensures
        r@ == order_reply(outcome, done@, failed@),
{
    match outcome {
        Ok(_) => Response::framed(200, "{\"ok\": \"", done, "\"}"),
        Err(EngineError::Unreachable) => Response::text(500, "{\"error\": \"Docker init failed\"}"),
        Err(EngineError::Refused) => Response::framed(500, "{\"error\": \"", failed, "\"}"),
    }
}

/// The answer to a request for the list of all containers, stopped ones
/// included, from the engine's outcome.
pub fn list_containers(outcome: Result<String, EngineError>) -> (r: Response)
    ensures
        r@ == query_reply(outcome_view(outcome)),
{
    query_response(outcome)
}

/// The answer to a request to inspect a container, from the engine's outcome.
pub fn container_inspect(outcome: Result<String, EngineError>) -> (r: Response)
    ensures
        r@ == query_reply(outcome_view(outcome)),
{
    query_response(outcome)
}

/// The answer to a request to start a container, from the engine's outcome.
pub fn container_start(outcome: Result<(), EngineError>) -> (r: Response)
    ensures
        r@ == order_reply(outcome, "Docker container started"@, "Docker container start failed"@),
{
    order_response(outcome, "Docker container started", "Docker container start failed")
}

/// The answer to a request to stop a container, from the engine's outcome.
pub fn container_stop(outcome: Result<(), EngineError>) -> (r: Response)
    ensures
        r@ == order_reply(outcome, "Docker container stopped"@, "Docker container stop failed"@),
{
    order_response(outcome, "Docker container stopped", "Docker container stop failed")
}

/// The answer to a request to remove a container, from the engine's outcome.
/// A failed removal is reported in the words of a failed stop.
pub fn container_rm(outcome: Result<(), EngineError>) -> (r: Response)
    ensures
        r@ == order_reply(outcome, "Docker container removed"@, "Docker container stop failed"@),
{
    order_response(outcome, "Docker container removed", "Docker container stop failed")
}

/// The stream that a piece of a container's log belongs to.
#[derive(Clone, Copy, PartialEq, Eq, Structural, Debug)]
pub enum LogKind {
    StdErr,
    StdOut,
    StdIn,
    Console,
}

/// A piece of a container's log, as the engine gave it.
pub struct LogChunk {
    pub kind: LogKind,
    pub message: String,
}

/// The line that a piece of a log gives: its text where it comes from the
/// container's output or error stream, else an empty line.
pub open spec fn chunk_line(kind: LogKind, message: Seq<char>) -> Seq<char> {
    match kind {
        LogKind::StdOut | LogKind::StdErr => message,
        _ => Seq::empty(),
    }
}

/// The lines that the pieces of a log give, in their order.
pub open spec fn chunk_lines(chunks: Seq<LogChunk>) -> Seq<Seq<char>> {
    Seq::new(chunks.len(), |i: int| chunk_line(chunks[i].kind, chunks[i].message@))
}

/// The view of the outcome of a request for a log.
pub open spec fn log_view(
    outcome: Result<Vec<LogChunk>, EngineError>,
) -> Result<Seq<Seq<char>>, EngineError> {
    match outcome {
        Ok(chunks) => Ok(chunk_lines(chunks@)),
        Err(e) => Err(e),
    }
}

/// The answer to a request for a container's log: the last hundred of its
/// lines as a JSON array, or status 500 and why there is none.
pub open spec fn logs_reply(outcome: Result<Seq<Seq<char>>, EngineError>) -> ResponseModel {
    match outcome {
        Ok(lines) => lines_reply(lines),
        Err(EngineError::Unreachable) => reply(500, init_failed()),
        Err(EngineError::Refused) => reply(500, "{\"error\": \"Docker read logs failed\"}"@),
    }
}

/// The lines that the pieces of a log give, in their order.
pub fn log_lines(chunks: &Vec<LogChunk>) -> (r: Vec<String>)
    ensures
        views(r@) == chunk_lines(chunks@),
{
    let mut out: Vec<String> = Vec::new();
    let mut i: usize = 0;
    assert(views(out@) =~= chunk_lines(chunks@).take(0));
    while i < chunks.len()
        invariant
            i <= chunks.len(),
            views(out@) == chunk_lines(chunks@).take(i as int),
        decreases chunks.len() - i,
    {
        let ghost before = views(out@);
        let line = match chunks[i].kind {
            LogKind::StdOut | LogKind::StdErr => chunks[i].message.clone(),
            _ => String::new(),
        };
        out.push(line);
        assert(views(out@) =~= before.push(line@));
        assert(chunk_lines(chunks@).take(i + 1) =~= before.push(line@));
        i += 1;
    }
    assert(chunk_lines(chunks@).take(chunks@.len() as int) =~= chunk_lines(chunks@));
    out
}

/// The answer to a request for a container's log, from the engine's outcome.
pub fn container_logs(outcome: Result<Vec<LogChunk>, EngineError>) -> (r: Response)
    ensures
        r@ == logs_reply(log_view(outcome)),
{
    match outcome {
        Ok(chunks) => {
            let lines = log_lines(&chunks);
            lines_response(&lines)
        },
        Err(EngineError::Unreachable) => Response::text(500, "{\"error\": \"Docker init failed\"}"),
        Err(EngineError::Refused) => Response::text(500, "{\"error\": \"Docker read logs failed\"}"),
    }
}

} // verus!
