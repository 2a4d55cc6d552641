//! The plain values that the handlers hand back: an HTTP response to send,
//! and an external command to run.

use vstd::prelude::*;
use vstd::string::StringExecFns;

verus! {

/// The views of a sequence of strings.
pub open spec fn views(v: Seq<String>) -> Seq<Seq<char>> {
    Seq::new(v.len(), |i: int| v[i]@)
}

/// An HTTP response: a status code and a text body.
pub struct Response {
    pub status: u16,
    pub body: String,
}

/// What a `Response` stands for.
pub ghost struct ResponseModel {
    pub status: u16,
    pub body: Seq<char>,
}

impl View for Response {
    type V = ResponseModel;

    open spec fn view(&self) -> ResponseModel {
        ResponseModel { status: self.status, body: self.body@ }
    }
}

/// An external command: the program, its arguments, and the directory to run
/// it in, if it is not the current one.
pub struct Command {
    pub program: String,
    pub args: Vec<String>,
    pub dir: Option<String>,
}

/// What a `Command` stands for.
pub ghost struct CommandModel {
    pub program: Seq<char>,
    pub args: Seq<Seq<char>>,
    pub dir: Option<Seq<char>>,
}

/// The view of an optional string.
pub open spec fn opt_view(s: Option<String>) -> Option<Seq<char>> {
    match s {
        Some(t) => Some(t@),
        None => None,
    }
}

impl View for Command {
    type V = CommandModel;

    open spec fn view(&self) -> CommandModel {
        CommandModel { program: self.program@, args: views(self.args@), dir: opt_view(self.dir) }
    }
}

/// The response with the given status and body.
pub open spec fn reply(status: u16, body: Seq<char>) -> ResponseModel {
    ResponseModel { status, body }
}

/// The command with the given program, arguments and directory.
pub open spec fn command(
    program: Seq<char>,
    args: Seq<Seq<char>>,
    dir: Option<Seq<char>>,
) -> CommandModel {
    CommandModel { program, args, dir }
}

/// `prefix`, `detail` and `suffix` in one string.
pub fn framed(prefix: &str, detail: &str, suffix: &str) -> (r: String)
    ensures
        r@ == prefix@ + detail@ + suffix@,
{
    let mut s = String::from_str(prefix);
    s.append(detail);
    s.append(suffix);
    s
}

impl Response {
    /// A response with the given status and body.
    pub fn new(status: u16, body: String) -> (r: Response)
        ensures
            r@ == reply(status, body@),
    {
        Response { status, body }
    }

    /// A response with the given status whose body is `body`.
    pub fn text(status: u16, body: &str) -> (r: Response)
        ensures
            r@ == reply(status, body@),
    {
        Response { status, body: String::from_str(body) }
    }

    /// A response with the given status whose body is `detail` between
    /// `prefix` and `suffix`.
    pub fn framed(status: u16, prefix: &str, detail: &str, suffix: &str) -> (r: Response)
        ensures
            r@ == reply(status, prefix@ + detail@ + suffix@),
    {
        Response { status, body: framed(prefix, detail, suffix) }
    }
}

/// The answer to a request whose body could not be read as what the handler
/// takes.
pub fn bad_request() -> (r: Response)
    ensures
        r@ == reply(400, "{\"error\": \"Cant read request body\"}"@),
{
    Response::text(400, "{\"error\": \"Cant read request body\"}")
}

/// The answer to a request whose body is not the JSON that the handler takes.
pub fn bad_json() -> (r: Response)
    ensures
        r@ == reply(400, "{\"error\": \"Cant read request body. JSON parse error\"}"@),
{
    Response::text(400, "{\"error\": \"Cant read request body. JSON parse error\"}")
}

/// The answer to a request that is not let through.
pub fn forbidden() -> (r: Response)
    ensures
        r@ == reply(403, "FORBIDDEN"@),
{
    Response::text(403, "FORBIDDEN")
}

/// The answer to a request that no handler answers.
pub fn not_found() -> (r: Response)
    ensures
        r@ == reply(404, "NOT FOUND"@),
{
    Response::text(404, "NOT FOUND")
}

/// Appends a copy of `arg` to `args`.
pub fn push_arg(args: &mut Vec<String>, arg: &str)
    ensures
        views(final(args)@) == views(old(args)@).push(arg@),
{
    args.push(String::from_str(arg));
    assert(views(args@) =~= views(old(args)@).push(arg@));
}

/// An empty argument list.
pub fn no_args() -> (r: Vec<String>)
    ensures
        views(r@) == Seq::<Seq<char>>::empty(),
{
    let args: Vec<String> = Vec::new();
    assert(views(args@) =~= Seq::<Seq<char>>::empty());
    args
}

impl Command {
    /// The command that runs `program` with `args` in the current directory.
    pub fn new(program: &str, args: Vec<String>) -> (r: Command)
        ensures
            r@ == command(program@, views(args@), None),
    {
        Command { program: String::from_str(program), args, dir: None }
    }

    /// The command that runs `program` with `args` in the directory `dir`.
    pub fn in_dir(program: &str, args: Vec<String>, dir: &str) -> (r: Command)
        ensures
            r@ == command(program@, views(args@), Some(dir@)),
    {
        Command { program: String::from_str(program), args, dir: Some(String::from_str(dir)) }
    }

    /// The command that runs `program` with no arguments in the current
    /// directory.
    pub fn bare(program: &str) -> (r: Command)
        ensures
            r@ == command(program@, Seq::empty(), None),
    {
        let args: Vec<String> = Vec::new();
        assert(views(args@) =~= Seq::<Seq<char>>::empty());
        Command { program: String::from_str(program), args, dir: None }
    }
}

} // verus!
