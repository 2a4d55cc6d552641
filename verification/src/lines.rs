//! Text as lines: splitting at line ends, keeping the last lines, and
//! writing lines as a JSON array.

use vstd::prelude::*;
use vstd::string::StringExecFns;
use crate::protocol::{opt_view, reply, views, Response, ResponseModel};
use crate::text::{from_chars, to_chars};

verus! {

/// The first position at or after `i` where `s` holds `c`; the length of `s`
/// where there is none.
pub open spec fn first_index(s: Seq<char>, c: char, i: int) -> int
    decreases s.len() - i,
{
    if 0 <= i < s.len() && s[i] != c {
        first_index(s, c, i + 1)
    } else if i < s.len() {
        i
    } else {
        s.len() as int
    }
}

/// A line without the carriage return that it may end in.
pub open spec fn without_cr(line: Seq<char>) -> Seq<char> {
    if line.len() > 0 && line.last() == '\r' {
        line.drop_last()
    } else {
        line
    }
}

/// The lines of a text. A line ends at a line feed, or at a carriage return
/// directly before one; neither belongs to the line. What follows the last
/// line feed is a line as it stands, unless it is empty.
pub open spec fn lines_of(s: Seq<char>) -> Seq<Seq<char>>
    decreases s.len(),
{
    if s.len() == 0 {
        Seq::empty()
    } else {
        let end = first_index(s, '\n', 0);
        if 0 <= end < s.len() {
            seq![without_cr(s.take(end))] + lines_of(s.skip(end + 1))
        } else {
            seq![s]
        }
    }
}

/// The lines of a text.
pub fn lines(s: &str) -> (r: Vec<String>)
    ensures
        views(r@) == lines_of(s@),
{
    let chars = to_chars(s);
    let mut out: Vec<String> = Vec::new();
    let mut start: usize = 0;
    assert(s@.skip(0) =~= s@);
    assert(views(out@) =~= Seq::<Seq<char>>::empty());
    while start < chars.len()
        invariant
            start <= chars.len(),
            chars@ == s@,
            views(out@) + lines_of(s@.skip(start as int)) == lines_of(s@),
        decreases chars.len() - start,
    {
        let ghost rest = s@.skip(start as int);
        let mut i: usize = start;
        while i < chars.len() && chars[i] != '\n'
            invariant
                start <= i <= chars.len(),
                chars@ == s@,
                rest == s@.skip(start as int),
                first_index(rest, '\n', 0) == first_index(rest, '\n', i - start),
            decreases chars.len() - i,
        {
            i += 1;
        }
        let ghost before = views(out@);
        if i == chars.len() {
            let line = from_chars(&chars, start, i);
            assert(chars@.subrange(start as int, i as int) =~= rest);
            out.push(line);
            assert(views(out@) =~= before + seq![rest]);
            assert(lines_of(s@.skip(i as int)) =~= Seq::<Seq<char>>::empty());
            start = i;
        } else {
            let end: usize = if i > start && chars[i - 1] == '\r' {
                i - 1
            } else {
                i
            };
            let line = from_chars(&chars, start, end);
            assert(chars@.subrange(start as int, i as int) =~= rest.take(i - start));
            assert(chars@.subrange(start as int, end as int) =~= without_cr(rest.take(i - start)));
            assert(rest.skip(i - start + 1) =~= s@.skip(i + 1));
            out.push(line);
            assert(views(out@) =~= before + seq![without_cr(rest.take(i - start))]);
            start = i + 1;
        }
    }
    assert(lines_of(s@.skip(start as int)) =~= Seq::<Seq<char>>::empty());
    out
}

/// The last `n` of `lines`, in their order; all of them where there are no
/// more than `n`.
pub open spec fn last_of<T>(lines: Seq<T>, n: nat) -> Seq<T> {
    if lines.len() <= n {
        lines
    } else {
        lines.subrange(lines.len() - n, lines.len() as int)
    }
}

/// The last `n` of `lines`, in their order; all of them where there are no
/// more than `n`.
pub fn tail(lines: &Vec<String>, n: usize) -> (r: Vec<String>)
    ensures
        views(r@) == last_of(views(lines@), n as nat),
        r@.len() == if lines@.len() <= n { lines@.len() } else { n as nat },
{
    let from: usize = if lines.len() <= n {
        0
    } else {
        lines.len() - n
    };
    let mut out: Vec<String> = Vec::new();
    let mut i: usize = from;
    assert(views(out@) =~= views(lines@).subrange(from as int, i as int));
    while i < lines.len()
        invariant
            from <= i <= lines.len(),
            out@.len() == i - from,
            views(out@) == views(lines@).subrange(from as int, i as int),
        decreases lines.len() - i,
    {
        let ghost before = views(out@);
        out.push(lines[i].clone());
        assert(views(out@) =~= before.push(lines@[i as int]@));
        assert(views(lines@).subrange(from as int, i + 1) =~= before.push(lines@[i as int]@));
        i += 1;
    }
    assert(views(lines@).subrange(0, lines@.len() as int) =~= views(lines@));
    out
}

/// What is kept of `lines` are its last `n` entries, each at its place from
/// the end, and all of them where there are no more than `n`.
pub proof fn last_lines_are_kept<T>(lines: Seq<T>, n: nat)
    ensures
        last_of(lines, n).len() == if lines.len() <= n { lines.len() } else { n },
        forall|i: int|
            0 <= i < last_of(lines, n).len() ==> #[trigger] last_of(lines, n)[i] == lines[lines.len()
                - last_of(lines, n).len() + i],
        lines.len() <= n ==> last_of(lines, n) == lines,
{
}

#[verifier::external_type_specification]
#[verifier::external_body]
pub struct ExJsonError(serde_json::Error);

/// The JSON text that `serde_json` writes for an array of strings; `None`
/// where it reports an error.
pub uninterp spec fn json_array_text(lines: Seq<Seq<char>>) -> Option<Seq<char>>;

/// Writes `lines` as a JSON array of strings with `serde_json::to_string`.
/// Nothing is claimed of the outcome but that it is the one named by
/// `json_array_text`.
#[verifier::external_body]
fn to_json(lines: &Vec<String>) -> (r: Result<String, serde_json::Error>)
    ensures
        match r {
            Ok(text) => json_array_text(views(lines@)) == Some(text@),
            Err(_) => json_array_text(views(lines@)) is None,
        },
{
    serde_json::to_string(lines)
}

/// The most lines that a response holds.
pub const MAX_LINES: usize = 100;

/// The body that reports that the lines could not be written as JSON.
pub open spec fn not_written() -> Seq<char> {
    "{\"error\": \"Cant serialize lines\"}"@
}

/// The response that holds the JSON text `json`, or reports that there is
/// none.
pub open spec fn json_reply(json: Option<Seq<char>>) -> ResponseModel {
    match json {
        Some(text) => reply(200, text),
        None => reply(500, not_written()),
    }
}

/// The response that holds the last hundred of `lines` as a JSON array.
pub open spec fn lines_reply(lines: Seq<Seq<char>>) -> ResponseModel {
    json_reply(json_array_text(last_of(lines, MAX_LINES as nat)))
}

/// The response for JSON text that was written, or for the failure to write
/// it.
pub fn json_response(json: Option<String>) -> (r: Response)
    ensures
        r@ == json_reply(opt_view(json)),
{
    match json {
        Some(text) => Response::new(200, text),
        None => Response::text(500, "{\"error\": \"Cant serialize lines\"}"),
    }
}

/// The response that holds the last hundred of `lines`, in their order, as a
/// JSON array; all of them where there are no more than a hundred.
pub fn lines_response(lines: &Vec<String>) -> (r: Response)
    ensures
        r@ == lines_reply(views(lines@)),
{
    let kept = tail(lines, MAX_LINES);
    match to_json(&kept) {
        Ok(text) => json_response(Some(text)),
        Err(_) => json_response(None),
    }
}

} // verus!
