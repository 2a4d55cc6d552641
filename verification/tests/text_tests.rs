use server_agent::lines::{json_response, lines, lines_response, tail, MAX_LINES};
use server_agent::parse::{parse_i32, space, words};
use server_agent::protocol::{framed, no_args, push_arg, Command, Response};
use server_agent::text::{chars_eq, contains, decimal, digit_str, from_chars, matches_at, str_eq, to_chars};

fn strings(v: &[&str]) -> Vec<String> {
    v.iter().map(|s| s.to_string()).collect()
}

#[test]
fn chars_round_trip() {
    let chars = to_chars("a\u{e9}\u{1f600}z");
    assert_eq!(chars, vec!['a', '\u{e9}', '\u{1f600}', 'z']);
    assert_eq!(from_chars(&chars, 0, 4), "a\u{e9}\u{1f600}z");
    assert_eq!(from_chars(&chars, 1, 3), "\u{e9}\u{1f600}");
    assert_eq!(from_chars(&chars, 2, 2), "");
    assert!(to_chars("").is_empty());
}

#[test]
fn strings_are_compared_by_their_characters() {
    assert!(str_eq("", ""));
    assert!(str_eq("abc", "abc"));
    assert!(!str_eq("abc", "abd"));
    assert!(!str_eq("abc", "ab"));
    assert!(!str_eq("abc", "Abc"));
    assert!(chars_eq(&vec!['x'], &vec!['x']));
    assert!(!chars_eq(&vec!['x'], &vec![]));
}

#[test]
fn text_is_found_where_it_stands() {
    assert!(contains("hello world", "o w"));
    assert!(contains("hello", "hello"));
    assert!(contains("hello", ""));
    assert!(contains("", ""));
    assert!(contains("hello", "lo"));
    assert!(contains("hello", "h"));
    assert!(!contains("hello", "hello!"));
    assert!(!contains("hello", "ol"));
    assert!(!contains("", "a"));
    let hay = to_chars("abcabc");
    let needle = to_chars("bc");
    assert!(matches_at(&hay, &needle, 1));
    assert!(matches_at(&hay, &needle, 4));
    assert!(!matches_at(&hay, &needle, 0));
    assert!(!matches_at(&hay, &needle, 5));
    assert!(!matches_at(&hay, &needle, 100));
}

#[test]
fn numbers_are_written_in_decimal() {
    assert_eq!(decimal(0), "0");
    assert_eq!(decimal(7), "7");
    assert_eq!(decimal(10), "10");
    assert_eq!(decimal(302), "302");
    assert_eq!(decimal(65535), "65535");
    assert_eq!(decimal(u64::MAX), "18446744073709551615");
    assert_eq!(digit_str(0), "0");
    assert_eq!(digit_str(9), "9");
}

#[test]
fn text_is_split_at_line_ends() {
    assert_eq!(lines("a\nb\nc"), strings(&["a", "b", "c"]));
    assert_eq!(lines("a\nb\n"), strings(&["a", "b"]));
    assert_eq!(lines("a\r\nb\r\n"), strings(&["a", "b"]));
    assert_eq!(lines("a\n\nb"), strings(&["a", "", "b"]));
    assert_eq!(lines("\n"), strings(&[""]));
    assert_eq!(lines("\n\n"), strings(&["", ""]));
    assert_eq!(lines("a\r"), strings(&["a\r"]));
    assert_eq!(lines("a\rb\nc"), strings(&["a\rb", "c"]));
    assert_eq!(lines("a\r\r\n"), strings(&["a\r"]));
    assert_eq!(lines("\r\n"), strings(&[""]));
    assert!(lines("").is_empty());
}

#[test]
fn lines_split_as_the_standard_library_does() {
    for text in ["", "a", "a\n", "\na", "a\r\nb", "x\r", "\r\n\r\n", "a\n\r\nb\r", "  \n \n", "\u{e9}\n\u{1f600}\r\n"] {
        let expected: Vec<String> = text.lines().map(|l| l.to_string()).collect();
        assert_eq!(lines(text), expected, "{:?}", text);
    }
}

#[test]
fn last_lines_are_kept_in_order() {
    let all: Vec<String> = (0..250).map(|i| i.to_string()).collect();
    let kept = tail(&all, 100);
    assert_eq!(kept.len(), 100);
    assert_eq!(kept, all[150..].to_vec());
    let few: Vec<String> = (0..30).map(|i| i.to_string()).collect();
    assert_eq!(tail(&few, 100), few);
    let exact: Vec<String> = (0..100).map(|i| i.to_string()).collect();
    assert_eq!(tail(&exact, 100), exact);
    let one_more: Vec<String> = (0..101).map(|i| i.to_string()).collect();
    assert_eq!(tail(&one_more, 100), one_more[1..].to_vec());
    assert!(tail(&all, 0).is_empty());
    assert!(tail(&Vec::new(), 100).is_empty());
    assert_eq!(MAX_LINES, 100);
}

#[test]
fn lines_are_answered_as_a_json_array() {
    let r = lines_response(&strings(&["a", "b \"c\"", "\\d"]));
    assert_eq!((r.status, r.body.as_str()), (200, "[\"a\",\"b \\\"c\\\"\",\"\\\\d\"]"));
    let r = json_response(Some("[]".to_string()));
    assert_eq!((r.status, r.body.as_str()), (200, "[]"));
    let r = json_response(None);
    assert_eq!((r.status, r.body.as_str()), (500, "{\"error\": \"Cant serialize lines\"}"));
}

#[test]
fn words_stand_between_white_space() {
    assert_eq!(words(" r  b   swpd\tfree \n"), strings(&["r", "b", "swpd", "free"]));
    assert_eq!(words("one"), strings(&["one"]));
    assert_eq!(words("a\u{a0}b\u{3000}c\u{2003}d\u{85}e"), strings(&["a", "b", "c", "d", "e"]));
    assert_eq!(words("a\u{200b}b"), strings(&["a\u{200b}b"]));
    assert!(words("").is_empty());
    assert!(words("  \t\r\n ").is_empty());
}

#[test]
fn words_split_as_the_standard_library_does() {
    for text in ["", " ", "a", " a", "a ", "a b", "a  b\tc\u{b}d\u{c}e", "\u{1680}x\u{2028}y\u{2029}z\u{202f}w\u{205f}v"] {
        let expected: Vec<String> = text.split_whitespace().map(|w| w.to_string()).collect();
        assert_eq!(words(text), expected, "{:?}", text);
    }
    for code in 0..0x3100u32 {
        if let Some(c) = char::from_u32(code) {
            assert_eq!(space(c), c.is_whitespace(), "{:x}", code);
        }
    }
}

#[test]
fn numbers_are_read_as_the_standard_library_does() {
    for text in [
        "0", "7", "42", "-42", "+42", "007", "-0", "+0", "2147483647", "2147483648", "-2147483648",
        "-2147483649", "99999999999999999999999", "-99999999999999999999999", "", "-", "+", "--1",
        "+-1", "1-", "1 ", " 1", "1_0", "0x10", "1e3", "\u{661}", "12a", "a12",
        "00000000000000000002147483647", "4000000000", "3999999999",
    ] {
        assert_eq!(parse_i32(text), text.parse::<i32>().ok(), "{:?}", text);
    }
    assert_eq!(parse_i32("305"), Some(305));
    assert_eq!(parse_i32("-2147483648"), Some(i32::MIN));
    assert_eq!(parse_i32("2147483648"), None);
}

#[test]
fn responses_and_commands_are_built() {
    assert_eq!(framed("<", "x", ">"), "<x>");
    let r = Response::new(201, "made".to_string());
    assert_eq!((r.status, r.body.as_str()), (201, "made"));
    let r = Response::text(204, "");
    assert_eq!((r.status, r.body.as_str()), (204, ""));
    let r = Response::framed(500, "{\"error\": \"", "why", "\"}");
    assert_eq!((r.status, r.body.as_str()), (500, "{\"error\": \"why\"}"));
    let mut args = no_args();
    assert!(args.is_empty());
    push_arg(&mut args, "-a");
    push_arg(&mut args, "b c");
    assert_eq!(args, vec!["-a", "b c"]);
    let c = Command::in_dir("ls", args, "/tmp");
    assert_eq!((c.program.as_str(), c.dir.as_deref()), ("ls", Some("/tmp")));
    assert_eq!(c.args, vec!["-a", "b c"]);
    let c = Command::new("ls", no_args());
    assert_eq!((c.program.as_str(), c.dir), ("ls", None));
    let c = Command::bare("vmstat");
    assert_eq!((c.program.as_str(), c.args.len(), c.dir), ("vmstat", 0, None));
}
