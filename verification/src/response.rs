//! Decoding of the polled response body.
//!
//! The endpoint answers with a JSON body of the shape
//! `{ "data": { "dot_info": <string> } | null }`: either no active task, or a
//! textual graph description. The decoder below accepts exactly that shape,
//! with arbitrary JSON whitespace between the tokens and the usual one-letter
//! escapes inside the string, and rejects everything else. Rejection is
//! surfaced like a network failure: the iteration is abandoned and the slot
//! stays as it was.
//!
//! The spec functions give the grammar as a mathematical parser over the byte
//! sequence; the executable functions are proved to return exactly what the
//! spec parser returns.

use vstd::prelude::*;

verus! {

/// Decoding failed: the body is not of the expected shape.
#[derive(Debug, Clone, Copy, PartialEq, Eq, Structural)]
pub struct ParseError;

pub const B_QUOTE: u8 = 34;

pub const B_BACKSLASH: u8 = 92;

pub const B_LBRACE: u8 = 123;

pub const B_RBRACE: u8 = 125;

pub const B_COLON: u8 = 58;

/// JSON insignificant whitespace: space, tab, line feed, carriage return.
pub open spec fn is_json_ws(b: u8) -> bool {
    b == 32 || b == 9 || b == 10 || b == 13
}

/// The first index at or after `i` that does not hold whitespace.
pub open spec fn spec_skip_ws(s: Seq<u8>, i: int) -> int
    decreases s.len() - i,
{
    if 0 <= i < s.len() && is_json_ws(s[i]) {
        spec_skip_ws(s, i + 1)
    } else {
        i
    }
}

/// Index `i` exists and holds byte `b`.
pub open spec fn spec_at_byte(s: Seq<u8>, i: int, b: u8) -> bool {
    0 <= i < s.len() && s[i] == b
}

/// The byte that a one-letter JSON escape `\x` stands for, if `x` is one.
pub open spec fn spec_unescaped(b: u8) -> Option<u8> {
    if b == B_QUOTE {
        Some(B_QUOTE)
    } else if b == B_BACKSLASH {
        Some(B_BACKSLASH)
    } else if b == 47 {  // solidus
        Some(47)
    } else if b == 98 {  // b: backspace
        Some(8)
    } else if b == 102 {  // f: form feed
        Some(12)
    } else if b == 110 {  // n: line feed
        Some(10)
    } else if b == 114 {  // r: carriage return
        Some(13)
    } else if b == 116 {  // t: tab
        Some(9)
    } else {
        None
    }
}

/// Parse the rest of a JSON string, `i` pointing just past the opening quote:
/// the unescaped content and the index just past the closing quote. Raw
/// control characters and escapes other than the one-letter ones are refused.
pub open spec fn spec_parse_string_body(s: Seq<u8>, i: int) -> Option<(Seq<u8>, int)>
    decreases s.len() - i,
{
    if i < 0 || i >= s.len() {
        None
    } else if s[i] == B_QUOTE {
        Some((Seq::empty(), i + 1))
    } else if s[i] == B_BACKSLASH {
        if i + 1 < s.len() {
            match spec_unescaped(s[i + 1]) {
                Some(c) => match spec_parse_string_body(s, i + 2) {
                    Some((rest, j)) => Some((seq![c] + rest, j)),
                    None => None,
                },
                None => None,
            }
        } else {
            None
        }
    } else if s[i] < 32 {
        None
    } else {
        match spec_parse_string_body(s, i + 1) {
            Some((rest, j)) => Some((seq![s[i]] + rest, j)),
            None => None,
        }
    }
}

/// The six bytes of the quoted key `"data"` stand at index `i`.
pub open spec fn spec_key_data_at(s: Seq<u8>, i: int) -> bool {
    &&& 0 <= i
    &&& i + 6 <= s.len()
    &&& s[i] == B_QUOTE
    &&& s[i + 1] == 100  // d
    &&& s[i + 2] == 97  // a
    &&& s[i + 3] == 116  // t
    &&& s[i + 4] == 97  // a
    &&& s[i + 5] == B_QUOTE
}

/// The ten bytes of the quoted key `"dot_info"` stand at index `i`.
pub open spec fn spec_key_dot_info_at(s: Seq<u8>, i: int) -> bool {
    &&& 0 <= i
    &&& i + 10 <= s.len()
    &&& s[i] == B_QUOTE
    &&& s[i + 1] == 100  // d
    &&& s[i + 2] == 111  // o
    &&& s[i + 3] == 116  // t
    &&& s[i + 4] == 95  // underscore
    &&& s[i + 5] == 105  // i
    &&& s[i + 6] == 110  // n
    &&& s[i + 7] == 102  // f
    &&& s[i + 8] == 111  // o
    &&& s[i + 9] == B_QUOTE
}

/// The four bytes of `null` stand at index `i`.
pub open spec fn spec_null_at(s: Seq<u8>, i: int) -> bool {
    &&& 0 <= i
    &&& i + 4 <= s.len()
    &&& s[i] == 110  // n
    &&& s[i + 1] == 117  // u
    &&& s[i + 2] == 108  // l
    &&& s[i + 3] == 108  // l
}

/// From `i`: whitespace, the closing brace of the outer object, whitespace,
/// end of input.
pub open spec fn spec_closes_response(s: Seq<u8>, i: int) -> bool {
    let e = spec_skip_ws(s, i);
    spec_at_byte(s, e, B_RBRACE) && spec_skip_ws(s, e + 1) == s.len()
}

/// Parse the inner task object, `i` pointing just past its opening brace:
/// the graph description and the index just past the closing brace.
pub open spec fn spec_parse_task_object(s: Seq<u8>, i: int) -> Option<(Seq<u8>, int)> {
    let k = spec_skip_ws(s, i);
    if !spec_key_dot_info_at(s, k) {
        None
    } else {
        let c = spec_skip_ws(s, k + 10);
        if !spec_at_byte(s, c, B_COLON) {
            None
        } else {
            let v = spec_skip_ws(s, c + 1);
            if !spec_at_byte(s, v, B_QUOTE) {
                None
            } else {
                match spec_parse_string_body(s, v + 1) {
                    Some((content, j)) => {
                        let e = spec_skip_ws(s, j);
                        if spec_at_byte(s, e, B_RBRACE) {
                            Some((content, e + 1))
                        } else {
                            None
                        }
                    },
                    None => None,
                }
            }
        }
    }
}

/// Parse a whole response body: `None` for a body that is not of the expected
/// shape, `Some(None)` for no active task, `Some(Some(dot))` for a task with
/// graph description `dot`.
pub open spec fn spec_parse_response(s: Seq<u8>) -> Option<Option<Seq<u8>>> {
    let i0 = spec_skip_ws(s, 0);
    if !spec_at_byte(s, i0, B_LBRACE) {
        None
    } else {
        let i1 = spec_skip_ws(s, i0 + 1);
        if !spec_key_data_at(s, i1) {
            None
        } else {
            let i2 = spec_skip_ws(s, i1 + 6);
            if !spec_at_byte(s, i2, B_COLON) {
                None
            } else {
                let i3 = spec_skip_ws(s, i2 + 1);
                if spec_null_at(s, i3) {
                    if spec_closes_response(s, i3 + 4) {
                        Some(None)
                    } else {
                        None
                    }
                } else if spec_at_byte(s, i3, B_LBRACE) {
                    match spec_parse_task_object(s, i3 + 1) {
                        Some((dot, j)) => if spec_closes_response(s, j) {
                            Some(Some(dot))
                        } else {
                            None
                        },
                        None => None,
                    }
                } else {
                    None
                }
            }
        }
    }
}

fn skip_ws(s: &[u8], i: usize) -> (j: usize)
    requires
        i <= s@.len(),
    ensures
        j == spec_skip_ws(s@, i as int),
        i <= j <= s@.len(),
        s@.len() <= usize::MAX,
{
    let mut j = i;
    while j < s.len() && (s[j] == 32 || s[j] == 9 || s[j] == 10 || s[j] == 13)
        invariant
            i <= j <= s@.len(),
            spec_skip_ws(s@, i as int) == spec_skip_ws(s@, j as int),
        decreases s@.len() - j,
    {
        proof {
            assert(spec_skip_ws(s@, j as int) == spec_skip_ws(s@, j + 1));
        }
        j = j + 1;
    }
    j
}

fn at_byte(s: &[u8], i: usize, b: u8) -> (r: bool)
    ensures
        r == spec_at_byte(s@, i as int, b),
{
    i < s.len() && s[i] == b
}

fn unescape_byte(b: u8) -> (r: Option<u8>)
    ensures
        r == spec_unescaped(b),
{
    if b == B_QUOTE {
        Some(B_QUOTE)
    } else if b == B_BACKSLASH {
        Some(B_BACKSLASH)
    } else if b == 47 {
        Some(47)
    } else if b == 98 {
        Some(8)
    } else if b == 102 {
        Some(12)
    } else if b == 110 {
        Some(10)
    } else if b == 114 {
        Some(13)
    } else if b == 116 {
        Some(9)
    } else {
        None
    }
}

fn parse_string_body(s: &[u8], i: usize) -> (r: Option<(Vec<u8>, usize)>)
    requires
        i <= s@.len(),
    ensures
        match r {
            Some(p) => {
                &&& spec_parse_string_body(s@, i as int) == Some((p.0@, p.1 as int))
                &&& i <= p.1 <= s@.len()
            },
            None => spec_parse_string_body(s@, i as int) is None,
        },
    decreases s@.len() - i,
{
    if i >= s.len() {
        return None;
    }
    let b = s[i];
    if b == B_QUOTE {
        let content: Vec<u8> = Vec::new();
        proof {
            assert(content@ =~= Seq::<u8>::empty());
        }
        return Some((content, i + 1));
    }
    if b == B_BACKSLASH {
        if i + 1 >= s.len() {
            return None;
        }
        match unescape_byte(s[i + 1]) {
            None => None,
            Some(c) => {
                match parse_string_body(s, i + 2) {
                    None => None,
                    Some((mut rest, j)) => {
                        let ghost tail = rest@;
                        rest.insert(0, c);
                        proof {
                            assert(rest@ =~= seq![c] + tail);
                        }
                        Some((rest, j))
                    },
                }
            },
        }
    } else if b < 32 {
        None
    } else {
        match parse_string_body(s, i + 1) {
            None => None,
            Some((mut rest, j)) => {
                let ghost tail = rest@;
                rest.insert(0, b);
                proof {
                    assert(rest@ =~= seq![b] + tail);
                }
                Some((rest, j))
            },
        }
    }
}

fn key_data_at(s: &[u8], i: usize) -> (r: bool)
    requires
        i <= s@.len(),
    ensures
        r == spec_key_data_at(s@, i as int),
{
    s.len() - i >= 6 && s[i] == B_QUOTE && s[i + 1] == 100 && s[i + 2] == 97 && s[i + 3] == 116
        && s[i + 4] == 97 && s[i + 5] == B_QUOTE
}

fn key_dot_info_at(s: &[u8], i: usize) -> (r: bool)
    requires
        i <= s@.len(),
    ensures
        r == spec_key_dot_info_at(s@, i as int),
{
    s.len() - i >= 10 && s[i] == B_QUOTE && s[i + 1] == 100 && s[i + 2] == 111 && s[i + 3] == 116
        && s[i + 4] == 95 && s[i + 5] == 105 && s[i + 6] == 110 && s[i + 7] == 102 && s[i + 8]
        == 111 && s[i + 9] == B_QUOTE
}

fn null_at(s: &[u8], i: usize) -> (r: bool)
    requires
        i <= s@.len(),
    ensures
        r == spec_null_at(s@, i as int),
{
    s.len() - i >= 4 && s[i] == 110 && s[i + 1] == 117 && s[i + 2] == 108 && s[i + 3] == 108
}

fn closes_response(s: &[u8], i: usize) -> (r: bool)
    requires
        i <= s@.len(),
    ensures
        r == spec_closes_response(s@, i as int),
{
    let e = skip_ws(s, i);
    if at_byte(s, e, B_RBRACE) {
        let f = skip_ws(s, e + 1);
        f == s.len()
    } else {
        false
    }
}

fn parse_task_object(s: &[u8], i: usize) -> (r: Option<(Vec<u8>, usize)>)
    requires
        i <= s@.len(),
    ensures
        match r {
            Some(p) => {
                &&& spec_parse_task_object(s@, i as int) == Some((p.0@, p.1 as int))
                &&& p.1 <= s@.len()
            },
            None => spec_parse_task_object(s@, i as int) is None,
        },
{
    let k = skip_ws(s, i);
    if !key_dot_info_at(s, k) {
        return None;
    }
    let c = skip_ws(s, k + 10);
    if !at_byte(s, c, B_COLON) {
        return None;
    }
    let v = skip_ws(s, c + 1);
    if !at_byte(s, v, B_QUOTE) {
        return None;
    }
    match parse_string_body(s, v + 1) {
        None => None,
        Some((content, j)) => {
            let e = skip_ws(s, j);
            if at_byte(s, e, B_RBRACE) {
                Some((content, e + 1))
            } else {
                None
            }
        },
    }
}

/// Decode a response body: `Ok(None)` when the remote reports no active task,
/// `Ok(Some(dot))` when it carries the graph description `dot`, and
/// `Err(ParseError)` exactly when the body is not of the expected shape.
pub fn parse_response(body: &[u8]) -> (r: Result<Option<Vec<u8>>, ParseError>)
    ensures
        match r {
            Ok(found) => match found {
                Some(dot) => spec_parse_response(body@) == Some(Some(dot@)),
                None => spec_parse_response(body@) == Some(None::<Seq<u8>>),
            },
            Err(_) => spec_parse_response(body@) is None,
        },
{
    let i0 = skip_ws(body, 0);
    if !at_byte(body, i0, B_LBRACE) {
        return Err(ParseError);
    }
    let i1 = skip_ws(body, i0 + 1);
    if !key_data_at(body, i1) {
        return Err(ParseError);
    }
    let i2 = skip_ws(body, i1 + 6);
    if !at_byte(body, i2, B_COLON) {
        return Err(ParseError);
    }
    let i3 = skip_ws(body, i2 + 1);
    if null_at(body, i3) {
        if closes_response(body, i3 + 4) {
            Ok(None)
        } else {
            Err(ParseError)
        }
    } else if at_byte(body, i3, B_LBRACE) {
        match parse_task_object(body, i3 + 1) {
            Some((dot, j)) => {
                if closes_response(body, j) {
                    Ok(Some(dot))
                } else {
                    Err(ParseError)
                }
            },
            None => Err(ParseError),
        }
    } else {
        Err(ParseError)
    }
}

} // verus!
