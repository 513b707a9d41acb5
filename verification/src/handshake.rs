//! The handshake grammar and its parser.
//!
//! The first frame of every connection carries one JSON object with
//! exactly two members, `"method"` and `"topic"`, in either order:
//! `{"method": "publish" | "subscribe", "topic": "<name>"}`.
//! Both values are JSON strings; the topic may be empty. Whitespace is
//! tolerated anywhere between tokens, and string values may use the
//! single-character escapes `\" \\ \/ \b \f \n \r \t`. Raw control
//! characters inside a string are rejected.
//!
//! The grammar is stated by the spec functions below ([`handshake_parse`]
//! being the entry point), and the executable parser is proved to return
//! exactly what the grammar gives.

use crate::client_type::ClientType;
use vstd::prelude::*;
use vstd::string::StrSliceExecFns;

verus! {

/// JSON insignificant whitespace.
pub open spec fn is_json_ws(c: char) -> bool {
    c == ' ' || c == '\t' || c == '\n' || c == '\r'
}

/// Index of the first non-whitespace character at or after `i`.
pub open spec fn ws_end(s: Seq<char>, i: int) -> int
    decreases s.len() - i,
{
    if 0 <= i < s.len() && is_json_ws(s[i]) {
        ws_end(s, i + 1)
    } else {
        i
    }
}

/// The character denoted by the escape `\c`, if `\c` is a valid escape.
pub open spec fn escape_char(c: char) -> Option<char> {
    if c == '"' {
        Some('"')
    } else if c == '\\' {
        Some('\\')
    } else if c == '/' {
        Some('/')
    } else if c == 'b' {
        Some('\u{8}')
    } else if c == 'f' {
        Some('\u{c}')
    } else if c == 'n' {
        Some('\n')
    } else if c == 'r' {
        Some('\r')
    } else if c == 't' {
        Some('\t')
    } else {
        None
    }
}

/// Parse a string body beginning at `i` (just after the opening quote):
/// the decoded content and the index just after the closing quote.
pub open spec fn string_body_end(s: Seq<char>, i: int) -> Option<(Seq<char>, int)>
    decreases s.len() - i,
{
    if i < 0 || i >= s.len() {
        None
    } else if s[i] == '"' {
        Some((Seq::empty(), i + 1))
    } else if s[i] == '\\' {
        if i + 1 < s.len() {
            match escape_char(s[i + 1]) {
                Some(c) => match string_body_end(s, i + 2) {
                    Some((rest, e)) => Some((seq![c] + rest, e)),
                    None => None,
                },
                None => None,
            }
        } else {
            None
        }
    } else if (s[i] as u32) < 32 {
        None
    } else {
        match string_body_end(s, i + 1) {
            Some((rest, e)) => Some((seq![s[i]] + rest, e)),
            None => None,
        }
    }
}

/// Parse one object member beginning at `i`: a quoted key, a colon and a
/// quoted value, with whitespace around the colon. Yields the decoded
/// key, the decoded value, and the index just after the value.
pub open spec fn member_end(s: Seq<char>, i: int) -> Option<(Seq<char>, Seq<char>, int)> {
    if 0 <= i < s.len() && s[i] == '"' {
        match string_body_end(s, i + 1) {
            Some((key, j)) => {
                let j2 = ws_end(s, j);
                if j2 < s.len() && s[j2] == ':' {
                    let j3 = ws_end(s, j2 + 1);
                    if j3 < s.len() && s[j3] == '"' {
                        match string_body_end(s, j3 + 1) {
                            Some((value, e)) => Some((key, value, e)),
                            None => None,
                        }
                    } else {
                        None
                    }
                } else {
                    None
                }
            },
            None => None,
        }
    } else {
        None
    }
}

/// The client role denoted by a `method` value.
pub open spec fn method_of(v: Seq<char>) -> Option<ClientType> {
    if v == "publish"@ {
        Some(ClientType::Publisher)
    } else if v == "subscribe"@ {
        Some(ClientType::Subscriber)
    } else {
        None
    }
}

/// Interpret the two members of the handshake object, in either order.
pub open spec fn fields_to_handshake(
    k1: Seq<char>,
    v1: Seq<char>,
    k2: Seq<char>,
    v2: Seq<char>,
) -> Option<(ClientType, Seq<char>)> {
    if k1 == "method"@ && k2 == "topic"@ {
        match method_of(v1) {
            Some(ct) => Some((ct, v2)),
            None => None,
        }
    } else if k1 == "topic"@ && k2 == "method"@ {
        match method_of(v2) {
            Some(ct) => Some((ct, v1)),
            None => None,
        }
    } else {
        None
    }
}

/// The handshake grammar: what one whole line (delimiter already
/// stripped) means, or `None` if it is not a well-formed handshake.
pub open spec fn handshake_parse(s: Seq<char>) -> Option<(ClientType, Seq<char>)> {
    let i = ws_end(s, 0);
    if i < s.len() && s[i] == '{' {
        match member_end(s, ws_end(s, i + 1)) {
            Some((k1, v1, j)) => {
                let j2 = ws_end(s, j);
                if j2 < s.len() && s[j2] == ',' {
                    match member_end(s, ws_end(s, j2 + 1)) {
                        Some((k2, v2, e)) => {
                            let e2 = ws_end(s, e);
                            if e2 < s.len() && s[e2] == '}' && ws_end(s, e2 + 1) == s.len() {
                                fields_to_handshake(k1, v1, k2, v2)
                            } else {
                                None
                            }
                        },
                        None => None,
                    }
                } else {
                    None
                }
            },
            None => None,
        }
    } else {
        None
    }
}

/// `string_body_end` with the already-decoded prefix `pre` put in front
/// of the content; the shape of the executable parser's loop invariant.
pub open spec fn prepend_opt(pre: Seq<char>, r: Option<(Seq<char>, int)>) -> Option<
    (Seq<char>, int),
> {
    match r {
        Some((content, end)) => Some((pre + content, end)),
        None => None,
    }
}

/// Skip insignificant whitespace starting at `start`.
fn skip_ws(s: &str, start: usize) -> (j: usize)
    requires
        start <= s@.len(),
    ensures
        j == ws_end(s@, start as int),
        start <= j <= s@.len(),
{
    let n = s.unicode_len();
    let mut j: usize = start;
    loop
        invariant
            start <= j <= s@.len(),
            n == s@.len(),
            ws_end(s@, start as int) == ws_end(s@, j as int),
        ensures
            start <= j <= s@.len(),
            j == ws_end(s@, start as int),
        decreases s@.len() - j,
    {
        if j == n {
            break ;
        }
        let c = s.get_char(j);
        if !(c == ' ' || c == '\t' || c == '\n' || c == '\r') {
            break ;
        }
        j += 1;
    }
    j
}

/// The character denoted by the escape `\c`, executably.
fn unescape_char(c: char) -> (r: Option<char>)
    ensures
        r == escape_char(c),
{
    if c == '"' {
        Some('"')
    } else if c == '\\' {
        Some('\\')
    } else if c == '/' {
        Some('/')
    } else if c == 'b' {
        Some('\u{8}')
    } else if c == 'f' {
        Some('\u{c}')
    } else if c == 'n' {
        Some('\n')
    } else if c == 'r' {
        Some('\r')
    } else if c == 't' {
        Some('\t')
    } else {
        None
    }
}

/// Parse a string body beginning at `start` (just after the opening
/// quote), decoding escapes, exactly as [`string_body_end`] states.
fn parse_string_body(s: &str, start: usize) -> (r: Option<(Vec<char>, usize)>)
    requires
        start <= s@.len(),
    ensures
        match string_body_end(s@, start as int) {
            Some((content, e)) => {
                &&& (r matches Some(p) && p.0@ == content && p.1 == e)
                &&& start < e <= s@.len()
            },
            None => r is None,
        },
{
    let n = s.unicode_len();
    let mut acc: Vec<char> = Vec::new();
    let mut k: usize = start;
    loop
        invariant
            start <= k <= s@.len(),
            n == s@.len(),
            string_body_end(s@, start as int) == prepend_opt(acc@, string_body_end(s@, k as int)),
        decreases s@.len() - k,
    {
        if k == n {
            return None;
        }
        let c = s.get_char(k);
        if c == '"' {
            proof {
                assert(acc@ + Seq::<char>::empty() =~= acc@);
            }
            return Some((acc, k + 1));
        } else if c == '\\' {
            if k + 1 == n {
                return None;
            }
            let c2 = s.get_char(k + 1);
            match unescape_char(c2) {
                None => {
                    return None;
                },
                Some(ec) => {
                    proof {
                        match string_body_end(s@, k + 2 as int) {
                            Some((rest, e)) => {
                                assert(acc@ + (seq![ec] + rest) =~= acc@.push(ec) + rest);
                            },
                            None => {},
                        }
                    }
                    acc.push(ec);
                    k += 2;
                },
            }
        } else if (c as u32) < 32 {
            return None;
        } else {
            proof {
                match string_body_end(s@, k + 1 as int) {
                    Some((rest, e)) => {
                        assert(acc@ + (seq![c] + rest) =~= acc@.push(c) + rest);
                    },
                    None => {},
                }
            }
            acc.push(c);
            k += 1;
        }
    }
}

/// Parse one object member beginning at `i`, exactly as [`member_end`]
/// states.
fn parse_member(s: &str, i: usize) -> (r: Option<(Vec<char>, Vec<char>, usize)>)
    requires
        i <= s@.len(),
    ensures
        match member_end(s@, i as int) {
            Some((key, value, e)) => {
                &&& (r matches Some(p) && p.0@ == key && p.1@ == value && p.2 == e)
                &&& i < e <= s@.len()
            },
            None => r is None,
        },
{
    let n = s.unicode_len();
    if i == n || s.get_char(i) != '"' {
        return None;
    }
    let (key, j) = match parse_string_body(s, i + 1) {
        None => {
            return None;
        },
        Some(p) => p,
    };
    let j2 = skip_ws(s, j);
    if j2 == n || s.get_char(j2) != ':' {
        return None;
    }
    let j3 = skip_ws(s, j2 + 1);
    if j3 == n || s.get_char(j3) != '"' {
        return None;
    }
    match parse_string_body(s, j3 + 1) {
        None => None,
        Some((value, e)) => Some((key, value, e)),
    }
}

/// Whether the characters of `v` are exactly the characters of `lit`.
fn chars_eq_str(v: &Vec<char>, lit: &str) -> (r: bool)
    ensures
        r == (v@ == lit@),
{
    let n = lit.unicode_len();
    if v.len() != n {
        return false;
    }
    let mut i: usize = 0;
    while i < n
        invariant
            0 <= i <= n,
            n == lit@.len(),
            v@.len() == n,
            forall|k: int| 0 <= k < i ==> v@[k] == lit@[k],
        decreases n - i,
    {
        if v[i] != lit.get_char(i) {
            return false;
        }
        i += 1;
    }
    proof {
        assert(v@ =~= lit@);
    }
    true
}

/// Classify a decoded `method` value, exactly as [`method_of`] states.
fn parse_method(v: &Vec<char>) -> (r: Option<ClientType>)
    ensures
        r == method_of(v@),
{
    if chars_eq_str(v, "publish") {
        Some(ClientType::Publisher)
    } else if chars_eq_str(v, "subscribe") {
        Some(ClientType::Subscriber)
    } else {
        None
    }
}

/// Parse one whole handshake line (delimiter already stripped) into the
/// declared role and the topic's characters, exactly as
/// [`handshake_parse`] states.
pub fn parse_handshake_line(s: &str) -> (r: Option<(ClientType, Vec<char>)>)
    ensures
        match handshake_parse(s@) {
            Some((ct, topic)) => r matches Some(p) && p.0 == ct && p.1@ == topic,
            None => r is None,
        },
{
    let n = s.unicode_len();
    let i = skip_ws(s, 0);
    if i == n || s.get_char(i) != '{' {
        return None;
    }
    let m1 = skip_ws(s, i + 1);
    let (k1, v1, j) = match parse_member(s, m1) {
        None => {
            return None;
        },
        Some(p) => p,
    };
    let j2 = skip_ws(s, j);
    if j2 == n || s.get_char(j2) != ',' {
        return None;
    }
    let m2 = skip_ws(s, j2 + 1);
    let (k2, v2, e) = match parse_member(s, m2) {
        None => {
            return None;
        },
        Some(p) => p,
    };
    let e2 = skip_ws(s, e);
    if e2 == n || s.get_char(e2) != '}' {
        return None;
    }
    if skip_ws(s, e2 + 1) != n {
        return None;
    }
    if chars_eq_str(&k1, "method") && chars_eq_str(&k2, "topic") {
        match parse_method(&v1) {
            Some(ct) => Some((ct, v2)),
            None => None,
        }
    } else if chars_eq_str(&k1, "topic") && chars_eq_str(&k2, "method") {
        match parse_method(&v2) {
            Some(ct) => Some((ct, v1)),
            None => None,
        }
    } else {
        None
    }
}

} // verus!
