//! The HTTP request model and its parser. A raw, possibly zero-padded text
//! buffer is decomposed into a request line (method, resource, version), a
//! header block, and a body; parsing never fails — a missing or malformed
//! part degrades to an uninitialized variant, an empty string, or a skipped
//! header line.
//!
//! Lines end with CRLF. The head ends at the first blank line (CRLF CRLF);
//! everything after it is the body, taken verbatim. Request-line tokens are
//! separated by single spaces. A header line is split at its first colon and
//! the value is trimmed; a line without a colon is skipped.

use vstd::prelude::*;

use crate::headers::{add_header, HeaderMap};
use crate::strutil::{
    find_char, find_char_from, find_crlf, find_crlf_from, find_crlfcrlf, find_crlfcrlf_from,
    lemma_find_char_from, lemma_find_crlf_from, lemma_find_crlfcrlf_from, str_eq, trim, trim_nuls,
    trim_trailing_nuls, trim_ws,
};

verus! {

/// The request method: the two verbs this core knows, and a stand-in for
/// every other first token.
#[derive(Debug, PartialEq, Eq, Structural, Clone, Copy)]
pub enum HttpMethod {
    Get,
    Post,
    Uninitialized,
}

/// The protocol version named in the request line, or a stand-in for an
/// unrecognized one.
#[derive(Debug, PartialEq, Eq, Structural, Clone, Copy)]
pub enum Version {
    V1_1,
    V2_0,
    Uninitialized,
}

/// The request target: the path token, captured verbatim (a query string
/// stays part of it).
#[derive(Debug, PartialEq, Clone)]
pub struct Resource {
    pub path: String,
}

/// A parsed HTTP request. Never partially populated: every buffer parses to
/// some request value.
#[derive(Debug, PartialEq, Clone)]
pub struct HttpRequest {
    pub method: HttpMethod,
    pub version: Version,
    pub resource: Resource,
    pub headers: HeaderMap,
    pub msg_body: String,
}

/// The buffer's head: everything before the first blank line, with trailing
/// NUL padding already stripped; the whole trimmed buffer when no blank line
/// stands in it.
pub open spec fn head_of(buf: Seq<char>) -> Seq<char> {
    let t = trim_trailing_nuls(buf);
    match find_crlfcrlf_from(t, 0) {
        Some(i) => t.take(i),
        None => t,
    }
}

/// The body: everything after the first blank line, verbatim; empty when no
/// blank line stands in the buffer.
pub open spec fn body_of(buf: Seq<char>) -> Seq<char> {
    let t = trim_trailing_nuls(buf);
    match find_crlfcrlf_from(t, 0) {
        Some(i) => t.skip(i + 4),
        None => Seq::empty(),
    }
}

/// The request line: the head up to its first CRLF, or the whole head.
pub open spec fn request_line_of(buf: Seq<char>) -> Seq<char> {
    let h = head_of(buf);
    match find_crlf_from(h, 0) {
        Some(i) => h.take(i),
        None => h,
    }
}

/// The header block: the head after the request line's CRLF; empty when the
/// head holds a single line.
pub open spec fn header_block_of(buf: Seq<char>) -> Seq<char> {
    let h = head_of(buf);
    match find_crlf_from(h, 0) {
        Some(i) => h.skip(i + 2),
        None => Seq::empty(),
    }
}

/// The token before the first space of `s`, or all of `s`.
pub open spec fn first_token_of(s: Seq<char>) -> Seq<char> {
    match find_char_from(s, ' ', 0) {
        Some(i) => s.take(i),
        None => s,
    }
}

/// What follows the first space of `s`; empty when `s` holds none.
pub open spec fn after_first_token(s: Seq<char>) -> Seq<char> {
    match find_char_from(s, ' ', 0) {
        Some(i) => s.skip(i + 1),
        None => Seq::empty(),
    }
}

/// The method a first token denotes: exactly "GET" or "POST", anything else
/// is the uninitialized variant.
pub open spec fn method_of_token(t: Seq<char>) -> HttpMethod {
    if t == "GET"@ {
        HttpMethod::Get
    } else if t == "POST"@ {
        HttpMethod::Post
    } else {
        HttpMethod::Uninitialized
    }
}

/// The version a third token denotes; anything unrecognized is the
/// uninitialized variant.
pub open spec fn version_of_token(t: Seq<char>) -> Version {
    if t == "HTTP/1.1"@ {
        Version::V1_1
    } else if t == "HTTP/2.0"@ {
        Version::V2_0
    } else {
        Version::Uninitialized
    }
}

/// The parsed method of a buffer: the request line's first token.
pub open spec fn method_of(buf: Seq<char>) -> HttpMethod {
    method_of_token(first_token_of(request_line_of(buf)))
}

/// The parsed resource path of a buffer: the request line's second token,
/// verbatim; empty when the line holds fewer than two tokens.
pub open spec fn resource_of(buf: Seq<char>) -> Seq<char> {
    first_token_of(after_first_token(request_line_of(buf)))
}

/// The parsed version of a buffer: the request line's third token.
pub open spec fn version_of(buf: Seq<char>) -> Version {
    version_of_token(first_token_of(after_first_token(after_first_token(request_line_of(buf)))))
}

/// The header block split at each CRLF into lines.
pub open spec fn split_lines(s: Seq<char>) -> Seq<Seq<char>>
    decreases s.len(),
{
    match find_crlf_from(s, 0) {
        Some(i) => if 0 <= i && i + 2 <= s.len() {
            seq![s.take(i)] + split_lines(s.skip(i + 2))
        } else {
            seq![s]
        },
        None => seq![s],
    }
}

/// One header line folded into the entries: split at the first colon, the
/// value trimmed; a line without a colon changes nothing.
pub open spec fn add_line(
    acc: Seq<(Seq<char>, Seq<char>)>,
    line: Seq<char>,
) -> Seq<(Seq<char>, Seq<char>)> {
    match find_char_from(line, ':', 0) {
        Some(i) => add_header(acc, line.take(i), trim_ws(line.skip(i + 1))),
        None => acc,
    }
}

/// The header lines folded into entries, in order.
pub open spec fn header_entries(
    lines: Seq<Seq<char>>,
    acc: Seq<(Seq<char>, Seq<char>)>,
) -> Seq<(Seq<char>, Seq<char>)>
    decreases lines.len(),
{
    if lines.len() == 0 {
        acc
    } else {
        header_entries(lines.drop_first(), add_line(acc, lines[0]))
    }
}

/// The parsed header entries of a buffer.
pub open spec fn headers_of(buf: Seq<char>) -> Seq<(Seq<char>, Seq<char>)> {
    header_entries(split_lines(header_block_of(buf)), Seq::empty())
}

/// Folding a first line then the rest equals folding all the lines.
proof fn lemma_header_entries_cons(
    l: Seq<char>,
    ls: Seq<Seq<char>>,
    acc: Seq<(Seq<char>, Seq<char>)>,
)
    ensures
        header_entries(seq![l] + ls, acc) == header_entries(ls, add_line(acc, l)),
{
    let s = seq![l] + ls;
    assert(s.len() > 0);
    assert(s[0] == l);
    assert(s.drop_first() =~= ls);
}

/// Splits `s` at its first space: the token before it, and the rest after
/// it (empty when `s` holds no space).
fn split_token(s: &str) -> (r: (&str, &str))
    ensures
        r.0@ == first_token_of(s@),
        r.1@ == after_first_token(s@),
{
    let n = s.unicode_len();
    match find_char(s, ' ') {
        Some(i) => {
            proof {
                lemma_find_char_from(s@, ' ', 0);
            }
            let tok = s.substring_char(0, i);
            let rest = s.substring_char(i + 1, n);
            proof {
                assert(tok@ =~= first_token_of(s@));
                assert(rest@ =~= after_first_token(s@));
            }
            (tok, rest)
        },
        None => {
            proof {
                reveal_strlit("");
                assert(""@ =~= Seq::<char>::empty());
            }
            (s, "")
        },
    }
}

/// Folds one header line into the map.
fn add_header_line(hm: &mut HeaderMap, line: &str)
    ensures
        final(hm)@ == add_line(old(hm)@, line@),
{
    let n = line.unicode_len();
    match find_char(line, ':') {
        Some(i) => {
            proof {
                lemma_find_char_from(line@, ':', 0);
            }
            let name = line.substring_char(0, i);
            let value = trim(line.substring_char(i + 1, n));
            hm.insert(name, value);
            proof {
                assert(name@ =~= line@.take(i as int));
                assert(line@.subrange(i as int + 1, line@.len() as int) =~= line@.skip(
                    i as int + 1,
                ));
            }
        },
        None => {},
    }
}

impl HttpRequest {
    /// Parses a raw request buffer. Never fails: every field of the result
    /// is pinned by the decomposition spec functions, down to the
    /// uninitialized variants and empty strings for missing parts.
    pub fn parse(buf: &str) -> (r: HttpRequest)
        ensures
            r.method == method_of(buf@),
            r.version == version_of(buf@),
            r.resource.path@ == resource_of(buf@),
            r.headers@ == headers_of(buf@),
            r.msg_body@ == body_of(buf@),
    {
        let t = trim_nuls(buf);
        let tn = t.unicode_len();
        let (head, body): (&str, String) = match find_crlfcrlf(t) {
            Some(i) => {
                proof {
                    lemma_find_crlfcrlf_from(t@, 0);
                }
                let h = t.substring_char(0, i);
                let b = String::from_str(t.substring_char(i + 4, tn));
                proof {
                    assert(h@ =~= head_of(buf@));
                    assert(b@ =~= body_of(buf@));
                }
                (h, b)
            },
            None => {
                proof {
                    assert(t@ =~= head_of(buf@));
                    assert(body_of(buf@) =~= Seq::<char>::empty());
                }
                (t, String::new())
            },
        };
        let hn = head.unicode_len();
        let (req_line, hdr_block): (&str, &str) = match find_crlf(head) {
            Some(i) => {
                proof {
                    lemma_find_crlf_from(head@, 0);
                }
                let rl = head.substring_char(0, i);
                let hb = head.substring_char(i + 2, hn);
                proof {
                    assert(rl@ =~= request_line_of(buf@));
                    assert(hb@ =~= header_block_of(buf@));
                }
                (rl, hb)
            },
            None => {
                proof {
                    reveal_strlit("");
                    assert(""@ =~= Seq::<char>::empty());
                    assert(head@ =~= request_line_of(buf@));
                }
                (head, "")
            },
        };
        let (method_tok, rest1) = split_token(req_line);
        let (resource_tok, rest2) = split_token(rest1);
        let (version_tok, _rest3) = split_token(rest2);
        let method = if str_eq(method_tok, "GET") {
            HttpMethod::Get
        } else if str_eq(method_tok, "POST") {
            HttpMethod::Post
        } else {
            HttpMethod::Uninitialized
        };
        let version = if str_eq(version_tok, "HTTP/1.1") {
            Version::V1_1
        } else if str_eq(version_tok, "HTTP/2.0") {
            Version::V2_0
        } else {
            Version::Uninitialized
        };
        let resource = Resource { path: resource_tok.to_owned() };
        let mut headers = HeaderMap::new();
        let ghost target = header_entries(split_lines(hdr_block@), Seq::empty());
        let mut rest: &str = hdr_block;
        let mut more = true;
        while more
            invariant
                more ==> header_entries(split_lines(rest@), headers@) == target,
                !more ==> headers@ == target,
            decreases rest@.len() + (if more { 1int } else { 0int }),
        {
            let ghost acc0 = headers@;
            match find_crlf(rest) {
                Some(i) => {
                    proof {
                        lemma_find_crlf_from(rest@, 0);
                    }
                    let ghost rest0 = rest@;
                    let rn = rest.unicode_len();
                    let line = rest.substring_char(0, i);
                    add_header_line(&mut headers, line);
                    rest = rest.substring_char(i + 2, rn);
                    proof {
                        assert(line@ =~= rest0.take(i as int));
                        assert(rest@ =~= rest0.skip(i as int + 2));
                        assert(split_lines(rest0) == seq![line@] + split_lines(rest@));
                        lemma_header_entries_cons(line@, split_lines(rest@), acc0);
                    }
                },
                None => {
                    add_header_line(&mut headers, rest);
                    more = false;
                    proof {
                        assert(split_lines(rest@) =~= seq![rest@]);
                        lemma_header_entries_cons(rest@, Seq::empty(), acc0);
                        assert(seq![rest@] + Seq::<Seq<char>>::empty() =~= seq![rest@]);
                        assert(header_entries(Seq::empty(), add_line(acc0, rest@)) == add_line(
                            acc0,
                            rest@,
                        ));
                    }
                },
            }
        }
        HttpRequest { method, version, resource, headers, msg_body: body }
    }
}

/// The parsed method matches the request line's first token when that token
/// is exactly "GET" or "POST", and is the uninitialized variant for every
/// other token — for every buffer, however many tokens its request line
/// holds.
pub proof fn lemma_method_from_first_token(buf: Seq<char>)
    ensures
        first_token_of(request_line_of(buf)) == "GET"@ ==> method_of(buf) == HttpMethod::Get,
        first_token_of(request_line_of(buf)) == "POST"@ ==> method_of(buf) == HttpMethod::Post,
        first_token_of(request_line_of(buf)) != "GET"@ && first_token_of(request_line_of(buf))
            != "POST"@ ==> method_of(buf) == HttpMethod::Uninitialized,
{
    reveal_strlit("GET");
    reveal_strlit("POST");
    assert("GET"@.len() != "POST"@.len());
}

/// The parsed body is exactly what stands after the first blank line of the
/// trimmed buffer, and empty when no blank line stands in it.
pub proof fn lemma_body_after_separator(buf: Seq<char>)
    ensures
        ({
            let t = trim_trailing_nuls(buf);
            match find_crlfcrlf_from(t, 0) {
                Some(i) => body_of(buf) == t.skip(i + 4),
                None => body_of(buf) == Seq::<char>::empty(),
            }
        }),
{
}

} // verus!
