//! The HTTP response model: a value type for a response, a constructor that
//! fills in the status text from a fixed table and a default header map, and
//! a serializer that emits the exact wire form
//! `<version> <code> <text>\r\n<headers>Content-Length: <n>\r\n\r\n<body>`,
//! where each header renders as `name:value\r\n` (no space after the colon)
//! and `Content-Length` is always computed from the body's byte length.

use vstd::prelude::*;
use vstd::utf8::encode_utf8;

use crate::headers::HeaderMap;
use crate::numdec::{dec_chars, dec_val, lemma_dec_chars_val, u64_to_dec};
use crate::strutil::str_eq;

verus! {

/// An HTTP response value. Created fresh per request, serialized, then
/// discarded.
#[derive(Debug, PartialEq, Clone)]
pub struct HttpResponse {
    pub version: String,
    pub status_code: String,
    pub status_text: String,
    pub headers: Option<HeaderMap>,
    pub body: Option<String>,
}

/// The status text for a status code: a fixed, closed table. A code outside
/// the table yields the empty string.
pub open spec fn status_text_of(code: Seq<char>) -> Seq<char> {
    if code == "200"@ {
        "OK"@
    } else if code == "400"@ {
        "Bad Request"@
    } else if code == "404"@ {
        "Not Found"@
    } else if code == "500"@ {
        "Internal Server Error"@
    } else {
        Seq::empty()
    }
}

/// The body characters a response serializes: its body string, or nothing.
pub open spec fn opt_body_view(b: Option<String>) -> Seq<char> {
    match b {
        Some(s) => s@,
        None => Seq::empty(),
    }
}

/// The rendered header block: each entry as `name:value` followed by CRLF,
/// in entry order.
pub open spec fn render_headers(hs: Seq<(Seq<char>, Seq<char>)>) -> Seq<char>
    decreases hs.len(),
{
    if hs.len() == 0 {
        Seq::empty()
    } else {
        hs[0].0 + ":"@ + hs[0].1 + "\r\n"@ + render_headers(hs.drop_first())
    }
}

/// The full wire form of a response with the given parts. `Content-Length`
/// is computed from the body's UTF-8 byte length, never taken from the
/// header entries.
pub open spec fn serial_of(
    version: Seq<char>,
    code: Seq<char>,
    text: Seq<char>,
    hs: Seq<(Seq<char>, Seq<char>)>,
    body: Seq<char>,
) -> Seq<char> {
    version + " "@ + code + " "@ + text + "\r\n"@ + render_headers(hs) + "Content-Length: "@
        + dec_chars(encode_utf8(body).len()) + "\r\n\r\n"@ + body
}

/// The wire form of a response value.
pub open spec fn response_serial(r: HttpResponse) -> Seq<char>
    recommends
        r.headers is Some,
{
    serial_of(r.version@, r.status_code@, r.status_text@, r.headers.unwrap()@, opt_body_view(r.body))
}

impl Default for HttpResponse {
    /// The response every construction starts from: protocol `HTTP/1.1`,
    /// status `200 OK`, no headers, no body.
    fn default() -> (d: HttpResponse)
        ensures
            d.version@ == "HTTP/1.1"@,
            d.status_code@ == "200"@,
            d.status_text@ == "OK"@,
            d.headers is None,
            d.body is None,
    {
        HttpResponse {
            version: String::from_str("HTTP/1.1"),
            status_code: String::from_str("200"),
            status_text: String::from_str("OK"),
            headers: None,
            body: None,
        }
    }
}

impl HttpResponse {
    /// Builds a response. The status text is derived from `status_code`
    /// through the fixed table (an unknown code yields an empty status
    /// text). When `headers` is absent the map defaults to a single
    /// `Content-Type: text/html` entry; a caller-supplied map is taken
    /// verbatim, not merged with the default.
    pub fn new(status_code: &str, headers: Option<HeaderMap>, body: Option<String>) -> (r:
        HttpResponse)
        ensures
            r.version@ == "HTTP/1.1"@,
            r.status_code@ == status_code@,
            r.status_text@ == status_text_of(status_code@),
            r.headers is Some,
            headers matches Some(h) ==> r.headers.unwrap()@ == h@,
            headers is None ==> r.headers.unwrap()@ == seq![("Content-Type"@, "text/html"@)],
            r.body is Some <==> body is Some,
            body matches Some(b) ==> r.body.unwrap()@ == b@,
    {
        let mut response = HttpResponse::default();
        if !str_eq(status_code, "200") {
            response.status_code = status_code.to_owned();
            response.status_text = if str_eq(status_code, "400") {
                String::from_str("Bad Request")
            } else if str_eq(status_code, "404") {
                String::from_str("Not Found")
            } else if str_eq(status_code, "500") {
                String::from_str("Internal Server Error")
            } else {
                proof {
                    reveal_strlit("");
                    assert(""@ =~= Seq::<char>::empty());
                }
                String::from_str("")
            };
        }
        response.headers = match headers {
            Some(h) => Some(h),
            None => {
                let mut h = HeaderMap::new();
                h.insert("Content-Type", "text/html");
                proof {
                    assert(Seq::<(Seq<char>, Seq<char>)>::empty().push(("Content-Type"@,
                    "text/html"@)) =~= seq![("Content-Type"@, "text/html"@)]);
                }
                Some(h)
            },
        };
        response.body = body;
        response
    }

    /// Serializes the response and appends its wire form to `write_stream`.
    /// The write itself is the transport's concern; this models it as an
    /// append to a growing output and always reports success.
    pub fn send_response(&self, write_stream: &mut String) -> (r: Result<(), ()>)
        requires
            self.headers is Some,
        ensures
            r is Ok,
            final(write_stream)@ == old(write_stream)@ + response_serial(*self),
    {
        let response_string = self.serialize();
        write_stream.append(response_string.as_str());
        Ok(())
    }

    /// The exact wire form of this response.
    pub fn serialize(&self) -> (s: String)
        requires
            self.headers is Some,
        ensures
            s@ == response_serial(*self),
    {
        let mut s = String::from_str(self.version.as_str());
        s.append(" ");
        s.append(self.status_code.as_str());
        s.append(" ");
        s.append(self.status_text.as_str());
        s.append("\r\n");
        let header_block = self.headers();
        s.append(header_block.as_str());
        s.append("Content-Length: ");
        let digits = u64_to_dec(self.content_length() as u64);
        s.append(digits.as_str());
        s.append("\r\n\r\n");
        match &self.body {
            Some(b) => s.append(b.as_str()),
            None => {
                proof {
                    assert(s@ + opt_body_view(self.body) =~= s@);
                }
            },
        }
        proof {
            assert(s@ =~= response_serial(*self));
        }
        s
    }

    /// The protocol version of this response.
    pub fn version(&self) -> (r: &str)
        ensures
            r@ == self.version@,
    {
        self.version.as_str()
    }

    /// The status code of this response.
    pub fn status_code(&self) -> (r: &str)
        ensures
            r@ == self.status_code@,
    {
        self.status_code.as_str()
    }

    /// The status text of this response.
    pub fn status_text(&self) -> (r: &str)
        ensures
            r@ == self.status_text@,
    {
        self.status_text.as_str()
    }

    /// The rendered header block, each entry as `name:value` and CRLF.
    pub fn headers(&self) -> (r: String)
        requires
            self.headers is Some,
        ensures
            r@ == render_headers(self.headers.unwrap()@),
    {
        match &self.headers {
            Some(hm) => {
                let r = render_from(hm, 0);
                proof {
                    assert(hm@.skip(0) =~= hm@);
                }
                r
            },
            None => String::new(),
        }
    }

    /// The body string, or the empty string when the response has none.
    pub fn body(&self) -> (r: &str)
        ensures
            r@ == opt_body_view(self.body),
    {
        match &self.body {
            Some(b) => b.as_str(),
            None => {
                proof {
                    reveal_strlit("");
                    assert(""@ =~= Seq::<char>::empty());
                }
                ""
            },
        }
    }

    /// The byte length of the body, the number the `Content-Length` header
    /// carries. Multi-byte characters count by their encoded bytes.
    fn content_length(&self) -> (n: usize)
        ensures
            n == encode_utf8(opt_body_view(self.body)).len(),
    {
        match &self.body {
            Some(b) => {
                let bytes = b.as_str().as_bytes();
                let n = bytes.len();
                proof {
                    assert(opt_body_view(self.body) == b@);
                    assert(bytes@ == encode_utf8(b@));
                }
                n
            },
            None => {
                proof {
                    assert(encode_utf8(Seq::<char>::empty()) =~= Seq::<u8>::empty());
                }
                0
            },
        }
    }
}

/// Renders the entries of `hm` from position `i` on.
fn render_from(hm: &HeaderMap, i: usize) -> (r: String)
    requires
        i <= hm@.len(),
    ensures
        r@ == render_headers(hm@.skip(i as int)),
    decreases hm@.len() - i,
{
    if i == hm.len() {
        proof {
            assert(hm@.skip(i as int) =~= Seq::<(Seq<char>, Seq<char>)>::empty());
        }
        String::new()
    } else {
        let mut s = String::from_str(hm.name_at(i));
        s.append(":");
        s.append(hm.value_at(i));
        s.append("\r\n");
        let rest = render_from(hm, i + 1);
        let whole = s.concat(rest.as_str());
        proof {
            assert(hm@.skip(i as int)[0] == hm@[i as int]);
            assert(hm@.skip(i as int).drop_first() =~= hm@.skip(i as int + 1));
        }
        whole
    }
}

/// A status code outside the fixed table always yields an empty status
/// text; the table never falls back to some other text.
pub proof fn lemma_unknown_status_text(code: Seq<char>)
    requires
        code != "200"@,
        code != "400"@,
        code != "404"@,
        code != "500"@,
    ensures
        status_text_of(code) == Seq::<char>::empty(),
{
}

/// In a serialized response the digits standing between `Content-Length: `
/// and the blank line denote exactly the byte length of the body — for
/// every body, multi-byte characters counted as bytes.
pub proof fn lemma_content_length_correct(
    version: Seq<char>,
    code: Seq<char>,
    text: Seq<char>,
    hs: Seq<(Seq<char>, Seq<char>)>,
    body: Seq<char>,
)
    ensures
        ({
            let n = encode_utf8(body).len();
            &&& serial_of(version, code, text, hs, body) == (version + " "@ + code + " "@ + text
                + "\r\n"@ + render_headers(hs) + "Content-Length: "@) + dec_chars(n) + (
            "\r\n\r\n"@ + body)
            &&& dec_val(dec_chars(n)) == n
        }),
{
    let n = encode_utf8(body).len();
    lemma_dec_chars_val(n);
    assert(serial_of(version, code, text, hs, body) =~= (version + " "@ + code + " "@ + text
        + "\r\n"@ + render_headers(hs) + "Content-Length: "@) + dec_chars(n) + ("\r\n\r\n"@
        + body));
}

} // verus!
