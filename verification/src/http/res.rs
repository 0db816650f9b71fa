//! Responses.

use vstd::prelude::*;
use vstd::string::StringSliceAdditionalSpecFns;
use crate::http::body::Body;
use crate::http::header::{with_field, wire, ContentType, Header, HeaderMap};
use crate::http::status::Status;
use crate::http::HttpError;

verus! {

/// What the head of a response parses to.
#[derive(Debug)]
pub enum Parsed {
    /// The head is whole: it takes the first `len` bytes and bears the
    /// status code `code`.
    Complete { len: usize, code: Option<u16> },
    /// The bytes end before the head does.
    Partial,
    /// The bytes are no response.
    Invalid(httparse::Error),
}

/// What `httparse::Response::parse` makes of the bytes, with room for 128
/// header fields.
pub uninterp spec fn parsed_head(bytes: Seq<u8>) -> Parsed;

/// Parses the head of a response with `httparse::Response::parse`, on 128
/// empty header fields. The parser reads the bytes and nothing else, so the
/// outcome is [`parsed_head`] of them; a complete head reports the number of
/// bytes it consumed, which the parser counts within the buffer.
#[verifier::external_body]
fn parse_head(buf: &[u8]) -> (parsed: Parsed)
    ensures
        parsed == parsed_head(buf@),
        parsed matches Parsed::Complete { len, .. } ==> len <= buf@.len(),
{
    let mut headers = [httparse::EMPTY_HEADER; 128];
    let mut res = httparse::Response::new(&mut headers);
    match res.parse(buf) {
        Ok(httparse::Status::Complete(len)) => Parsed::Complete { len, code: res.code },
        Ok(httparse::Status::Partial) => Parsed::Partial,
        Err(e) => Parsed::Invalid(e),
    }
}

/// The decimal digits of a number, as bytes.
pub open spec fn digits(n: nat) -> Seq<u8>
    decreases n,
{
    if n < 10 {
        seq![(48 + n) as u8]
    } else {
        digits(n / 10).push((48 + n % 10) as u8)
    }
}

/// The decimal digits of a number, as bytes.
pub fn decimal(n: usize) -> (bytes: Vec<u8>)
    ensures
        bytes@ == digits(n as nat),
    decreases n,
{
    if n < 10 {
        let mut bytes: Vec<u8> = Vec::new();
        bytes.push(48 + n as u8);
        assert(bytes@ =~= digits(n as nat));
        bytes
    } else {
        let mut bytes = decimal(n / 10);
        bytes.push(48 + (n % 10) as u8);
        bytes
    }
}

/// A response: a status, header fields and a body.
#[derive(Clone, Debug)]
pub struct Response {
    body: Body,
    status: Status,
    headers: HeaderMap,
}

/// What a [`Response`] holds.
pub struct ResponseView {
    pub body: Seq<u8>,
    pub status: Status,
    pub headers: Seq<(Header, Seq<u8>)>,
}

impl ResponseView {
    /// The response as it stands on the wire: the status line, the header
    /// fields, an empty line and the body.
    pub open spec fn wire(self) -> Seq<u8> {
        "HTTP/1.1 ".spec_bytes() + digits(self.status.number() as nat) + " ".spec_bytes()
            + vstd::utf8::encode_utf8(self.status.phrase()) + "\r\n".spec_bytes() + wire(
            self.headers,
        ) + "\r\n".spec_bytes() + self.body
    }

    /// What a parsed head and the bytes it was parsed from make: the status
    /// of the code and the bytes behind the head as the body, without header
    /// fields; or the reason why there is no response.
    pub open spec fn read(bytes: Seq<u8>, parsed: Parsed) -> Result<ResponseView, HttpError> {
        match parsed {
            Parsed::Invalid(e) => Err(HttpError::Malformed(e)),
            Parsed::Partial => Err(HttpError::Incomplete),
            Parsed::Complete { len, code: None } => Err(HttpError::NoStatusCode),
            Parsed::Complete { len, code: Some(code) } => if Status::known(code) {
                Ok(
                    ResponseView {
                        body: bytes.skip(len as int),
                        status: choose|s: Status| s.number() == code,
                        headers: Seq::empty(),
                    },
                )
            } else {
                Err(HttpError::UnknownStatus(code))
            },
        }
    }
}

/// Whether a result of reading is what was to be made.
pub open spec fn reads_as(r: Result<Response, HttpError>, expected: Result<ResponseView, HttpError>) -> bool {
    match r {
        Ok(res) => expected == Ok::<ResponseView, HttpError>(res@),
        Err(e) => expected == Err::<ResponseView, HttpError>(e),
    }
}

impl View for Response {
    type V = ResponseView;

    closed spec fn view(&self) -> ResponseView {
        ResponseView { body: self.body@, status: self.status, headers: self.headers@ }
    }
}

impl Response {
    /// Reads a response from the bytes of a message. The header fields are
    /// not kept.
    pub fn from_raw(buf: &[u8]) -> (r: Result<Response, HttpError>)
        ensures
            reads_as(r, ResponseView::read(buf@, parsed_head(buf@))),
    {
        Response::from_parsed(buf, parse_head(buf))
    }

    /// Makes a response of a parsed head and the bytes it was parsed from.
    pub fn from_parsed(buf: &[u8], parsed: Parsed) -> (r: Result<Response, HttpError>)
        requires
            parsed matches Parsed::Complete { len, .. } ==> len <= buf@.len(),
        ensures
            reads_as(r, ResponseView::read(buf@, parsed)),
    {
        let (body_pos, code) = match parsed {
            Parsed::Complete { len, code } => (len, code),
            Parsed::Partial => {
                return Err(HttpError::Incomplete);
            },
            Parsed::Invalid(e) => {
                return Err(HttpError::Malformed(e));
            },
        };
        let code = match code {
            Some(code) => code,
            None => {
                return Err(HttpError::NoStatusCode);
            },
        };
        let status = match Status::from_code(code) {
            Ok(status) => status,
            Err(e) => {
                return Err(e);
            },
        };
        proof {
            let chosen = choose|s: Status| s.number() == code;
            crate::http::status::lemma_code_names_one_status(status, chosen);
        }
        let body = vstd::slice::slice_subrange(buf, body_pos, buf.len());
        assert(body@ =~= buf@.skip(body_pos as int));
        Ok(Response { body: Body::from_raw(body), status, headers: HeaderMap::new() })
    }

    /// Replaces the body and sets the length field to its length.
    pub fn set_body(&mut self, body: Body)
        ensures
            final(self)@ == (ResponseView {
                body: body@,
                headers: with_field(
                    old(self)@.headers,
                    Header::ContentLength,
                    digits(body@.len()),
                ),
                ..old(self)@
            }),
    {
        self.body = body;
        let length = decimal(self.body.len());
        self.headers.set_bytes(Header::ContentLength, length.as_slice());
    }

    /// A response that sends the reader on to `url`.
    pub fn redirect(url: &str) -> (res: Response)
        ensures
            res@ == (ResponseView {
                body: Seq::empty(),
                status: Status::SeeOther,
                headers: seq![(Header::Location, url.spec_bytes())],
            }),
    {
        let mut headers = HeaderMap::new();
        headers.set(Header::Location, url);
        assert(headers@ =~= seq![(Header::Location, url.spec_bytes())]);
        Response { body: Body::empty(), status: Status::SeeOther, headers }
    }

    /// A response with a body of the given type; the length and type fields
    /// are set, in this order.
    pub fn new(status: Status, t: ContentType, body: &[u8]) -> (res: Response)
        ensures
            res@ == (ResponseView {
                body: body@,
                status,
                headers: seq![
                    (Header::ContentLength, digits(body@.len())),
                    (Header::ContentType, vstd::utf8::encode_utf8(t.media_type())),
                ],
            }),
    {
        let mut headers = HeaderMap::new();
        let length = decimal(body.len());
        headers.set_bytes(Header::ContentLength, length.as_slice());
        headers.set(Header::ContentType, t.as_str());
        proof {
            reveal_with_fuel(crate::http::header::position, 3);
            assert(headers@ =~= seq![
                (Header::ContentLength, digits(body@.len())),
                (Header::ContentType, vstd::utf8::encode_utf8(t.media_type())),
            ]);
        }
        Response { body: Body::from_raw(body), status, headers }
    }

    pub fn body(&self) -> (b: &Body)
        ensures
            b@ == self@.body,
    {
        &self.body
    }

    pub fn status(&self) -> (s: Status)
        ensures
            s == self@.status,
    {
        self.status
    }

    pub fn set_header(&mut self, key: Header, value: &str)
        ensures
            final(self)@ == (ResponseView {
                headers: with_field(old(self)@.headers, key, value.spec_bytes()),
                ..old(self)@
            }),
    {
        self.headers.set(key, value);
    }

    pub fn headers(&self) -> (h: &HeaderMap)
        ensures
            h@ == self@.headers,
    {
        &self.headers
    }

    /// The response as it stands on the wire.
    pub fn message(&self) -> (m: Vec<u8>)
        ensures
            m@ == self@.wire(),
    {
        let mut m: Vec<u8> = Vec::new();
        let status = self.status();
        let code = decimal(status.code() as usize);
        let reason = status.reason().as_bytes();
        let fields = self.headers.to_bytes();
        m.extend_from_slice("HTTP/1.1 ".as_bytes());
        m.extend_from_slice(code.as_slice());
        m.extend_from_slice(" ".as_bytes());
        m.extend_from_slice(reason);
        m.extend_from_slice("\r\n".as_bytes());
        m.extend_from_slice(fields.as_slice());
        m.extend_from_slice("\r\n".as_bytes());
        m.extend_from_slice(self.body.as_bytes());
        assert(m@ =~= self@.wire());
        m
    }
}

} // verus!
