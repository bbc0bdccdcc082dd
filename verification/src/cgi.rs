//! Reading a script's output as a CGI response: a block of headers, a blank
//! line, and a body. The status comes in a `Status` header.

use crate::pool::{is_response_error, Error, ScriptOutput};
use crate::text::str_eq;
use vstd::prelude::*;

verus! {

/// One header line: its name and the bytes of its value.
#[derive(Debug)]
pub struct Header {
    pub name: String,
    pub value: Vec<u8>,
}

impl View for Header {
    type V = (Seq<char>, Seq<u8>);

    open spec fn view(&self) -> (Seq<char>, Seq<u8>) {
        (self.name@, self.value@)
    }
}

/// The headers of a list, each taken by its view.
pub open spec fn header_views(headers: Seq<Header>) -> Seq<(Seq<char>, Seq<u8>)> {
    headers.map_values(|h: Header| h@)
}

/// What an HTTP parser makes of the head of a response.
#[derive(Debug)]
pub enum HeadParse {
    /// The text ends before the blank line that closes the headers.
    Partial,
    /// The head takes up the first `size` bytes and holds `headers`, in the
    /// order of the text.
    Complete { size: usize, headers: Vec<Header> },
    /// The text is no HTTP response; `reason` says why.
    Invalid { reason: String },
}

/// The mathematical value of a `HeadParse`.
pub enum HeadModel {
    Partial,
    Complete { size: nat, headers: Seq<(Seq<char>, Seq<u8>)> },
    Invalid { reason: Seq<char> },
}

impl View for HeadParse {
    type V = HeadModel;

    open spec fn view(&self) -> HeadModel {
        match self {
            HeadParse::Partial => HeadModel::Partial,
            HeadParse::Complete { size, headers } => HeadModel::Complete {
                size: *size as nat,
                headers: header_views(headers@),
            },
            HeadParse::Invalid { reason } => HeadModel::Invalid { reason: reason@ },
        }
    }
}

/// What `httparse` makes of `bytes` when it reads them as an HTTP response
/// with room for 64 headers.
pub uninterp spec fn http_head(bytes: Seq<u8>) -> HeadModel;

/// Reads the head of an HTTP response with `httparse::Response::parse`, into
/// 64 header slots. The parser reports an incomplete text, or the length of
/// the head and the headers it found, or an error, whose text is taken as
/// the reason. The outcome depends on the bytes alone; `http_head` names it.
#[verifier::external_body]
fn parse_head(buffer: &[u8]) -> (head: HeadParse)
    ensures
        head@ == http_head(buffer@),
{
    let mut slots = [httparse::EMPTY_HEADER; 64];
    let mut response = httparse::Response::new(&mut slots);
    match response.parse(buffer) {
        Ok(httparse::Status::Partial) => HeadParse::Partial,
        Ok(httparse::Status::Complete(size)) => HeadParse::Complete {
            size,
            headers: response.headers.iter().map(
                |h| Header { name: h.name.to_string(), value: h.value.to_vec() },
            ).collect(),
        },
        Err(e) => HeadParse::Invalid { reason: e.to_string() },
    }
}

/// A CGI response.
#[derive(Debug)]
pub struct HttpResponse {
    status: u16,
    headers: Vec<Header>,
    body: Vec<u8>,
}

/// The mathematical value of an `HttpResponse`.
pub struct ResponseModel {
    pub status: int,
    /// All headers in the order of the text, the `Status` header among them.
    pub headers: Seq<(Seq<char>, Seq<u8>)>,
    pub body: Seq<u8>,
}

impl View for HttpResponse {
    type V = ResponseModel;

    closed spec fn view(&self) -> ResponseModel {
        ResponseModel {
            status: self.status as int,
            headers: header_views(self.headers@),
            body: self.body@,
        }
    }
}

/// Whether `status` lies in the success class, 200 to 299.
pub open spec fn is_success_status(status: int) -> bool {
    200 <= status <= 299
}

impl HttpResponse {
    /// The status code.
    pub fn status(&self) -> (status: u16)
        ensures
            status == self@.status,
    {
        self.status
    }

    /// Whether the status lies in the success class.
    pub fn is_success(&self) -> (ok: bool)
        ensures
            ok == is_success_status(self@.status),
    {
        200 <= self.status && self.status <= 299
    }

    /// The headers, in the order of the text.
    pub fn headers(&self) -> (headers: &Vec<Header>)
        ensures
            header_views(headers@) == self@.headers,
    {
        &self.headers
    }

    /// The body.
    pub fn body(&self) -> (body: &Vec<u8>)
        ensures
            body@ == self@.body,
    {
        &self.body
    }

    /// Gives up the response for its body.
    pub fn into_body(self) -> (body: Vec<u8>)
        ensures
            body@ == self@.body,
    {
        self.body
    }

    /// Reads the standard output of a script as a CGI response.
    pub fn try_from(value: ScriptOutput) -> (parsed: Result<HttpResponse, Error>)
        ensures
            agrees(parsed, cgi_response(value.stdout@)),
    {
        parse_cgi_response(value.stdout.as_slice())
    }
}

/// Whether `b` is an ASCII decimal digit.
pub open spec fn is_digit(b: u8) -> bool {
    48 <= b <= 57
}

/// The status code that the value of a `Status` header gives: its first
/// three bytes, read as a decimal number from 100 to 999. A value that does
/// not begin with such a number gives none.
pub open spec fn status_code_of(value: Seq<u8>) -> Option<int> {
    if value.len() >= 3 && is_digit(value[0]) && is_digit(value[1]) && is_digit(value[2])
        && value[0] != 48 {
        Some((value[0] - 48) * 100 + (value[1] - 48) * 10 + (value[2] - 48))
    } else {
        None
    }
}

/// Reads the status code off the value of a `Status` header.
pub fn status_code(value: &[u8]) -> (code: Option<u16>)
    ensures
        match code {
            Some(c) => status_code_of(value@) == Some(c as int),
            None => status_code_of(value@) is None,
        },
{
    if value.len() < 3 {
        return None;
    }
    let a = value[0];
    let b = value[1];
    let c = value[2];
    if 49 <= a && a <= 57 && 48 <= b && b <= 57 && 48 <= c && c <= 57 {
        let hundreds: u16 = (a - 48) as u16;
        let tens: u16 = (b - 48) as u16;
        let ones: u16 = (c - 48) as u16;
        Some(hundreds * 100 + tens * 10 + ones)
    } else {
        None
    }
}

/// Every header named `Status` begins with a status code.
pub open spec fn statuses_valid(headers: Seq<(Seq<char>, Seq<u8>)>) -> bool {
    forall|i: int|
        0 <= i < headers.len() && (#[trigger] headers[i]).0 == "Status"@ ==> status_code_of(
            headers[i].1,
        ) is Some
}

/// The value of the first header named `Status`.
pub open spec fn first_status_value(headers: Seq<(Seq<char>, Seq<u8>)>) -> Option<Seq<u8>>
    decreases headers.len(),
{
    if headers.len() == 0 {
        None
    } else {
        match first_status_value(headers.drop_last()) {
            Some(value) => Some(value),
            None => if headers.last().0 == "Status"@ {
                Some(headers.last().1)
            } else {
                None
            },
        }
    }
}

/// The status of a response with these headers: that of the first `Status`
/// header, and 200 where there is none.
pub open spec fn response_status(headers: Seq<(Seq<char>, Seq<u8>)>) -> int {
    match first_status_value(headers) {
        Some(value) => match status_code_of(value) {
            Some(code) => code,
            None => 200,
        },
        None => 200,
    }
}

/// The bytes of `buffer` from position `size` on; none where the buffer is
/// shorter than that.
pub open spec fn bytes_after(buffer: Seq<u8>, size: nat) -> Seq<u8> {
    if size <= buffer.len() {
        buffer.skip(size as int)
    } else {
        Seq::empty()
    }
}

/// The response that a parsed head and the text it was parsed from amount
/// to, or the reason why there is none.
pub open spec fn response_of(buffer: Seq<u8>, head: HeadModel) -> Result<ResponseModel, Seq<char>> {
    match head {
        HeadModel::Partial => Err("incomplete HTTP response"@),
        HeadModel::Invalid { reason } => Err(reason),
        HeadModel::Complete { size, headers } => if statuses_valid(headers) {
            Ok(
                ResponseModel {
                    status: response_status(headers),
                    headers,
                    body: bytes_after(buffer, size),
                },
            )
        } else {
            Err("invalid status code"@)
        },
    }
}

/// `parsed` is the response `expected`, or fails for the reason `expected`.
pub open spec fn agrees(
    parsed: Result<HttpResponse, Error>,
    expected: Result<ResponseModel, Seq<char>>,
) -> bool {
    match (parsed, expected) {
        (Ok(response), Ok(model)) => response@ == model,
        (Err(error), Err(reason)) => is_response_error(error, reason),
        _ => false,
    }
}

/// The status line that stands in front of a script's output when it is
/// read as an HTTP response: `HTTP/1.1 200 OK` and a line feed.
pub open spec fn status_line() -> Seq<u8> {
    seq![
        72u8, 84u8, 84u8, 80u8, 47u8, 49u8, 46u8, 49u8, 32u8, 50u8, 48u8, 48u8, 32u8, 79u8,
        75u8, 10u8,
    ]
}

/// The response that a script's output `bytes` amounts to.
pub open spec fn cgi_response(bytes: Seq<u8>) -> Result<ResponseModel, Seq<char>> {
    response_of(status_line() + bytes, http_head(status_line() + bytes))
}

/// The three digits of a number from 100 to 999 are a status code, and the
/// code is that number.
pub proof fn lemma_status_code_digits(value: Seq<u8>, n: int)
    requires
        100 <= n <= 999,
        value.len() >= 3,
        value[0] == 48 + n / 100,
        value[1] == 48 + (n / 10) % 10,
        value[2] == 48 + n % 10,
    ensures
        status_code_of(value) == Some(n),
{
}

/// Where the parser finds a complete head of two headers, a `Status` header
/// that begins with a status code and a header of another name, the response
/// has that status, both headers as they are, and for its body what follows
/// the head.
pub proof fn law_status_header_round_trip(
    buffer: Seq<u8>,
    size: nat,
    status_value: Seq<u8>,
    name: Seq<char>,
    value: Seq<u8>,
)
    requires
        status_code_of(status_value) is Some,
        name != "Status"@,
        size <= buffer.len(),
    ensures
        ({
            let headers = seq![("Status"@, status_value), (name, value)];
            response_of(buffer, HeadModel::Complete { size, headers }) == Ok::<
                ResponseModel,
                Seq<char>,
            >(
                ResponseModel {
                    status: status_code_of(status_value)->0,
                    headers,
                    body: buffer.skip(size as int),
                },
            )
        }),
{
    let headers = seq![("Status"@, status_value), (name, value)];
    reveal_with_fuel(first_status_value, 3);
    assert(headers.drop_last() =~= seq![("Status"@, status_value)]);
    assert(headers.drop_last().drop_last() =~= Seq::empty());
    assert(first_status_value(headers) == Some(status_value));
}

/// Builds the response from a parsed head and the text that it was parsed
/// from. Every `Status` header must begin with a status code; the first one
/// sets the status, which is 200 without one. The headers are kept as they
/// are, and the body is what follows the head.
#[verifier::loop_isolation(false)]
pub fn response_from_head(buffer: &[u8], head: HeadParse) -> (parsed: Result<HttpResponse, Error>)
    ensures
        agrees(parsed, response_of(buffer@, head@)),
{
    match head {
        HeadParse::Partial => Err(Error::HttpResponse("incomplete HTTP response".to_string())),
        HeadParse::Invalid { reason } => Err(Error::HttpResponse(reason)),
        HeadParse::Complete { size, headers } => {
            let ghost all = header_views(headers@);
            let mut status: u16 = 200;
            let mut seen = false;
            let mut i: usize = 0;
            assert(all.take(0) =~= Seq::empty());
            while i < headers.len()
                invariant
                    i <= headers.len(),
                    all == header_views(headers@),
                    statuses_valid(all.take(i as int)),
                    seen == (first_status_value(all.take(i as int)) is Some),
                    status == response_status(all.take(i as int)),
                decreases headers.len() - i,
            {
                let ghost shorter = all.take(i as int);
                let ghost longer = all.take(i + 1);
                assert(longer.drop_last() =~= shorter);
                assert(longer.last() == all[i as int]);
                assert(all[i as int] == headers@[i as int]@);
                let mut code: Option<u16> = Some(status);
                if str_eq(headers[i].name.as_str(), "Status") {
                    code = status_code(headers[i].value.as_slice());
                    match code {
                        None => {
                            assert(!statuses_valid(all));
                            return Err(Error::HttpResponse("invalid status code".to_string()));
                        },
                        Some(c) => {
                            if !seen {
                                status = c;
                                seen = true;
                            }
                        },
                    }
                }
                assert(statuses_valid(longer)) by {
                    assert forall|j: int|
                        0 <= j < longer.len() && (#[trigger] longer[j]).0
                            == "Status"@ implies status_code_of(longer[j].1) is Some by {
                        if j < i {
                            assert(shorter[j] == longer[j]);
                        }
                    }
                }
                i += 1;
            }
            assert(all.take(headers.len() as int) =~= all);
            let body = if size <= buffer.len() {
                let rest = vstd::slice::slice_subrange(buffer, size, buffer.len());
                assert(rest@ =~= buffer@.skip(size as int));
                vstd::slice::slice_to_vec(rest)
            } else {
                Vec::new()
            };
            Ok(HttpResponse { status, headers, body })
        },
    }
}

/// Reads the output of a script as a CGI response: an HTTP response that
/// lacks its status line.
pub fn parse_cgi_response(bytes: &[u8]) -> (parsed: Result<HttpResponse, Error>)
    ensures
        agrees(parsed, cgi_response(bytes@)),
{
    let mut buffer: Vec<u8> = vec![
        72u8, 84u8, 84u8, 80u8, 47u8, 49u8, 46u8, 49u8, 32u8, 50u8, 48u8, 48u8, 32u8, 79u8,
        75u8, 10u8,
    ];
    assert(buffer@ =~= status_line());
    buffer.extend_from_slice(bytes);
    assert(buffer@ =~= status_line() + bytes@);
    let head = parse_head(buffer.as_slice());
    response_from_head(buffer.as_slice(), head)
}

} // verus!
