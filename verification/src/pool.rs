//! The FastCGI side: the parameters of a request, what a script hands back,
//! and how its output is read as a CGI response.

pub use crate::cgi::{parse_cgi_response, HttpResponse};
use crate::dictionary::{Dictionary, StringMap};
use crate::text::{decimal, decimal_string, string_from_utf8};
use vstd::prelude::*;
use vstd::string::StringExecFns;
use vstd::utf8::{decode_utf8, valid_utf8};

verus! {

/// Why a dispatch failed.
#[derive(Debug)]
pub enum Error {
    /// The connection to the responder failed; the text says how.
    Io(String),
    /// The responder broke the FastCGI protocol; the text says how.
    FastCgi(String),
    /// The script's output is no CGI response; the text says why.
    HttpResponse(String),
}

/// The text that describes an error.
pub open spec fn error_text(error: Error) -> Seq<char> {
    match error {
        Error::Io(_) => "error connecting to FastCGI"@,
        Error::FastCgi(_) => "FastCGI error"@,
        Error::HttpResponse(reason) => "invalid HTTP response: "@ + reason@,
    }
}

/// `error` says that the script's output is no CGI response, for the
/// reason `reason`.
pub open spec fn is_response_error(error: Error, reason: Seq<char>) -> bool {
    match error {
        Error::HttpResponse(text) => text@ == reason,
        _ => false,
    }
}

/// The text that describes an error together with its cause.
pub open spec fn error_chain(error: Error) -> Seq<char> {
    match error {
        Error::Io(cause) => "error connecting to FastCGI: "@ + cause@,
        Error::FastCgi(cause) => "FastCGI error: "@ + cause@,
        Error::HttpResponse(reason) => "invalid HTTP response: "@ + reason@,
    }
}

impl Error {
    /// Describes the error and its cause in words.
    pub fn describe(&self) -> (text: String)
        ensures
            text@ == error_chain(*self),
    {
        match self {
            Error::Io(cause) => String::from_str("error connecting to FastCGI: ").concat(
                cause.as_str(),
            ),
            Error::FastCgi(cause) => String::from_str("FastCGI error: ").concat(cause.as_str()),
            Error::HttpResponse(reason) => String::from_str("invalid HTTP response: ").concat(
                reason.as_str(),
            ),
        }
    }

    /// Describes the error in words.
    pub fn message(&self) -> (text: String)
        ensures
            text@ == error_text(*self),
    {
        match self {
            Error::Io(_) => String::from_str("error connecting to FastCGI"),
            Error::FastCgi(_) => String::from_str("FastCGI error"),
            Error::HttpResponse(reason) => String::from_str("invalid HTTP response: ").concat(
                reason.as_str(),
            ),
        }
    }
}

/// A FastCGI responder and the script that it runs.
#[derive(Debug)]
pub struct Pool {
    address: String,
    port: u16,
    script_path: String,
    cgi_environment: StringMap,
}

/// The CGI variables that every request starts from.
pub open spec fn essential_defaults(script_path: Seq<char>, content_length: nat) -> Map<
    Seq<char>,
    Seq<char>,
> {
    Map::<Seq<char>, Seq<char>>::empty().insert(
        "CONTENT_LENGTH"@,
        decimal(content_length),
    ).insert("QUERY_STRING"@, ""@).insert("REMOTE_ADDR"@, "127.0.0.1"@).insert(
        "REQUEST_METHOD"@,
        "POST"@,
    ).insert("SCRIPT_FILENAME"@, script_path).insert("SCRIPT_NAME"@, "/"@).insert(
        "SERVER_NAME"@,
        "localhost"@,
    ).insert("SERVER_PORT"@, "443"@).insert("SERVER_SOFTWARE"@, "fcgiq"@)
}

/// The CGI variables of a request: the essential defaults, overlaid with the
/// configured variables, overlaid with the request's own. Where two layers
/// set a variable, the later layer decides.
pub open spec fn layered_params(
    script_path: Seq<char>,
    content_length: nat,
    configured: Map<Seq<char>, Seq<char>>,
    overrides: Map<Seq<char>, Seq<char>>,
) -> Map<Seq<char>, Seq<char>> {
    essential_defaults(script_path, content_length).union_prefer_right(
        configured,
    ).union_prefer_right(overrides)
}

/// What a pool is made of.
pub struct PoolView {
    pub address: Seq<char>,
    pub port: u16,
    pub script_path: Seq<char>,
    pub cgi_environment: Map<Seq<char>, Seq<char>>,
}

impl View for Pool {
    type V = PoolView;

    closed spec fn view(&self) -> PoolView {
        PoolView {
            address: self.address@,
            port: self.port,
            script_path: self.script_path@,
            cgi_environment: self.cgi_environment@,
        }
    }
}

/// Override layering, read variable by variable: a request's own variable
/// wins over a configured one, and a configured one over an essential
/// default; a variable that no layer sets is not set.
pub proof fn law_layering(
    script_path: Seq<char>,
    content_length: nat,
    configured: Map<Seq<char>, Seq<char>>,
    overrides: Map<Seq<char>, Seq<char>>,
    name: Seq<char>,
)
    ensures
        ({
            let defaults = essential_defaults(script_path, content_length);
            let params = layered_params(script_path, content_length, configured, overrides);
            if overrides.contains_key(name) {
                params.contains_key(name) && params[name] == overrides[name]
            } else if configured.contains_key(name) {
                params.contains_key(name) && params[name] == configured[name]
            } else if defaults.contains_key(name) {
                params.contains_key(name) && params[name] == defaults[name]
            } else {
                !params.contains_key(name)
            }
        }),
{
}

impl Pool {
    /// A pool for the responder at `address` and `port` that runs the script
    /// at `script_path` and hands it the variables of `cgi_environment`.
    pub fn new(
        address: String,
        port: u16,
        script_path: String,
        cgi_environment: StringMap,
    ) -> (pool: Pool)
        ensures
            pool@ == (PoolView {
                address: address@,
                port,
                script_path: script_path@,
                cgi_environment: cgi_environment@,
            }),
    {
        Pool { address, port, script_path, cgi_environment }
    }

    /// The host of the responder.
    pub fn address(&self) -> (address: &String)
        ensures
            address@ == self@.address,
    {
        &self.address
    }

    /// The port of the responder.
    pub fn port(&self) -> (port: u16)
        ensures
            port == self@.port,
    {
        self.port
    }

    /// The CGI variables of a request whose payload has `content_length`
    /// bytes and that brings the variables `overrides` with it.
    pub fn request_params(&self, content_length: usize, overrides: &StringMap) -> (params:
        StringMap)
        ensures
            params@ == layered_params(
                self@.script_path,
                content_length as nat,
                self@.cgi_environment,
                overrides@,
            ),
    {
        let mut params: StringMap = Dictionary::new();
        params.insert("CONTENT_LENGTH".to_string(), decimal_string(content_length));
        params.insert("QUERY_STRING".to_string(), "".to_string());
        params.insert("REMOTE_ADDR".to_string(), "127.0.0.1".to_string());
        params.insert("REQUEST_METHOD".to_string(), "POST".to_string());
        params.insert("SCRIPT_FILENAME".to_string(), self.script_path.clone());
        params.insert("SCRIPT_NAME".to_string(), "/".to_string());
        params.insert("SERVER_NAME".to_string(), "localhost".to_string());
        params.insert("SERVER_PORT".to_string(), "443".to_string());
        params.insert("SERVER_SOFTWARE".to_string(), "fcgiq".to_string());
        params.extend_from(&self.cgi_environment);
        params.extend_from(overrides);
        params
    }
}

/// What a run of the script wrote.
#[derive(Debug)]
pub struct ScriptOutput {
    pub stdout: Vec<u8>,
    pub stderr: Vec<u8>,
}

/// The text that `bytes` encode in UTF-8, if they encode one.
pub open spec fn utf8_text(bytes: Seq<u8>) -> Option<Seq<char>> {
    if valid_utf8(bytes) {
        Some(decode_utf8(bytes))
    } else {
        None
    }
}

impl ScriptOutput {
    /// What the responder's two streams amount to. A responder that sent no
    /// standard output at all has failed; one that sent no standard error has
    /// written nothing there.
    pub fn from_streams(stdout: Option<Vec<u8>>, stderr: Option<Vec<u8>>) -> (output: Result<
        ScriptOutput,
        Error,
    >)
        ensures
            match output {
                Ok(o) => stdout matches Some(out) && o.stdout@ == out@ && o.stderr@ == (
                match stderr {
                    Some(err) => err@,
                    None => Seq::<u8>::empty(),
                }),
                Err(e) => stdout is None && is_response_error(e, "empty response"@),
            },
    {
        match stdout {
            Some(out) => {
                let err = match stderr {
                    Some(err) => err,
                    None => Vec::new(),
                };
                Ok(ScriptOutput { stdout: out, stderr: err })
            },
            None => Err(Error::HttpResponse("empty response".to_string())),
        }
    }

    /// The standard output as text, if it is UTF-8.
    pub fn stdout_string(&self) -> (text: Option<String>)
        ensures
            match text {
                Some(s) => utf8_text(self.stdout@) == Some(s@),
                None => utf8_text(self.stdout@) is None,
            },
    {
        string_from_utf8(self.stdout.clone())
    }

    /// The standard error as text, if it is UTF-8.
    pub fn stderr_string(&self) -> (text: Option<String>)
        ensures
            match text {
                Some(s) => utf8_text(self.stderr@) == Some(s@),
                None => utf8_text(self.stderr@) is None,
            },
    {
        string_from_utf8(self.stderr.clone())
    }
}

} // verus!
