//! The error taxonomy and the response envelope builder.
//!
//! Every handler result, success or failure, is wrapped into a uniform
//! envelope `{status_code, headers, body}`. The status code and message for
//! each error variant are fixed by [`spec_status`] and [`spec_message`]:
//! connectivity failures map to 503, deadline expiry to 504, remote
//! application failures to 502, and local handler or encoding failures to 500.

use vstd::prelude::*;
use vstd::string::*;
use crate::json::JVal;

verus! {

/// The error taxonomy of the adapter layer.
#[derive(Debug)]
pub enum Error {
    /// The transport has no live connection.
    NotConnected,
    /// A remote call's deadline expired.
    Timeout,
    /// The remote procedure failed with an application-level error.
    Remote { code: String, message: String },
    /// A local validation or logic failure.
    Handler(String),
    /// An encoding or decoding failure.
    Serde(String),
    /// A transport-level failure.
    Transport(String),
}

/// The HTTP status code for each error variant.
pub open spec fn spec_status(e: Error) -> u64 {
    match e {
        Error::NotConnected => 503,
        Error::Timeout => 504,
        Error::Remote { .. } => 502,
        Error::Handler(_) => 500,
        Error::Serde(_) => 500,
        Error::Transport(_) => 503,
    }
}

/// The message for each error variant.
pub open spec fn spec_message(e: Error) -> Seq<char> {
    match e {
        Error::NotConnected => "Bridge is not connected"@,
        Error::Timeout => "Invocation timed out"@,
        Error::Remote { code, message } => "Remote error ("@ + code@ + "): "@ + message@,
        Error::Handler(msg) => "Handler error: "@ + msg@,
        Error::Serde(msg) => "Serialization error: "@ + msg@,
        Error::Transport(msg) => "WebSocket error: "@ + msg@,
    }
}

impl Error {
    /// Renders the error's message.
    pub fn render_message(self) -> (r: String)
        ensures
            r@ == spec_message(self),
    {
        match self {
            Error::NotConnected => String::from_str("Bridge is not connected"),
            Error::Timeout => String::from_str("Invocation timed out"),
            Error::Remote { code, message } => String::from_str("Remote error (").concat(
                code.as_str(),
            ).concat("): ").concat(message.as_str()),
            Error::Handler(msg) => String::from_str("Handler error: ").concat(msg.as_str()),
            Error::Serde(msg) => String::from_str("Serialization error: ").concat(msg.as_str()),
            Error::Transport(msg) => String::from_str("WebSocket error: ").concat(msg.as_str()),
        }
    }
}

/// A response envelope: `{status_code, headers: [], body}`.
pub open spec fn is_envelope(r: JVal, status: u64, body: JVal) -> bool {
    &&& r matches JVal::Obj(fields)
    &&& fields@.len() == 3
    &&& fields@[0].0@ == "status_code"@
    &&& fields@[0].1 == JVal::UInt(status)
    &&& fields@[1].0@ == "headers"@
    &&& fields@[1].1 matches JVal::Arr(headers) && headers@.len() == 0
    &&& fields@[2].0@ == "body"@
    &&& fields@[2].1 == body
}

/// An error body: `{error: message}`.
pub open spec fn is_error_body(b: JVal, msg: Seq<char>) -> bool {
    &&& b matches JVal::Obj(fields)
    &&& fields@.len() == 1
    &&& fields@[0].0@ == "error"@
    &&& fields@[0].1 matches JVal::Str(m) && m@ == msg
}

/// An error envelope for `e`: the status and message follow the taxonomy
/// table.
pub open spec fn is_error_envelope(r: JVal, e: Error) -> bool {
    &&& r matches JVal::Obj(fields)
    &&& fields@.len() == 3
    &&& fields@[0].0@ == "status_code"@
    &&& fields@[0].1 == JVal::UInt(spec_status(e))
    &&& fields@[1].0@ == "headers"@
    &&& fields@[1].1 matches JVal::Arr(headers) && headers@.len() == 0
    &&& fields@[2].0@ == "body"@
    &&& is_error_body(fields@[2].1, spec_message(e))
}

/// A success envelope: status 200, empty headers, some body.
pub open spec fn is_success_envelope(r: JVal) -> bool {
    &&& r matches JVal::Obj(fields)
    &&& fields@.len() == 3
    &&& fields@[0].0@ == "status_code"@
    &&& fields@[0].1 == JVal::UInt(200u64)
    &&& fields@[1].0@ == "headers"@
    &&& fields@[1].1 matches JVal::Arr(headers) && headers@.len() == 0
    &&& fields@[2].0@ == "body"@
}

/// The body of an envelope built by this module.
pub open spec fn envelope_body(r: JVal) -> JVal {
    match r {
        JVal::Obj(fields) => fields@[2].1,
        _ => JVal::Null,
    }
}

/// Builds the envelope `{status_code, headers: [], body}`.
pub fn make_envelope(status: u64, body: JVal) -> (r: JVal)
    ensures
        is_envelope(r, status, body),
{
    let mut fields: Vec<(String, JVal)> = Vec::new();
    fields.push((String::from_str("status_code"), JVal::UInt(status)));
    fields.push((String::from_str("headers"), JVal::Arr(Vec::new())));
    fields.push((String::from_str("body"), body));
    JVal::Obj(fields)
}

/// Wraps a successful result: status 200, the result as the body.
pub fn success_response(body: JVal) -> (r: JVal)
    ensures
        is_envelope(r, 200, body),
{
    make_envelope(200, body)
}

/// Maps an error to its response envelope, per the taxonomy table.
pub fn error_response(e: Error) -> (r: JVal)
    ensures
        is_error_envelope(r, e),
{
    let status = match &e {
        Error::NotConnected => 503u64,
        Error::Timeout => 504u64,
        Error::Remote { .. } => 502u64,
        Error::Handler(_) => 500u64,
        Error::Serde(_) => 500u64,
        Error::Transport(_) => 503u64,
    };
    let message = e.render_message();
    let mut body_fields: Vec<(String, JVal)> = Vec::new();
    body_fields.push((String::from_str("error"), JVal::Str(message)));
    make_envelope(status, JVal::Obj(body_fields))
}

/// Wraps a remote call's outcome: success as a 200 envelope around the
/// result, failure per the error table.
pub fn complete(result: Result<JVal, Error>) -> (r: JVal)
    ensures
        match result {
            Ok(v) => is_envelope(r, 200, v),
            Err(e) => is_error_envelope(r, e),
        },
{
    match result {
        Ok(v) => success_response(v),
        Err(e) => error_response(e),
    }
}

} // verus!
