//! Outbound responses: the uniform response envelope, the fixed CORS
//! header block, and the error translator that decides, per failure
//! behaviour, the status code, the visible body, and what is logged.

use vstd::prelude::*;

use crate::constants::internal_server_error_msg;
use crate::constants::spec_internal_server_error_msg;
use crate::constants::spec_unauthorized_error_msg;
use crate::constants::unauthorized_error_msg;
use crate::errors::FailureBehaviour;
use crate::errors::ServerFailure;

verus! {

/// The level at which a failure's message is logged.
#[derive(Clone, Copy, PartialEq, Eq, Structural, Debug)]
pub enum LogLevel {
    Info,
    Warning,
    Error,
}

/// An outbound response: status code, header set and body string. The body
/// holds either the response envelope as JSON or a fixed plain-text
/// message.
#[derive(Clone, PartialEq, Debug)]
pub struct Response {
    pub status_code: i64,
    pub headers: Vec<(String, String)>,
    pub body: String,
}

/// The translation of a failure: the response to send, and what to log at
/// which level. The log message always carries the failure's full detail;
/// the response body only what the behaviour permits.
#[derive(Clone, PartialEq, Debug)]
pub struct ErrorResponse {
    pub response: Response,
    pub log_level: LogLevel,
    pub log_message: String,
}

/// The hexadecimal digit for one value below sixteen.
pub open spec fn hex_digit(n: int) -> char {
    if n == 0 {
        '0'
    } else if n == 1 {
        '1'
    } else if n == 2 {
        '2'
    } else if n == 3 {
        '3'
    } else if n == 4 {
        '4'
    } else if n == 5 {
        '5'
    } else if n == 6 {
        '6'
    } else if n == 7 {
        '7'
    } else if n == 8 {
        '8'
    } else if n == 9 {
        '9'
    } else if n == 10 {
        'a'
    } else if n == 11 {
        'b'
    } else if n == 12 {
        'c'
    } else if n == 13 {
        'd'
    } else if n == 14 {
        'e'
    } else {
        'f'
    }
}

/// How one character is written inside a JSON string literal.
pub open spec fn json_escaped_char(c: char) -> Seq<char> {
    if c == '"' {
        "\\\""@
    } else if c == '\\' {
        "\\\\"@
    } else if c == '\n' {
        "\\n"@
    } else if c == '\r' {
        "\\r"@
    } else if c == '\t' {
        "\\t"@
    } else if (c as int) < 32 {
        "\\u00"@ + seq![hex_digit(c as int / 16), hex_digit(c as int % 16)]
    } else {
        seq![c]
    }
}

/// How a whole string is written inside a JSON string literal.
pub open spec fn json_escaped(s: Seq<char>) -> Seq<char>
    decreases s.len(),
{
    if s.len() == 0 {
        Seq::empty()
    } else {
        json_escaped(s.drop_last()) + json_escaped_char(s.last())
    }
}

/// The envelope body of a success response around already-serialized data.
pub open spec fn envelope_ok_body(data: Seq<char>) -> Seq<char> {
    "{\"ok\":true,\"data\":"@ + data + ",\"error\":null}"@
}

/// The envelope body of a forwarded failure around a visible message.
pub open spec fn envelope_err_body(msg: Seq<char>) -> Seq<char> {
    "{\"ok\":false,\"data\":null,\"error\":\""@ + json_escaped(msg) + "\"}"@
}

/// The status code the behaviour maps to.
pub open spec fn spec_status(b: FailureBehaviour) -> int {
    match b {
        FailureBehaviour::ReturnInternalServerError => 500,
        FailureBehaviour::ReturnUnauthorized => 401,
        _ => 200,
    }
}

/// The level the behaviour logs at.
pub open spec fn spec_log_level(b: FailureBehaviour) -> LogLevel {
    match b {
        FailureBehaviour::ForwardToClient => LogLevel::Info,
        FailureBehaviour::LogWarningForwardToClient => LogLevel::Warning,
        FailureBehaviour::LogErrorForwardToClient => LogLevel::Error,
        FailureBehaviour::LogWarningSendFixedMsgToClient(_) => LogLevel::Warning,
        FailureBehaviour::LogErrorSendFixedMsgToClient(_) => LogLevel::Error,
        FailureBehaviour::ReturnInternalServerError => LogLevel::Error,
        FailureBehaviour::ReturnUnauthorized => LogLevel::Error,
    }
}

/// The outbound body the failure maps to: an envelope holding the visible
/// message for the forwarded behaviours, a fixed plain text for the rest.
pub open spec fn spec_error_body(f: ServerFailure) -> Seq<char> {
    match f.behaviour {
        FailureBehaviour::ForwardToClient => envelope_err_body(f.message@),
        FailureBehaviour::LogWarningForwardToClient => envelope_err_body(f.message@),
        FailureBehaviour::LogErrorForwardToClient => envelope_err_body(f.message@),
        FailureBehaviour::LogWarningSendFixedMsgToClient(fixed) => envelope_err_body(fixed@),
        FailureBehaviour::LogErrorSendFixedMsgToClient(fixed) => envelope_err_body(fixed@),
        FailureBehaviour::ReturnInternalServerError => spec_internal_server_error_msg(),
        FailureBehaviour::ReturnUnauthorized => spec_unauthorized_error_msg(),
    }
}

/// The fixed CORS header block attached to every response.
pub open spec fn spec_cors_headers(h: Seq<(String, String)>) -> bool {
    &&& h.len() == 4
    &&& h[0].0@ == "Access-Control-Allow-Origin"@
    &&& h[0].1@ == "https://fractic.io"@
    &&& h[1].0@ == "Access-Control-Allow-Headers"@
    &&& h[1].1@ == "Content-Type,X-Amz-Date,Authorization,X-Api-Key,X-Amz-Security-Token,X-Amz-User-Agent"@
    &&& h[2].0@ == "Access-Control-Allow-Methods"@
    &&& h[2].1@ == "GET, POST, PUT, DELETE"@
    &&& h[3].0@ == "Access-Control-Allow-Credentials"@
    &&& h[3].1@ == "true"@
}

/// The CORS header block that lets web clients of the hosting origin call
/// the API: allow-origin, allow-headers, allow-methods and
/// allow-credentials.
pub fn cors_headers() -> (r: Vec<(String, String)>)
    ensures
        spec_cors_headers(r@),
{
    let mut headers: Vec<(String, String)> = Vec::new();
    headers.push(
        (String::from_str("Access-Control-Allow-Origin"), String::from_str("https://fractic.io")),
    );
    headers.push(
        (
            String::from_str("Access-Control-Allow-Headers"),
            String::from_str(
                "Content-Type,X-Amz-Date,Authorization,X-Api-Key,X-Amz-Security-Token,X-Amz-User-Agent",
            ),
        ),
    );
    headers.push(
        (String::from_str("Access-Control-Allow-Methods"), String::from_str("GET, POST, PUT, DELETE")),
    );
    headers.push(
        (String::from_str("Access-Control-Allow-Credentials"), String::from_str("true")),
    );
    headers
}

/// One hexadecimal digit as a string slice.
fn hex_digit_str(n: u32) -> (r: &'static str)
    requires
        n < 16,
    ensures
        r@ == seq![hex_digit(n as int)],
{
    if n == 0 {
        proof {
            reveal_strlit("0");
        }
        "0"
    } else if n == 1 {
        proof {
            reveal_strlit("1");
        }
        "1"
    } else if n == 2 {
        proof {
            reveal_strlit("2");
        }
        "2"
    } else if n == 3 {
        proof {
            reveal_strlit("3");
        }
        "3"
    } else if n == 4 {
        proof {
            reveal_strlit("4");
        }
        "4"
    } else if n == 5 {
        proof {
            reveal_strlit("5");
        }
        "5"
    } else if n == 6 {
        proof {
            reveal_strlit("6");
        }
        "6"
    } else if n == 7 {
        proof {
            reveal_strlit("7");
        }
        "7"
    } else if n == 8 {
        proof {
            reveal_strlit("8");
        }
        "8"
    } else if n == 9 {
        proof {
            reveal_strlit("9");
        }
        "9"
    } else if n == 10 {
        proof {
            reveal_strlit("a");
        }
        "a"
    } else if n == 11 {
        proof {
            reveal_strlit("b");
        }
        "b"
    } else if n == 12 {
        proof {
            reveal_strlit("c");
        }
        "c"
    } else if n == 13 {
        proof {
            reveal_strlit("d");
        }
        "d"
    } else if n == 14 {
        proof {
            reveal_strlit("e");
        }
        "e"
    } else {
        proof {
            reveal_strlit("f");
        }
        "f"
    }
}

/// Escapes a string for inclusion inside a JSON string literal.
pub fn json_escape(s: &str) -> (r: String)
    ensures
        r@ == json_escaped(s@),
{
    let len = s.unicode_len();
    let mut out = String::new();
    let mut i: usize = 0;
    proof {
        assert(s@.take(0) =~= Seq::<char>::empty());
    }
    while i < len
        invariant
            i <= len,
            len == s@.len(),
            out@ == json_escaped(s@.take(i as int)),
        decreases len - i,
    {
        let c = s.get_char(i);
        proof {
            assert(s@.take(i + 1).drop_last() =~= s@.take(i as int));
            assert(s@.take(i + 1).last() == s@[i as int]);
        }
        if c == '"' {
            out.append("\\\"");
        } else if c == '\\' {
            out.append("\\\\");
        } else if c == '\n' {
            out.append("\\n");
        } else if c == '\r' {
            out.append("\\r");
        } else if c == '\t' {
            out.append("\\t");
        } else if (c as u32) < 32 {
            let n = c as u32;
            out.append("\\u00");
            out.append(hex_digit_str(n / 16));
            out.append(hex_digit_str(n % 16));
            proof {
                assert(seq![hex_digit(n as int / 16)] + seq![hex_digit(n as int % 16)] =~= seq![
                    hex_digit(c as int / 16),
                    hex_digit(c as int % 16),
                ]);
            }
        } else {
            let piece = s.substring_char(i, i + 1);
            proof {
                assert(s@.subrange(i as int, i + 1) =~= seq![s@[i as int]]);
            }
            out.append(piece);
        }
        i = i + 1;
    }
    proof {
        assert(s@.take(len as int) =~= s@);
    }
    out
}

/// Wraps an already-serialized response body, as produced by a handler,
/// into a bare 200 response.
pub fn build_simple(data: String) -> (r: Response)
    ensures
        r.status_code == 200,
        r.body == data,
        spec_cors_headers(r.headers@),
{
    Response { status_code: 200, headers: cors_headers(), body: data }
}

/// Wraps an already-serialized success value into the response envelope:
/// `ok` true, the value under `data`, no error.
pub fn build_result(data_json: &str) -> (r: Response)
    ensures
        r.status_code == 200,
        r.body@ == envelope_ok_body(data_json@),
        spec_cors_headers(r.headers@),
{
    let mut body = String::from_str("{\"ok\":true,\"data\":");
    body.append(data_json);
    body.append(",\"error\":null}");
    Response { status_code: 200, headers: cors_headers(), body }
}

/// A forwarded failure: a 200 response whose envelope carries the visible
/// message, so the client can handle it gracefully.
fn forwarded_response(visible: &str, level: LogLevel, log_message: String) -> (r: ErrorResponse)
    ensures
        r.response.status_code == 200,
        r.response.body@ == envelope_err_body(visible@),
        spec_cors_headers(r.response.headers@),
        r.log_level == level,
        r.log_message == log_message,
{
    let mut body = String::from_str("{\"ok\":false,\"data\":null,\"error\":\"");
    let escaped = json_escape(visible);
    body.append(escaped.as_str());
    body.append("\"}");
    ErrorResponse {
        response: Response { status_code: 200, headers: cors_headers(), body },
        log_level: level,
        log_message,
    }
}

/// A failure kept from the caller: a plain-text response under an error
/// status code, leaking nothing of the failure's own message.
fn plain_response(status_code: i64, text: &str, log_message: String) -> (r: ErrorResponse)
    ensures
        r.response.status_code == status_code,
        r.response.body@ == text@,
        spec_cors_headers(r.response.headers@),
        r.log_level is Error,
        r.log_message == log_message,
{
    ErrorResponse {
        response: Response {
            status_code,
            headers: cors_headers(),
            body: String::from_str(text),
        },
        log_level: LogLevel::Error,
        log_message,
    }
}

/// The error translator: decides, from the failure's behaviour tag alone,
/// the status code, the visible body and the log level. Every
/// client-recoverable failure keeps the outer status at 200 so the client
/// can tell a rejected request from a broken service; internal and
/// unauthorized failures send only a fixed text.
pub fn build_error(failure: ServerFailure) -> (r: ErrorResponse)
    ensures
        r.response.status_code as int == spec_status(failure.behaviour),
        r.response.body@ == spec_error_body(failure),
        spec_cors_headers(r.response.headers@),
        r.log_level == spec_log_level(failure.behaviour),
        r.log_message == failure.message,
{
    match &failure.behaviour {
        FailureBehaviour::ForwardToClient => forwarded_response(
            failure.message.as_str(),
            LogLevel::Info,
            failure.message.clone(),
        ),
        FailureBehaviour::LogWarningForwardToClient => forwarded_response(
            failure.message.as_str(),
            LogLevel::Warning,
            failure.message.clone(),
        ),
        FailureBehaviour::LogErrorForwardToClient => forwarded_response(
            failure.message.as_str(),
            LogLevel::Error,
            failure.message.clone(),
        ),
        FailureBehaviour::LogWarningSendFixedMsgToClient(fixed) => forwarded_response(
            fixed.as_str(),
            LogLevel::Warning,
            failure.message.clone(),
        ),
        FailureBehaviour::LogErrorSendFixedMsgToClient(fixed) => forwarded_response(
            fixed.as_str(),
            LogLevel::Error,
            failure.message.clone(),
        ),
        FailureBehaviour::ReturnInternalServerError => plain_response(
            500,
            internal_server_error_msg(),
            failure.message.clone(),
        ),
        FailureBehaviour::ReturnUnauthorized => plain_response(
            401,
            unauthorized_error_msg(),
            failure.message.clone(),
        ),
    }
}

/// What a conforming client reads back out of a success envelope: it
/// checks the fixed frame around the data and recovers the serialized
/// value between.
pub open spec fn read_envelope_data(body: Seq<char>) -> Option<Seq<char>> {
    let prefix = "{\"ok\":true,\"data\":"@;
    let suffix = ",\"error\":null}"@;
    if body.len() >= prefix.len() + suffix.len() && body.take(prefix.len() as int) == prefix
        && body.skip(body.len() - suffix.len()) == suffix {
        Some(body.subrange(prefix.len() as int, body.len() - suffix.len()))
    } else {
        None
    }
}

/// Law: the envelope round-trips. Any serialized success value wrapped by
/// the envelope is recovered unchanged by a client that strips the
/// envelope's fixed frame.
pub proof fn lemma_envelope_round_trip(data: Seq<char>)
    ensures
        read_envelope_data(envelope_ok_body(data)) == Some(data),
{
    let prefix = "{\"ok\":true,\"data\":"@;
    let suffix = ",\"error\":null}"@;
    let body = envelope_ok_body(data);
    assert(body.take(prefix.len() as int) =~= prefix);
    assert(body.skip(body.len() - suffix.len()) =~= suffix);
    assert(body.subrange(prefix.len() as int, body.len() - suffix.len()) =~= data);
}

} // verus!
