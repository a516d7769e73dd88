//! The bridge to the external script: what the script is started with, and
//! how its captured output, or its failure to start, becomes the text that
//! the route answers with.
//!
//! Starting the process and waiting for it is left to the server; this
//! module takes over from the raw bytes of standard output.

use vstd::prelude::*;
use vstd::utf8::{decode_utf8, valid_utf8};

verus! {

/// The interpreter that runs the script.
pub const SCRIPT_INTERPRETER: &'static str = "python3";

/// The script's path, relative to the server's working directory.
pub const SCRIPT_PATH: &'static str = "./static/py/sum.py";

/// Text put before the cause when the script cannot be started.
pub const LAUNCH_FAILED_PREFIX: &'static str = "the script couldn't be executed: ";

/// Text put before the cause when the script's output is not UTF-8.
pub const DECODE_FAILED_PREFIX: &'static str = "couldn't read the script output: ";

/// Why an invocation gave no text result.
#[derive(Debug)]
pub enum InvocationError {
    /// The process could not be started; the cause as text.
    LaunchFailed(String),
    /// The output was not valid UTF-8; the decoder's message.
    DecodeFailed(String),
}

/// The characters that Unicode gives the White_Space property.
pub open spec fn is_white_space(c: char) -> bool {
    let u = c as u32;
    (0x09 <= u <= 0x0d) || u == 0x20 || u == 0x85 || u == 0xa0 || u == 0x1680 || (0x2000 <= u
        <= 0x200a) || u == 0x2028 || u == 0x2029 || u == 0x202f || u == 0x205f || u == 0x3000
}

/// `s` without its leading white space.
pub open spec fn trim_start(s: Seq<char>) -> Seq<char>
    decreases s.len(),
{
    if s.len() > 0 && is_white_space(s[0]) {
        trim_start(s.drop_first())
    } else {
        s
    }
}

/// `s` without its trailing white space.
pub open spec fn trim_end(s: Seq<char>) -> Seq<char>
    decreases s.len(),
{
    if s.len() > 0 && is_white_space(s.last()) {
        trim_end(s.drop_last())
    } else {
        s
    }
}

/// `s` without white space at either end.
pub open spec fn trimmed(s: Seq<char>) -> Seq<char> {
    trim_end(trim_start(s))
}

/// The message of the UTF-8 decoding error for the bytes `b`.
pub uninterp spec fn utf8_error_message(b: Seq<u8>) -> Seq<char>;

/// Relies on `std::str::from_utf8`: it succeeds exactly on valid UTF-8, and
/// then the text is the bytes' decoding; the error's message is a function
/// of the bytes.
#[verifier::external_body]
fn bytes_to_text(b: &[u8]) -> (r: Result<String, String>)
    ensures
        r is Ok <==> valid_utf8(b@),
        r matches Ok(t) ==> t@ == decode_utf8(b@),
        r matches Err(m) ==> m@ == utf8_error_message(b@),
{
    match std::str::from_utf8(b) {
        Ok(t) => Ok(t.to_string()),
        Err(e) => Err(e.to_string()),
    }
}

/// Relies on `str::trim`: it removes leading and trailing characters that
/// have the White_Space property.
#[verifier::external_body]
fn trim_text(s: &str) -> (r: String)
    ensures
        r@ == trimmed(s@),
{
    s.trim().to_string()
}

/// The arguments that the interpreter gets: the script, then the two
/// operands, in order.
pub fn script_arguments(a: &str, b: &str) -> (r: Vec<String>)
    ensures
        r@.len() == 3,
        r@[0]@ == SCRIPT_PATH@,
        r@[1]@ == a@,
        r@[2]@ == b@,
{
    let mut r: Vec<String> = Vec::new();
    r.push(SCRIPT_PATH.to_owned());
    r.push(a.to_owned());
    r.push(b.to_owned());
    r
}

/// The result of an invocation, from what starting the script gave: its
/// standard output, or the cause why it could not start.
pub fn script_outcome(launch: Result<Vec<u8>, String>) -> (r: Result<String, InvocationError>)
    ensures
        (match launch {
            Err(cause) => r matches Err(InvocationError::LaunchFailed(m)) && m@ == cause@,
            Ok(out) => if valid_utf8(out@) {
                r matches Ok(t) && t@ == trimmed(decode_utf8(out@))
            } else {
                r matches Err(InvocationError::DecodeFailed(m)) && m@ == utf8_error_message(out@)
            },
        }),
{
    match launch {
        Err(cause) => Err(InvocationError::LaunchFailed(cause)),
        Ok(out) => match bytes_to_text(out.as_slice()) {
            Ok(text) => Ok(trim_text(text.as_str())),
            Err(m) => Err(InvocationError::DecodeFailed(m)),
        },
    }
}

/// The response text for an invocation result.
pub open spec fn script_payload_spec(r: Result<String, InvocationError>) -> Seq<char> {
    match r {
        Ok(t) => t@,
        Err(InvocationError::LaunchFailed(m)) => LAUNCH_FAILED_PREFIX@ + m@,
        Err(InvocationError::DecodeFailed(m)) => DECODE_FAILED_PREFIX@ + m@,
    }
}

/// The response text for an invocation result: the script's text, or the
/// failure explained; never an error status.
pub fn script_payload(r: Result<String, InvocationError>) -> (p: String)
    ensures
        p@ == script_payload_spec(r),
{
    match r {
        Ok(t) => t,
        Err(InvocationError::LaunchFailed(m)) => {
            let mut p = LAUNCH_FAILED_PREFIX.to_owned();
            p.append(m.as_str());
            p
        },
        Err(InvocationError::DecodeFailed(m)) => {
            let mut p = DECODE_FAILED_PREFIX.to_owned();
            p.append(m.as_str());
            p
        },
    }
}

/// The response text straight from what starting the script gave.
pub fn script_response(launch: Result<Vec<u8>, String>) -> (p: String)
    ensures
        launch matches Err(cause) ==> p@ == LAUNCH_FAILED_PREFIX@ + cause@,
        launch matches Ok(out) ==> (valid_utf8(out@) ==> p@ == trimmed(decode_utf8(out@))),
        launch matches Ok(out) ==> (!valid_utf8(out@) ==> p@ == DECODE_FAILED_PREFIX@
            + utf8_error_message(out@)),
{
    script_payload(script_outcome(launch))
}

} // verus!
