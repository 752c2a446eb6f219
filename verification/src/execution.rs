//! Payload preparation and outcome classification.
//!
//! The subprocesses themselves (running a python script, writing and
//! executing a temporary binary) are run by the embedding application; what
//! is decided about them — how a binary payload is decoded, and how an exit
//! status and captured output become a task outcome — is here.

use vstd::prelude::*;
use base64::Engine;
use crate::models::TaskStatusEnum;

verus! {

/// The bytes that standard base64 decoding yields for the given text, or
/// nothing when the text is not valid standard base64.
pub uninterp spec fn base64_decoded(s: Seq<char>) -> Option<Seq<u8>>;

/// Relies on base64's `STANDARD` engine `decode`: the result is a function
/// of the input text alone, and decoding fails exactly on text that is not
/// valid standard (padded) base64.
#[verifier::external_body]
fn decode_base64_standard(s: &str) -> (r: Result<Vec<u8>, String>)
    ensures
        r is Ok <==> base64_decoded(s@) is Some,
        r matches Ok(v) ==> Some(v@) == base64_decoded(s@),
{
    match base64::prelude::BASE64_STANDARD.decode(s) {
        Ok(bytes) => Ok(bytes),
        Err(e) => Err(format!("{}", e)),
    }
}

/// Decoded bytes of a base64-encoded binary payload, or a message saying why
/// the payload cannot be decoded — a failure here never aborts a worker; it
/// is funnelled into the ERROR outcome with the message as stderr.
pub fn decode_binary_payload(file: &str) -> (r: Result<Vec<u8>, String>)
    ensures
        r is Ok <==> base64_decoded(file@) is Some,
        r matches Ok(v) ==> Some(v@) == base64_decoded(file@),
{
    decode_base64_standard(file)
}

/// Turn a finished subprocess run into what is recorded: stdout verbatim; on
/// exit code 0 the SUCCESS outcome with no stderr (output on stderr alone is
/// not failure); on any other exit the ERROR outcome with the captured
/// stderr.
pub fn classify_execution(stdout: String, stderr: String, exit_success: bool) -> (r: (
    String,
    Option<String>,
    TaskStatusEnum,
))
    ensures
        r.0@ == stdout@,
        exit_success ==> r.1 is None && r.2 == TaskStatusEnum::SUCCESS,
        !exit_success ==> ({
            &&& r.1 matches Some(e)
            &&& e@ == stderr@
            &&& r.2 == TaskStatusEnum::ERROR
        }),
{
    if !exit_success {
        (stdout, Some(stderr), TaskStatusEnum::ERROR)
    } else {
        (stdout, None, TaskStatusEnum::SUCCESS)
    }
}

} // verus!
