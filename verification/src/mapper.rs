//! Building a request from an uploaded code field, and the error-shaped
//! response that carries any failure across the service boundary.

use vstd::prelude::*;

use crate::models::{CodeExecutionRequest, CodeExecutionResponse, Language};

verus! {

/// Builds a request from an extracted code field: an empty upload is a
/// validation error, anything else becomes a request with no stdin.
pub fn build_request(code: String, language: Language, timeout: Option<u64>) -> (r: Result<
    CodeExecutionRequest,
    &'static str,
>)
    ensures
        r is Ok <==> code@.len() > 0,
        r matches Ok(rq) ==> rq.code == code && rq.language == language && rq.timeout == timeout
            && rq.stdin is None,
        r matches Err(m) ==> m@ == "code is empty"@,
{
    if code.as_str().is_empty() {
        Err("code is empty")
    } else {
        Ok(CodeExecutionRequest { code, language, timeout, stdin: None })
    }
}

/// The response shape of any failure reachable before a container exists:
/// no output, the failure message as stderr, exit code -1, zero duration,
/// not timed out.
pub fn create_error_response(error_message: &str) -> (r: CodeExecutionResponse)
    ensures
        r.execution_id@ == "error"@,
        r.stdout@ == Seq::<char>::empty(),
        r.stderr@ == error_message@,
        r.exit_code == -1,
        r.duration_ms == 0,
        r.timed_out == false,
{
    CodeExecutionResponse {
        execution_id: "error".to_owned(),
        stdout: String::new(),
        stderr: error_message.to_owned(),
        exit_code: -1,
        duration_ms: 0,
        timed_out: false,
    }
}

} // verus!
