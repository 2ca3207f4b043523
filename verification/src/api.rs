//! Decisions of the backend request, login and submission flows: status
//! classification, credential validation and the poll-loop exit test. The
//! HTTP traffic itself lives outside the library.

use vstd::prelude::*;

verus! {

use crate::config::{Config, lang_name_spec};

/// What the standard-alphabet base64 encoder returns for a byte sequence.
pub uninterp spec fn base64_of(data: Seq<u8>) -> Seq<char>;

/// Relies on base64's `Engine::encode` with the standard padded alphabet:
/// the result is a function of the bytes alone, four characters for every
/// three bytes begun. The length bound keeps the encoder's buffer-size
/// computation from overflowing, on which it would panic.
#[verifier::external_body]
fn base64_encode(data: &Vec<u8>) -> (r: String)
    requires
        data@.len() < usize::MAX / 4,
    ensures
        r@ == base64_of(data@),
        r@.len() == ((data@.len() + 2) / 3) * 4,
{
    base64::Engine::encode(&base64::engine::general_purpose::STANDARD, data.as_slice())
}

/// The payload of a bot submission: the configured language's name, and
/// the archived strategy bytes encoded for transport.
pub struct SubmissionPayload {
    pub language: String,
    pub data: String,
}

/// Builds the submission payload the backend expects from the archived
/// strategy subtree.
pub fn make_submission_payload(config: &Config, archive: &Vec<u8>) -> (r: SubmissionPayload)
    requires
        archive@.len() < usize::MAX / 4,
    ensures
        r.language@ == lang_name_spec(config.language),
        r.data@ == base64_of(archive@),
        r.data@.len() == ((archive@.len() + 2) / 3) * 4,
{
    SubmissionPayload {
        language: String::from_str(config.language.name()),
        data: base64_encode(archive),
    }
}

/// Category of a failing backend status code, rendered differently to the
/// user for each.
#[derive(Clone, Copy, Debug, PartialEq, Eq, Structural)]
pub enum ApiErrorKind {
    BadRequest,
    Unauthorized,
    ServerError,
    Other,
}

/// Whether an HTTP status code reports success.
pub fn status_is_success(status: u16) -> (r: bool)
    ensures
        r == (200 <= status < 300),
{
    200 <= status && status < 300
}

/// The error category of a failing status code.
pub fn classify_status(status: u16) -> (r: ApiErrorKind)
    ensures
        status == 400 ==> r == ApiErrorKind::BadRequest,
        status == 401 ==> r == ApiErrorKind::Unauthorized,
        status == 500 ==> r == ApiErrorKind::ServerError,
        status != 400 && status != 401 && status != 500 ==> r == ApiErrorKind::Other,
{
    if status == 400 {
        ApiErrorKind::BadRequest
    } else if status == 401 {
        ApiErrorKind::Unauthorized
    } else if status == 500 {
        ApiErrorKind::ServerError
    } else {
        ApiErrorKind::Other
    }
}

/// Why a login attempt is rejected before any request is sent.
#[derive(Clone, Copy, Debug, PartialEq, Eq, Structural)]
pub enum LoginError {
    EmptyTeamName,
    EmptyPassword,
}

/// Validates login input: neither the team name (already trimmed by the
/// caller) nor the password may be empty.
pub fn validate_credentials(team: &str, password: &str) -> (r: Result<(), LoginError>)
    ensures
        team@.len() == 0 ==> r == Err::<(), LoginError>(LoginError::EmptyTeamName),
        team@.len() > 0 && password@.len() == 0 ==> r == Err::<(), LoginError>(
            LoginError::EmptyPassword,
        ),
        team@.len() > 0 && password@.len() > 0 ==> r is Ok,
{
    if team.unicode_len() == 0 {
        Err(LoginError::EmptyTeamName)
    } else if password.unicode_len() == 0 {
        Err(LoginError::EmptyPassword)
    } else {
        Ok(())
    }
}

/// Compilation status of a submission, as the backend reports it while
/// being polled.
#[derive(Clone, Copy, Debug, PartialEq, Eq, Structural)]
pub enum CompilationStatus {
    Pending,
    Success,
    Failure,
}

/// The poll loop stops exactly when compilation has left the pending
/// state.
pub fn submission_finished(status: &CompilationStatus) -> (r: bool)
    ensures
        r == !(*status is Pending),
{
    !matches!(status, CompilationStatus::Pending)
}

} // verus!
