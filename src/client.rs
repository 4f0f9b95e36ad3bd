use vstd::prelude::*;
use vstd::string::*;
use crate::protocol::Response;
use crate::registry::Session;

verus! {

/// Declares std::io::Error, carried opaquely by `ClientError::Io`.
#[verifier::external_type_specification]
#[verifier::external_body]
pub struct ExIoError(std::io::Error);

/// Declares serde_json::Error, carried opaquely by `ClientError::Json`.
#[verifier::external_type_specification]
#[verifier::external_body]
pub struct ExJsonError(serde_json::Error);

/// Why a controller's request to a session failed.
#[derive(Debug)]
pub enum ClientError {
    /// Reading or writing the endpoint failed.
    Io(std::io::Error),
    /// A message could not be encoded or decoded.
    Json(serde_json::Error),
    /// No session is registered with a live endpoint.
    NoSessions,
    /// No endpoint exists for this session id.
    SessionNotFound(String),
    /// The session answered with an error, or with a response of the wrong kind.
    Server(String),
}

/// The message for a response of the wrong kind.
pub open spec fn unexpected_message() -> Seq<char> {
    "Unexpected response"@
}

/// Whether `e` is a server error with message `m`.
pub open spec fn is_server_error(e: ClientError, m: Seq<char>) -> bool {
    match e {
        ClientError::Server(s) => s@ == m,
        _ => false,
    }
}

/// The error owed for a response `resp` of the wrong kind: the session's own
/// message when it sent one.
pub open spec fn failure_for(resp: Response, e: ClientError) -> bool {
    match resp {
        Response::Error { message } => is_server_error(e, message@),
        _ => is_server_error(e, unexpected_message()),
    }
}

fn unexpected(resp: Response) -> (r: ClientError)
    requires
        !(resp is Error),
    ensures
        failure_for(resp, r),
{
    ClientError::Server(String::from_str("Unexpected response"))
}

/// The id of the most recently started session of a listing (its last
/// entry), or `NoSessions` when it is empty.
pub fn latest_session_id(sessions: &Vec<Session>) -> (r: Result<String, ClientError>)
    ensures
        sessions@.len() == 0 <==> r is Err,
        r is Err ==> r->Err_0 is NoSessions,
        r is Ok ==> r->Ok_0 == sessions@.last().id,
{
    let n = sessions.len();
    if n == 0 {
        Err(ClientError::NoSessions)
    } else {
        Ok(sessions[n - 1].id.clone())
    }
}

/// Succeeds when the endpoint of session `session_id` exists.
pub fn check_endpoint(session_id: &str, endpoint_exists: bool) -> (r: Result<(), ClientError>)
    ensures
        endpoint_exists <==> r is Ok,
        !endpoint_exists ==> (match r {
            Err(ClientError::SessionNotFound(id)) => id@ == session_id@,
            _ => false,
        }),
{
    if endpoint_exists {
        Ok(())
    } else {
        Err(ClientError::SessionNotFound(String::from_str(session_id)))
    }
}

/// The scrollback text of a `scrollback` response.
pub fn scrollback_from(resp: Response) -> (r: Result<String, ClientError>)
    ensures
        resp is Scrollback <==> r is Ok,
        r is Ok ==> r->Ok_0 == resp->Scrollback_content,
        r is Err ==> failure_for(resp, r->Err_0),
{
    match resp {
        Response::Scrollback { content } => Ok(content),
        Response::Error { message } => Err(ClientError::Server(message)),
        other => Err(unexpected(other)),
    }
}

/// The (row, column) of a `cursor` response.
pub fn cursor_from(resp: Response) -> (r: Result<(usize, usize), ClientError>)
    ensures
        resp is Cursor <==> r is Ok,
        r is Ok ==> r->Ok_0 == (resp->Cursor_row, resp->Cursor_col),
        r is Err ==> failure_for(resp, r->Err_0),
{
    match resp {
        Response::Cursor { row, col } => Ok((row, col)),
        Response::Error { message } => Err(ClientError::Server(message)),
        other => Err(unexpected(other)),
    }
}

/// The (rows, columns) of a `size` response.
pub fn size_from(resp: Response) -> (r: Result<(u16, u16), ClientError>)
    ensures
        resp is Size <==> r is Ok,
        r is Ok ==> r->Ok_0 == (resp->Size_rows, resp->Size_cols),
        r is Err ==> failure_for(resp, r->Err_0),
{
    match resp {
        Response::Size { rows, cols } => Ok((rows, cols)),
        Response::Error { message } => Err(ClientError::Server(message)),
        other => Err(unexpected(other)),
    }
}

/// Success when an injection was acknowledged with `ok`.
pub fn injected_from(resp: Response) -> (r: Result<(), ClientError>)
    ensures
        resp is Success <==> r is Ok,
        r is Err ==> failure_for(resp, r->Err_0),
{
    match resp {
        Response::Success => Ok(()),
        Response::Error { message } => Err(ClientError::Server(message)),
        other => Err(unexpected(other)),
    }
}

} // verus!
