//! One authentication attempt: what is sent to the server, and what the
//! server's answer means for a connectivity probe and for a session.
//!
//! The network exchange itself happens outside this module. The caller sends
//! the [`TokenRequest`] built here, reports back what came of it as an
//! [`Exchange`], and, when asked to, what the response body decoded to.

use vstd::prelude::*;
use crate::endpoint::{normalize_endpoint, normalized};

verus! {

/// The connection details a user typed in for one attempt.
pub struct ConnectionParts {
    pub host: String,
    pub port: String,
    pub email: String,
    pub password: String,
}

/// The JSON body of the token request: the two credential fields and nothing else.
pub struct Credentials {
    pub email: String,
    pub password: String,
}

/// An HTTP POST of `credentials`, as JSON, to `url`.
pub struct TokenRequest {
    pub url: String,
    pub credentials: Credentials,
}

/// The decoded body of a successful token response.
pub struct TokenResult {
    pub token: String,
}

/// What came of sending a [`TokenRequest`].
#[derive(Clone, Copy, Debug, PartialEq, Eq, Structural)]
pub enum Exchange {
    /// The server answered with this HTTP status code.
    Response(u16),
    /// No answer: DNS, connection or I/O failure.
    TransportFailure,
}

/// Why an attempt failed.
#[derive(Clone, Copy, Debug, PartialEq, Eq, Structural)]
pub enum AuthError {
    /// The request never got an answer.
    Transport,
    /// The server answered with a status that does not mean success.
    Status(u16),
    /// A success response whose body is not `{"token": <string>}`.
    Decode,
}

/// What a session attempt does once the exchange is over.
#[derive(Debug)]
pub enum SessionStep {
    /// The status was 200: read the body and decode it.
    ReadBody,
    /// The attempt is over, with this outcome.
    Finished(Result<String, AuthError>),
}

pub const STATUS_OK: u16 = 200;

pub const STATUS_CREATED: u16 = 201;

/// The path of the token endpoint, below the server's base URL.
pub open spec fn token_path() -> Seq<char> {
    seq!['/', 'u', 's', 'e', 'r', '/', 't', 'o', 'k', 'e', 'n', '/']
}

/// The URL that the token request for `host` and `port` goes to.
pub open spec fn token_url_of(host: Seq<char>, port: Seq<char>) -> Seq<char> {
    normalized(host, port) + token_path()
}

/// The request that the attempt for `parts` sends.
pub open spec fn is_request_for(req: TokenRequest, parts: ConnectionParts) -> bool {
    &&& req.url@ == token_url_of(parts.host@, parts.port@)
    &&& req.credentials.email@ == parts.email@
    &&& req.credentials.password@ == parts.password@
}

/// Statuses that count as a successful probe: 200 and 201.
pub open spec fn probe_accepts(status: u16) -> bool {
    status == STATUS_OK || status == STATUS_CREATED
}

/// The outcome of a connectivity probe, with the cause of failure.
pub open spec fn probe_outcome(e: Exchange) -> Result<u16, AuthError> {
    match e {
        Exchange::Response(s) => if probe_accepts(s) {
            Ok(s)
        } else {
            Err(AuthError::Status(s))
        },
        Exchange::TransportFailure => Err(AuthError::Transport),
    }
}

/// The outcome of a session attempt. `decoded` is what the body decoded to; it
/// matters only where the status is 200.
pub open spec fn session_outcome(e: Exchange, decoded: Option<Seq<char>>) -> Result<
    Seq<char>,
    AuthError,
> {
    match e {
        Exchange::Response(s) => if s == STATUS_OK {
            match decoded {
                Some(t) => Ok(t),
                None => Err(AuthError::Decode),
            }
        } else {
            Err(AuthError::Status(s))
        },
        Exchange::TransportFailure => Err(AuthError::Transport),
    }
}

/// The token a session attempt hands its caller: empty on any failure.
pub open spec fn session_token(e: Exchange, decoded: Option<Seq<char>>) -> Seq<char> {
    match session_outcome(e, decoded) {
        Ok(t) => t,
        Err(_) => Seq::empty(),
    }
}

/// The token that a decoded body holds, as characters.
pub open spec fn token_view(d: Option<TokenResult>) -> Option<Seq<char>> {
    match d {
        Some(t) => Some(t.token@),
        None => None,
    }
}

/// A session outcome with its token as characters.
pub open spec fn outcome_view(r: Result<String, AuthError>) -> Result<Seq<char>, AuthError> {
    match r {
        Ok(t) => Ok(t@),
        Err(x) => Err(x),
    }
}

/// The URL of the token endpoint: the normalized base URL followed by `/user/token/`.
pub fn token_url(host: &str, port: &str) -> (r: String)
    ensures
        r@ == token_url_of(host@, port@),
{
    let mut r = normalize_endpoint(host, port);
    r.append("/user/token/");
    proof {
        reveal_strlit("/user/token/");
        assert(r@ =~= token_url_of(host@, port@));
    }
    r
}

/// The request of one attempt. Host and port go into the URL only; the body
/// carries the email and the password.
pub fn token_request(parts: &ConnectionParts) -> (r: TokenRequest)
    ensures
        is_request_for(r, *parts),
{
    TokenRequest {
        url: token_url(parts.host.as_str(), parts.port.as_str()),
        credentials: Credentials {
            email: parts.email.clone(),
            password: parts.password.clone(),
        },
    }
}

/// Interprets the exchange of a connectivity probe.
pub fn probe(e: Exchange) -> (r: Result<u16, AuthError>)
    ensures
        r == probe_outcome(e),
{
    match e {
        Exchange::Response(s) => if s == STATUS_OK || s == STATUS_CREATED {
            Ok(s)
        } else {
            Err(AuthError::Status(s))
        },
        Exchange::TransportFailure => Err(AuthError::Transport),
    }
}

/// Whether the server accepted the credentials: true exactly when it answered
/// 200 or 201. Every failure, transport or status, gives false.
pub fn test_connection(e: Exchange) -> (r: bool)
    ensures
        r == probe_outcome(e) is Ok,
        r <==> (exists|s: u16| e == Exchange::Response(s) && probe_accepts(s)),
{
    match probe(e) {
        Ok(_) => true,
        Err(_) => false,
    }
}

/// What a session attempt does after the exchange: read the body on 200,
/// finish with the failure otherwise.
pub fn session_step(e: Exchange) -> (r: SessionStep)
    ensures
        r is ReadBody <==> e == Exchange::Response(STATUS_OK),
        r matches SessionStep::Finished(o) ==> outcome_view(o) == session_outcome(e, None),
{
    match e {
        Exchange::Response(s) => if s == STATUS_OK {
            SessionStep::ReadBody
        } else {
            SessionStep::Finished(Err(AuthError::Status(s)))
        },
        Exchange::TransportFailure => SessionStep::Finished(Err(AuthError::Transport)),
    }
}

/// The outcome of a session attempt, given the exchange and what the body
/// decoded to (`None`: it was not `{"token": <string>}`). The body counts only
/// where the status is 200.
pub fn session(e: Exchange, decoded: Option<TokenResult>) -> (r: Result<String, AuthError>)
    ensures
        outcome_view(r) == session_outcome(e, token_view(decoded)),
{
    match session_step(e) {
        SessionStep::ReadBody => match decoded {
            Some(t) => Ok(t.token),
            None => Err(AuthError::Decode),
        },
        SessionStep::Finished(o) => o,
    }
}

/// The token of a finished session attempt, or the empty string where it failed.
pub fn token_or_empty(o: Result<String, AuthError>) -> (r: String)
    ensures
        o matches Ok(t) ==> r == t,
        o is Err ==> r@ == Seq::<char>::empty(),
{
    match o {
        Ok(t) => t,
        Err(_) => String::new(),
    }
}

/// The session token, or the empty string when the attempt failed for any
/// reason: transport, status other than 200, or a body without a string `token`.
pub fn connect(e: Exchange, decoded: Option<TokenResult>) -> (r: String)
    ensures
        r@ == session_token(e, token_view(decoded)),
{
    token_or_empty(session(e, decoded))
}

} // verus!
