use vstd::prelude::*;

verus! {

/// Protocol version marker carried by every request.
pub const PROTOCOL_VERSION: &'static str = "2.0";

/// Request identifier; every call of a run uses the same one.
pub const REQUEST_ID: u64 = 1;

/// Connection state of one run: the endpoint and, once logged in, the token.
#[derive(Debug, Clone, PartialEq, Eq)]
pub struct Session {
    pub url: String,
    pub token: Option<String>,
}

/// The fixed part of a request envelope; the parameters travel beside it.
#[derive(Debug, Clone, PartialEq, Eq)]
pub struct RequestHeader {
    pub jsonrpc: String,
    pub method: String,
    pub id: u64,
    pub auth: Option<String>,
}

/// An application-level error object of a response envelope.
#[derive(Debug, Clone, PartialEq, Eq)]
pub struct RpcFault {
    pub code: i64,
    pub message: String,
    pub data: Option<String>,
}

/// A response envelope as decoded from the body, with the result in the
/// shape that the caller asked for.
#[derive(Debug, Clone, PartialEq, Eq)]
pub struct ResponseEnvelope<T> {
    pub result: Option<T>,
    pub error: Option<RpcFault>,
}

/// Why one remote call failed.
#[derive(Debug, Clone, PartialEq, Eq)]
pub enum CallError {
    /// The request could not be sent or the response could not be read.
    Unreachable { detail: String },
    /// The server answered with a status outside 200..=299.
    Http { status: u16, body: String },
    /// The body is not a response envelope of the expected shape.
    Malformed { body: String },
    /// The envelope holds neither a result nor an error.
    Protocol,
    /// The remote system answered with an error object.
    Rpc(RpcFault),
}

impl CallError {
    /// Transport errors are those of the connection and the HTTP layer, as
    /// opposed to protocol violations and application errors.
    pub open spec fn spec_is_transport(&self) -> bool {
        self is Unreachable || self is Http || self is Malformed
    }

    pub fn is_transport(&self) -> (r: bool)
        ensures
            r == self.spec_is_transport(),
    {
        match self {
            CallError::Unreachable { .. } | CallError::Http { .. } | CallError::Malformed { .. } => true,
            _ => false,
        }
    }
}

impl Session {
    pub fn new(url: String) -> (r: Session)
        ensures
            r.url == url,
            r.token is None,
    {
        Session { url, token: None }
    }

    pub fn is_authenticated(&self) -> (r: bool)
        ensures
            r == self.token is Some,
    {
        self.token.is_some()
    }

    /// Records the token that a login returned; every later request carries it.
    pub fn authenticate(&mut self, token: String)
        ensures
            final(self).url == old(self).url,
            final(self).token == Some(token),
    {
        self.token = Some(token);
    }

    /// The envelope header of a call of `method`: version marker, method,
    /// the constant request id, and the token where there is one.
    pub fn request_header(&self, method: &str) -> (r: RequestHeader)
        ensures
            r.jsonrpc@ == PROTOCOL_VERSION@,
            r.method@ == method@,
            r.id == REQUEST_ID,
            r.auth == self.token,
    {
        let auth = match &self.token {
            Some(t) => Some(t.clone()),
            None => None,
        };
        RequestHeader {
            jsonrpc: String::from_str(PROTOCOL_VERSION),
            method: String::from_str(method),
            id: REQUEST_ID,
            auth,
        }
    }
}

pub open spec fn is_success_status(status: u16) -> bool {
    200 <= status <= 299
}

/// Turns an HTTP status, the raw body and the envelope decoded from it
/// (`None` where the body did not decode) into the call's outcome.
pub fn classify_response<T>(status: u16, body: String, envelope: Option<ResponseEnvelope<T>>) -> (r:
    Result<T, CallError>)
    ensures
        !is_success_status(status) ==> r == Err::<T, CallError>(CallError::Http { status, body }),
        is_success_status(status) && envelope is None ==> r == Err::<T, CallError>(
            CallError::Malformed { body },
        ),
        is_success_status(status) && envelope is Some ==> match envelope->Some_0.error {
            Some(f) => r == Err::<T, CallError>(CallError::Rpc(f)),
            None => match envelope->Some_0.result {
                Some(v) => r == Ok::<T, CallError>(v),
                None => r == Err::<T, CallError>(CallError::Protocol),
            },
        },
{
    if status < 200 || status > 299 {
        return Err(CallError::Http { status, body });
    }
    match envelope {
        None => Err(CallError::Malformed { body }),
        Some(env) => match env.error {
            Some(f) => Err(CallError::Rpc(f)),
            None => match env.result {
                Some(v) => Ok(v),
                None => Err(CallError::Protocol),
            },
        },
    }
}

} // verus!
