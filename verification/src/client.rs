//! The child's side: asking for a secret and reading the broker's reply.
use vstd::prelude::*;
use crate::name::SecretName;
use crate::policy::DenyReason;
use crate::protocol::{ErrorCode, ProtocolError, Request, RequestFrame, Response, ResponseFrame, PROTOCOL_VERSION};
use crate::session::broker_reply;

verus! {

/// Why a request for a secret did not yield its value.
#[derive(Debug)]
pub enum ClientError {
    Protocol(ProtocolError),
    Denied(DenyReason),
    Remote(ErrorCode),
    UnsupportedVersion(u16),
    Closed,
}

/// The child's end of the channel to the broker.
pub struct Client<C> {
    channel: C,
}

impl<C> Client<C> {
    /// The channel.
    pub closed spec fn channel_of(&self) -> C {
        self.channel
    }

    /// A client speaking over `channel`.
    pub fn new(channel: C) -> (client: Self)
        ensures
            client.channel_of() == channel,
    {
        Client { channel }
    }

    /// The channel.
    pub fn channel(&self) -> (channel: &C)
        ensures
            *channel == self.channel_of(),
    {
        &self.channel
    }
}

/// The request frame asking for `name`.
pub open spec fn request_for(name: SecretName) -> RequestFrame {
    RequestFrame { version: PROTOCOL_VERSION, request: Request::Get { name } }
}

/// What the child makes of what it received after asking: the value, or
/// why there is none. A reply of another version is refused whatever it
/// says.
pub open spec fn reply_outcome(received: Result<Option<ResponseFrame>, ProtocolError>) -> Result<String, ClientError> {
    match received {
        Err(e) => Err(ClientError::Protocol(e)),
        Ok(None) => Err(ClientError::Closed),
        Ok(Some(frame)) => if frame.version != PROTOCOL_VERSION {
            Err(ClientError::UnsupportedVersion(frame.version))
        } else {
            match frame.response {
                Response::Value { value } => Ok(value),
                Response::Denied { reason } => Err(ClientError::Denied(reason)),
                Response::Error { code } => Err(ClientError::Remote(code)),
            }
        },
    }
}

/// Builds the request for `name`.
pub fn get_request(name: SecretName) -> (frame: RequestFrame)
    ensures
        frame == request_for(name),
{
    RequestFrame { version: PROTOCOL_VERSION, request: Request::Get { name } }
}

/// Reads the reply to a request.
pub fn read_reply(received: Result<Option<ResponseFrame>, ProtocolError>) -> (outcome: Result<String, ClientError>)
    ensures
        outcome == reply_outcome(received),
{
    let response = match received {
        Err(e) => return Err(ClientError::Protocol(e)),
        Ok(None) => return Err(ClientError::Closed),
        Ok(Some(frame)) => frame,
    };
    if response.version != PROTOCOL_VERSION {
        return Err(ClientError::UnsupportedVersion(response.version));
    }
    match response.response {
        Response::Value { value } => Ok(value),
        Response::Denied { reason } => Err(ClientError::Denied(reason)),
        Response::Error { code } => Err(ClientError::Remote(code)),
    }
}

/// What a child obtains when it asks the broker for `name`: the resolved
/// value if the name is allowed and the resolver found it; a denial if the
/// name is not allowed (whatever the resolver would have said); the
/// missing-secret error if it is allowed but the resolver found nothing.
pub proof fn client_receives_the_broker_decision(allowed: Set<Seq<char>>, name: SecretName, resolved: Option<String>)
    ensures
        reply_outcome(Ok(Some(broker_reply(allowed, request_for(name), resolved)))) == (if !allowed.contains(name@) {
            Err::<String, ClientError>(ClientError::Denied(DenyReason::NotAllowed))
        } else {
            match resolved {
                Some(value) => Ok::<String, ClientError>(value),
                None => Err::<String, ClientError>(ClientError::Remote(ErrorCode::SecretNotFound)),
            }
        }),
{
}

/// A request of another version is answered with an error the child reads
/// as the broker's unsupported-version code.
pub proof fn other_versions_are_refused_by_the_broker(allowed: Set<Seq<char>>, frame: RequestFrame, resolved: Option<String>)
    requires
        frame.version != PROTOCOL_VERSION,
    ensures
        reply_outcome(Ok(Some(broker_reply(allowed, frame, resolved))))
            == Err::<String, ClientError>(ClientError::Remote(ErrorCode::UnsupportedVersion)),
{
}

} // verus!
