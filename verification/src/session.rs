//! The broker session: the decisions of serving one request, as a state
//! machine whose actions (receive a frame, ask the resolver, send a frame)
//! are carried out by the caller, which hands back what came of them.
//!
//! Serving one request runs: `begin_serve`; receive a frame and hand it to
//! `on_request`; if that asks for the secret, resolve it and build the
//! answer with `resolution_frame`; send the answer and hand the outcome to
//! `on_sent`.
use vstd::prelude::*;
use crate::name::SecretName;
use crate::policy::{decide, decision_for, Decision, SecretNameSet};
use crate::protocol::{ErrorCode, ProtocolError, Request, RequestFrame, Response, ResponseFrame, PROTOCOL_VERSION};

verus! {

/// Why serving a request failed.
#[derive(Debug)]
pub enum SessionError {
    Protocol(ProtocolError),
    Closed,
}

/// What the session needs next after reading a request.
pub enum ServeStep {
    /// Send this frame; the request needs nothing more.
    Respond(ResponseFrame),
    /// Ask the resolver for this secret, then answer with `resolution_frame`.
    Resolve(SecretName),
}

/// A session between the broker and one child: the child's channel, the
/// names it may obtain, and whether the session has failed. A failed
/// session serves nothing more.
pub struct BrokerSession<C> {
    child: C,
    allowed: SecretNameSet,
    failed: bool,
}

/// A response frame of the current version.
pub open spec fn reply(response: Response) -> ResponseFrame {
    ResponseFrame { version: PROTOCOL_VERSION, response }
}

/// What a well-received request leads to: a request of another version is
/// answered with an error, a denied name with the denial, and an allowed
/// name is handed to the resolver.
pub open spec fn request_step(allowed: Set<Seq<char>>, frame: RequestFrame) -> ServeStep {
    if frame.version != PROTOCOL_VERSION {
        ServeStep::Respond(reply(Response::Error { code: ErrorCode::UnsupportedVersion }))
    } else {
        match frame.request {
            Request::Get { name } => match decision_for(allowed, name@) {
                Decision::Deny(reason) => ServeStep::Respond(reply(Response::Denied { reason })),
                Decision::Allow => ServeStep::Resolve(name),
            },
        }
    }
}

/// The answer once the resolver has spoken: the value, or an error naming
/// the missing secret.
pub open spec fn resolution_reply(value: Option<String>) -> ResponseFrame {
    match value {
        Some(value) => reply(Response::Value { value }),
        None => reply(Response::Error { code: ErrorCode::SecretNotFound }),
    }
}

/// The frame the broker sends for a well-received request, given what the
/// resolver would say if asked.
pub open spec fn broker_reply(allowed: Set<Seq<char>>, frame: RequestFrame, resolved: Option<String>) -> ResponseFrame {
    match request_step(allowed, frame) {
        ServeStep::Respond(answer) => answer,
        ServeStep::Resolve(_) => resolution_reply(resolved),
    }
}

/// Whether the session has failed after receiving `received`: it fails on
/// anything but a frame, and stays failed.
pub open spec fn failed_after_receive(failed: bool, received: Result<Option<RequestFrame>, ProtocolError>) -> bool {
    failed || !(received matches Ok(Some(_)))
}

/// Whether the session has failed after a send with outcome `sent`.
pub open spec fn failed_after_send(failed: bool, sent: Result<(), ProtocolError>) -> bool {
    failed || sent is Err
}

impl<C> BrokerSession<C> {
    /// The names this session may hand out.
    pub closed spec fn allowed_names(&self) -> Set<Seq<char>> {
        self.allowed@
    }

    /// Whether the session has failed.
    pub closed spec fn has_failed(&self) -> bool {
        self.failed
    }

    /// The child's channel.
    pub closed spec fn child_channel(&self) -> C {
        self.child
    }

    /// A fresh session with `child` that may hand out the names in `allowed`.
    pub fn new(child: C, allowed: SecretNameSet) -> (session: Self)
        ensures
            session.allowed_names() == allowed@,
            !session.has_failed(),
            session.child_channel() == child,
    {
        BrokerSession { child, allowed, failed: false }
    }

    /// The child's channel.
    pub fn child(&self) -> (child: &C)
        ensures
            *child == self.child_channel(),
    {
        &self.child
    }

    /// The child's channel, to wait on it.
    pub fn child_mut(&mut self) -> (child: &mut C)
        ensures
            *child == old(self).child_channel(),
            final(self).child_channel() == *final(child),
            final(self).allowed_names() == old(self).allowed_names(),
            final(self).has_failed() == old(self).has_failed(),
    {
        &mut self.child
    }

    /// Opens the serving of one request: a failed session refuses.
    pub fn begin_serve(&self) -> (opened: Result<(), SessionError>)
        ensures
            opened is Ok <==> !self.has_failed(),
            opened is Err ==> opened == Err::<(), SessionError>(SessionError::Closed),
    {
        if self.failed {
            Err(SessionError::Closed)
        } else {
            Ok(())
        }
    }

    /// Takes what the receive brought: a frame goes on to `request_step`; the
    /// end of the channel or a receive error fails the session.
    pub fn on_request(&mut self, received: Result<Option<RequestFrame>, ProtocolError>) -> (next: Result<ServeStep, SessionError>)
        ensures
            final(self).has_failed() == failed_after_receive(old(self).has_failed(), received),
            received matches Ok(Some(_)) ==> final(self).has_failed() == old(self).has_failed(),
            final(self).allowed_names() == old(self).allowed_names(),
            final(self).child_channel() == old(self).child_channel(),
            match received {
                Ok(Some(frame)) => next == Ok::<ServeStep, SessionError>(request_step(old(self).allowed_names(), frame)),
                Ok(None) => next == Err::<ServeStep, SessionError>(SessionError::Closed),
                Err(e) => next == Err::<ServeStep, SessionError>(SessionError::Protocol(e)),
            },
    {
        let request = match received {
            Ok(Some(request)) => request,
            Ok(None) => {
                self.failed = true;
                return Err(SessionError::Closed);
            },
            Err(error) => {
                self.failed = true;
                return Err(SessionError::Protocol(error));
            },
        };
        if request.version != PROTOCOL_VERSION {
            return Ok(ServeStep::Respond(ResponseFrame {
                version: PROTOCOL_VERSION,
                response: Response::Error { code: ErrorCode::UnsupportedVersion },
            }));
        }
        match request.request {
            Request::Get { name } => match decide(&name, &self.allowed) {
                Decision::Deny(reason) => Ok(ServeStep::Respond(ResponseFrame {
                    version: PROTOCOL_VERSION,
                    response: Response::Denied { reason },
                })),
                Decision::Allow => Ok(ServeStep::Resolve(name)),
            },
        }
    }

    /// Takes the outcome of sending the answer: a send error fails the
    /// session.
    pub fn on_sent(&mut self, sent: Result<(), ProtocolError>) -> (served: Result<(), SessionError>)
        ensures
            final(self).has_failed() == failed_after_send(old(self).has_failed(), sent),
            final(self).allowed_names() == old(self).allowed_names(),
            final(self).child_channel() == old(self).child_channel(),
            match sent {
                Ok(()) => served == Ok::<(), SessionError>(()),
                Err(e) => served == Err::<(), SessionError>(SessionError::Protocol(e)),
            },
    {
        match sent {
            Ok(()) => Ok(()),
            Err(error) => {
                self.failed = true;
                Err(SessionError::Protocol(error))
            },
        }
    }
}

/// The answer to an allowed request once the resolver has spoken.
pub fn resolution_frame(value: Option<String>) -> (frame: ResponseFrame)
    ensures
        frame == resolution_reply(value),
{
    match value {
        Some(value) => ResponseFrame { version: PROTOCOL_VERSION, response: Response::Value { value } },
        None => ResponseFrame {
            version: PROTOCOL_VERSION,
            response: Response::Error { code: ErrorCode::SecretNotFound },
        },
    }
}

/// A failed session stays failed whatever comes next, and refuses to serve.
pub proof fn failure_is_final(received: Result<Option<RequestFrame>, ProtocolError>, sent: Result<(), ProtocolError>)
    ensures
        failed_after_receive(true, received),
        failed_after_send(true, sent),
{
}

/// Receiving a frame, of any version and asking for any name, never fails
/// a live session; only the end of the channel or a receive error does.
pub proof fn frames_never_fail_a_live_session(frame: RequestFrame, error: ProtocolError)
    ensures
        !failed_after_receive(false, Ok(Some(frame))),
        failed_after_receive(false, Ok(None)),
        failed_after_receive(false, Err(error)),
{
}

/// The resolver is asked only for a name on the list, and only for a
/// request of the current version; the name it is asked for is the one
/// requested.
pub proof fn resolver_sees_only_allowed_names(allowed: Set<Seq<char>>, frame: RequestFrame)
    ensures
        request_step(allowed, frame) matches ServeStep::Resolve(name) ==> {
            &&& frame.version == PROTOCOL_VERSION
            &&& allowed.contains(name@)
            &&& frame.request == (Request::Get { name })
        },
{
}

/// Every request of the current version is answered in the current
/// version, and one of another version is answered with the unsupported
/// version error whatever it asks.
pub proof fn every_answer_is_versioned(allowed: Set<Seq<char>>, frame: RequestFrame, resolved: Option<String>)
    ensures
        broker_reply(allowed, frame, resolved).version == PROTOCOL_VERSION,
        frame.version != PROTOCOL_VERSION ==> broker_reply(allowed, frame, resolved) == reply(
            Response::Error { code: ErrorCode::UnsupportedVersion },
        ),
{
}

} // verus!
