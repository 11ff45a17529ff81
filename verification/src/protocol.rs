//! The frames exchanged over the channel and the limits on their size.
//!
//! A frame travels as one JSON packet; turning frames into bytes and back is
//! done outside this library. Here stand the frame values themselves and
//! the checks made on the packets that carry them.
use vstd::prelude::*;
use crate::name::SecretName;
use crate::policy::DenyReason;

verus! {

/// The only protocol version spoken.
pub const PROTOCOL_VERSION: u16 = 1;

/// The largest packet sent or accepted, in bytes.
pub const MAX_FRAME_SIZE: usize = 64 * 1024;

#[verifier::external_type_specification]
#[verifier::external_body]
pub struct ExIoError(std::io::Error);

#[verifier::external_type_specification]
#[verifier::external_body]
pub struct ExJsonError(serde_json::Error);

/// Why a frame could not be sent or received.
#[derive(Debug)]
pub enum ProtocolError {
    Io(std::io::Error),
    Json(serde_json::Error),
    FrameTooLarge { len: usize },
}

/// What a child may ask for.
pub enum Request {
    Get { name: SecretName },
}

/// A request with the protocol version it was written for.
pub struct RequestFrame {
    pub version: u16,
    pub request: Request,
}

/// Why the broker could not answer with a value.
#[derive(Debug, Clone, Copy, PartialEq, Eq, Structural)]
pub enum ErrorCode {
    UnsupportedVersion,
    SecretNotFound,
}

/// The broker's answer to one request.
pub enum Response {
    Value { value: String },
    Denied { reason: DenyReason },
    Error { code: ErrorCode },
}

/// A response with the protocol version it was written for.
pub struct ResponseFrame {
    pub version: u16,
    pub response: Response,
}

/// The verdict on an encoded frame of `encoded_len` bytes about to be sent.
pub open spec fn outgoing_verdict(encoded_len: usize) -> Result<(), ProtocolError> {
    if encoded_len > MAX_FRAME_SIZE {
        Err(ProtocolError::FrameTooLarge { len: encoded_len })
    } else {
        Ok(())
    }
}

/// The verdict on a received packet of `packet_len` bytes of which
/// `kept_len` fitted in the buffer: a truncated packet is too large, an
/// empty one marks the end of the channel, anything else is a frame of
/// that length.
pub open spec fn incoming_verdict(kept_len: usize, packet_len: usize) -> Result<Option<usize>, ProtocolError> {
    if packet_len > kept_len {
        Err(ProtocolError::FrameTooLarge { len: packet_len })
    } else if kept_len == 0 {
        Ok(None)
    } else {
        Ok(Some(kept_len))
    }
}

/// `std::io::Error::new` with kind `WriteZero`; nothing is stated of the
/// error value beyond its existence.
#[verifier::external_body]
fn short_send_error() -> std::io::Error {
    std::io::Error::new(std::io::ErrorKind::WriteZero, "short packet send")
}

/// Admits an encoded frame for sending: it must fit in one packet.
pub fn check_outgoing(encoded_len: usize) -> (checked: Result<(), ProtocolError>)
    ensures
        checked == outgoing_verdict(encoded_len),
{
    if encoded_len > MAX_FRAME_SIZE {
        Err(ProtocolError::FrameTooLarge { len: encoded_len })
    } else {
        Ok(())
    }
}

/// Confirms that a send carried the whole packet; a short send is an
/// I/O error.
pub fn check_sent(sent: usize, packet_len: usize) -> (checked: Result<(), ProtocolError>)
    ensures
        checked is Ok <==> sent == packet_len,
        checked matches Err(e) ==> e is Io,
{
    if sent != packet_len {
        Err(ProtocolError::Io(short_send_error()))
    } else {
        Ok(())
    }
}

/// Classifies a received packet from the length kept in the buffer and the
/// length the packet really had.
pub fn check_incoming(kept_len: usize, packet_len: usize) -> (checked: Result<Option<usize>, ProtocolError>)
    ensures
        checked == incoming_verdict(kept_len, packet_len),
{
    if packet_len > kept_len {
        return Err(ProtocolError::FrameTooLarge { len: packet_len });
    }
    if kept_len == 0 {
        return Ok(None);
    }
    Ok(Some(kept_len))
}

/// The length a receive keeps of a packet when the buffer holds one
/// frame of the largest size.
pub open spec fn kept_of(packet_len: usize) -> usize {
    if packet_len <= MAX_FRAME_SIZE {
        packet_len
    } else {
        MAX_FRAME_SIZE
    }
}

/// Sender and receiver agree on the limit: a non-empty frame the sender
/// admits arrives whole, and a packet the sender would refuse as too large
/// is refused by the receiver too, with the same length.
pub proof fn sender_and_receiver_agree_on_the_limit(packet_len: usize)
    ensures
        outgoing_verdict(packet_len) is Ok && packet_len > 0 ==> incoming_verdict(kept_of(packet_len), packet_len)
            == Ok::<Option<usize>, ProtocolError>(Some(packet_len)),
        outgoing_verdict(packet_len) is Err ==> outgoing_verdict(packet_len) == Err::<(), ProtocolError>(
            ProtocolError::FrameTooLarge { len: packet_len },
        ) && incoming_verdict(kept_of(packet_len), packet_len) == Err::<Option<usize>, ProtocolError>(
            ProtocolError::FrameTooLarge { len: packet_len },
        ),
{
}

} // verus!
