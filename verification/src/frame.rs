//! Websocket frames of the game protocol.
//!
//! A frame starts with a type byte: 1 for a notification, 2 for a request,
//! 3 for a response. Requests and responses then carry a little-endian `u16`
//! message id, so their header is three bytes; a notification's header is the
//! type byte alone. The rest of the frame is a protobuf-encoded envelope
//! (`BaseMessage`) whose decoding is done by the caller.

use vstd::prelude::*;

verus! {

/// Requests and responses: a type byte followed by a little-endian u16 id.
pub const HEADER_LEN: usize = 3;

#[derive(Debug, Clone, Copy, PartialEq, Eq, Structural)]
pub enum MessageKind {
    Notify,
    Request(u16),
    Response(u16),
}

/// Why a frame was refused.
#[derive(Debug, Clone, Copy, PartialEq, Eq, Structural)]
pub enum FrameError {
    /// The frame holds no byte at all.
    Empty,
    /// The type byte is none of 1, 2, 3.
    InvalidType(u8),
    /// A request travelled from the server to the client.
    RequestFromServer,
    /// A response travelled from the client to the server.
    ResponseFromClient,
    /// A request or response shorter than its three-byte header.
    Truncated,
    /// A response whose envelope names a method.
    NamedResponse,
    /// The envelope is not valid protobuf.
    MalformedEnvelope,
}

/// The outer envelope of every message: the method name and the encoded body.
#[derive(Debug, Clone)]
pub struct BaseMessage {
    pub method_name: String,
    pub data: Vec<u8>,
}

/// The game's error record (`lq.Error`).
#[derive(Debug, Clone)]
pub struct ProtocolError {
    pub code: u32,
    pub u32_params: Vec<u32>,
    pub str_params: Vec<String>,
    pub json_param: String,
}

/// Field 1 of most responses: the error the server answered with, if any.
/// Only this field is read, to log refused requests the same way whatever
/// the response's type.
#[derive(Debug, Clone)]
pub struct ResponseError {
    pub error: Option<ProtocolError>,
}

/// The id of a request or response: bytes 1 and 2, little-endian.
pub open spec fn spec_message_id(buf: Seq<u8>) -> Result<u16, FrameError> {
    if buf.len() >= HEADER_LEN {
        Ok((buf[1] + 256 * buf[2]) as u16)
    } else {
        Err(FrameError::Truncated)
    }
}

pub fn message_id(buf: &[u8]) -> (r: Result<u16, FrameError>)
    ensures
        r == spec_message_id(buf@),
{
    if buf.len() < HEADER_LEN {
        return Err(FrameError::Truncated);
    }
    Ok(buf[1] as u16 + buf[2] as u16 * 256)
}

/// The kind of a frame and the length of its header, given the direction it
/// travels in.
pub open spec fn spec_frame_header(buf: Seq<u8>, from_client: bool) -> Result<(MessageKind, usize), FrameError> {
    if buf.len() == 0 {
        Err(FrameError::Empty)
    } else if buf[0] == 1 {
        Ok((MessageKind::Notify, 1))
    } else if buf[0] == 2 {
        if !from_client {
            Err(FrameError::RequestFromServer)
        } else {
            match spec_message_id(buf) {
                Ok(id) => Ok((MessageKind::Request(id), HEADER_LEN)),
                Err(e) => Err(e),
            }
        }
    } else if buf[0] == 3 {
        if from_client {
            Err(FrameError::ResponseFromClient)
        } else {
            match spec_message_id(buf) {
                Ok(id) => Ok((MessageKind::Response(id), HEADER_LEN)),
                Err(e) => Err(e),
            }
        }
    } else {
        Err(FrameError::InvalidType(buf[0]))
    }
}

/// Reads a frame header: requests only come from the client, responses only
/// from the server.
pub fn frame_header(buf: &[u8], from_client: bool) -> (r: Result<(MessageKind, usize), FrameError>)
    ensures
        r == spec_frame_header(buf@, from_client),
        r matches Ok((_, n)) ==> n <= buf@.len(),
{
    if buf.len() == 0 {
        return Err(FrameError::Empty);
    }
    let kind = buf[0];
    if kind == 1 {
        Ok((MessageKind::Notify, 1))
    } else if kind == 2 {
        if !from_client {
            return Err(FrameError::RequestFromServer);
        }
        match message_id(buf) {
            Ok(id) => Ok((MessageKind::Request(id), HEADER_LEN)),
            Err(e) => Err(e),
        }
    } else if kind == 3 {
        if from_client {
            return Err(FrameError::ResponseFromClient);
        }
        match message_id(buf) {
            Ok(id) => Ok((MessageKind::Response(id), HEADER_LEN)),
            Err(e) => Err(e),
        }
    } else {
        Err(FrameError::InvalidType(kind))
    }
}

/// A frame with its header read and its envelope decoded.
#[derive(Debug)]
pub struct ParsedMessage {
    pub kind: MessageKind,
    pub envelope: BaseMessage,
}

impl ParsedMessage {
    /// Completes a parse from the header and the outcome of decoding the
    /// envelope: a response must not name a method.
    pub fn assemble(kind: MessageKind, envelope: Result<BaseMessage, FrameError>) -> (r: Result<
        ParsedMessage,
        FrameError,
    >)
        ensures
            match envelope {
                Err(e) => r == Err::<ParsedMessage, FrameError>(e),
                Ok(env) => if kind is Response && env.method_name@.len() != 0 {
                    r == Err::<ParsedMessage, FrameError>(FrameError::NamedResponse)
                } else {
                    r matches Ok(p) && p.kind == kind && p.envelope == env
                },
            },
    {
        match envelope {
            Err(e) => Err(e),
            Ok(env) => {
                if let MessageKind::Response(_) = kind {
                    if !env.method_name.as_str().is_empty() {
                        return Err(FrameError::NamedResponse);
                    }
                }
                Ok(ParsedMessage { kind, envelope: env })
            },
        }
    }
}

} // verus!
