//! Typed XIM protocol messages and payload fragments.

use vstd::prelude::*;

use crate::enums::Opcode;

verus! {

/// A byte-length-prefixed text value: on the wire, a 1-byte length, the
/// content bytes, then zero padding to the next 4-byte boundary. Content
/// bytes are not validated here; text encoding is negotiated at a higher
/// layer. The bytes are owned, so a decoded string outlives the buffer it
/// came from.
#[derive(Clone, Debug, PartialEq, Eq)]
pub struct XimString(pub Vec<u8>);

impl View for XimString {
    type V = Seq<u8>;

    open spec fn view(&self) -> Seq<u8> {
        self.0@
    }
}

/// Payload of the connection-establishment request.
#[derive(Clone, Debug, PartialEq, Eq)]
pub struct Connect {
    pub client_major_protocol_version: u16,
    pub client_minor_protocol_version: u16,
    pub client_auth_protocol_names: Vec<XimString>,
}

/// Payload of the server's answer to `Connect`.
#[derive(Copy, Clone, Debug, PartialEq, Eq, Structural)]
pub struct ConnectReply {
    pub server_major_protocol_version: u16,
    pub server_minor_protocol_version: u16,
}

/// A typed protocol message: one variant per decodable opcode.
#[derive(Clone, Debug, PartialEq, Eq)]
pub enum Request {
    Connect(Connect),
    ConnectReply(ConnectReply),
}

/// Mathematical model of a `Request`: the same tagged shape with the
/// owned byte vectors abstracted to sequences.
pub ghost enum ReqView {
    Connect { client_major: u16, client_minor: u16, auth_names: Seq<Seq<u8>> },
    ConnectReply { server_major: u16, server_minor: u16 },
}

impl View for Connect {
    type V = ReqView;

    open spec fn view(&self) -> ReqView {
        ReqView::Connect {
            client_major: self.client_major_protocol_version,
            client_minor: self.client_minor_protocol_version,
            auth_names: self.client_auth_protocol_names@.map_values(|s: XimString| s@),
        }
    }
}

impl View for Request {
    type V = ReqView;

    open spec fn view(&self) -> ReqView {
        match self {
            Request::Connect(c) => c@,
            Request::ConnectReply(c) => ReqView::ConnectReply {
                server_major: c.server_major_protocol_version,
                server_minor: c.server_minor_protocol_version,
            },
        }
    }
}

/// The opcode a message view is framed under.
pub open spec fn view_opcode(v: ReqView) -> Opcode {
    match v {
        ReqView::Connect { .. } => Opcode::Connect,
        ReqView::ConnectReply { .. } => Opcode::ConnectReply,
    }
}

impl Request {
    /// The opcode this message is framed under; the mapping from variant
    /// to opcode is total, so every message can be encoded.
    pub fn opcode(&self) -> (r: Opcode)
        ensures
            r == view_opcode(self@),
    {
        match self {
            Request::Connect(..) => Opcode::Connect,
            Request::ConnectReply(..) => Opcode::ConnectReply,
        }
    }
}

/// The fixed 4-byte request header: major and minor opcode bytes, then the
/// payload length counted in 4-byte units, excluding the header itself.
#[derive(Copy, Clone, Debug, PartialEq, Eq, Structural)]
pub struct RequestHeader {
    pub major_opcode: Opcode,
    pub minor_opcode: u8,
    pub length: u16,
}

/// Descriptor of an input-method attribute: identifier, value type, and
/// name.
#[derive(Clone, Debug, PartialEq, Eq)]
pub struct Attr {
    pub id: u16,
    pub type_: u16,
    pub name: XimString,
}

/// A named attribute reference carried in value-list messages.
#[derive(Clone, Debug, PartialEq, Eq)]
pub struct Attribute {
    pub id: u16,
    pub name: XimString,
}

/// One entry of an encoding-negotiation list.
#[derive(Clone, Debug, PartialEq, Eq)]
pub struct EncodingInfo {
    pub name: XimString,
}

/// Text carried by a string-conversion message.
#[derive(Clone, Debug, PartialEq, Eq)]
pub struct StrConvText {
    pub type_: u16,
    pub text: XimString,
}

/// A key event that triggers the input method on or off: a fixed-size
/// 12-byte record on the wire.
#[derive(Copy, Clone, Debug, PartialEq, Eq, Structural)]
pub struct TriggerKey {
    pub keysym: u32,
    pub modifier: u32,
    pub modifier_mask: u32,
}

/// Caret-movement instruction of a preedit-caret message.
#[derive(Copy, Clone, Debug, PartialEq, Eq, Structural)]
pub struct PreeditCaret {
    pub method_id: u16,
    pub context_id: u16,
    pub position: i32,
    pub direction: crate::enums::CaretDirection,
    pub style: crate::enums::CaretStyle,
}

/// The client's answer to a preedit-caret message.
#[derive(Copy, Clone, Debug, PartialEq, Eq, Structural)]
pub struct PreeditCaretReply {
    pub method_id: u16,
    pub context_id: u16,
    pub position: i32,
}

/// End of a preedit-drawing exchange for one input context.
#[derive(Copy, Clone, Debug, PartialEq, Eq, Structural)]
pub struct PreeditDone {
    pub method_id: u16,
    pub context_id: u16,
}

} // verus!
