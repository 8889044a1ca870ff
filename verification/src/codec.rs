//! Request codec: the fixed 4-byte header, the opcode registry, and the
//! whole-message encode and decode passes built from the primitive codec.

use vstd::prelude::*;

use crate::enums::Opcode;
use crate::error::{DecodeError, EncodeError};
use crate::prim::{
    pad_len, padded_len, u16_bytes, u16_from_bytes, xim_string_bytes, zero_bytes, Endian,
};
use crate::types::{view_opcode, Connect, ConnectReply, ReqView, Request, RequestHeader, XimString};

verus! {

/// The wire form of the 4-byte request header: major opcode byte, minor
/// opcode byte, then the payload length in 4-byte units.
pub open spec fn header_bytes(e: Endian, h: RequestHeader) -> Seq<u8> {
    seq![h.major_opcode.to_u8_spec(), h.minor_opcode] + u16_bytes(e, h.length)
}

/// What decoding a header from a byte sequence yields: fewer than 4 bytes
/// is `Incomplete`, a first byte naming no opcode is `InvalidEnumValue`,
/// and otherwise the typed header.
pub open spec fn decode_header_spec(e: Endian, b: Seq<u8>) -> Result<RequestHeader, DecodeError> {
    if b.len() < 4 {
        Err(DecodeError::Incomplete)
    } else {
        match Opcode::from_u8_spec(b[0]) {
            None => Err(DecodeError::InvalidEnumValue),
            Some(op) => Ok(
                RequestHeader {
                    major_opcode: op,
                    minor_opcode: b[1],
                    length: u16_from_bytes(e, b[2], b[3]),
                },
            ),
        }
    }
}

/// Append the 4 header bytes.
pub fn encode_header(e: Endian, out: &mut Vec<u8>, h: &RequestHeader)
    ensures
        final(out)@ == old(out)@ + header_bytes(e, *h),
{
    out.push(h.major_opcode.to_u8());
    out.push(h.minor_opcode);
    crate::prim::write_u16(e, out, h.length);
    assert(out@ =~= old(out)@ + header_bytes(e, *h));
}

/// Decode the fixed 4-byte header from the front of a buffer.
pub fn decode_header(e: Endian, buf: &[u8]) -> (r: Result<RequestHeader, DecodeError>)
    ensures
        r == decode_header_spec(e, buf@),
{
    if buf.len() < 4 {
        return Err(DecodeError::Incomplete);
    }
    let major = buf[0];
    match Opcode::from_u8(major) {
        None => Err(DecodeError::InvalidEnumValue),
        Some(op) => Ok(
            RequestHeader {
                major_opcode: op,
                minor_opcode: buf[1],
                length: crate::prim::read_u16(e, buf, 2),
            },
        ),
    }
}

/// Reading back the 4 bytes of an encoded header recovers the header.
pub proof fn lemma_header_round_trip(e: Endian, h: RequestHeader)
    ensures
        decode_header_spec(e, header_bytes(e, h)) == Ok::<RequestHeader, DecodeError>(h),
{
    crate::enums::lemma_opcode_wire_bijective(h.major_opcode, 0);
    crate::prim::lemma_u16_round_trip(e, h.length);
}

/// The payload shape a registered opcode pair dispatches to.
#[derive(Copy, Clone, Debug, PartialEq, Eq, Structural)]
pub enum PayloadShape {
    Connect,
    ConnectReply,
}

/// The registry in the decode direction: the payload shape of an opcode
/// pair, or `None` for an opcode with no registered shape. Every
/// registered shape sits under minor opcode 0.
pub open spec fn shape_of_opcode_spec(major: Opcode, minor: u8) -> Option<PayloadShape> {
    if minor != 0 {
        None
    } else {
        match major {
            Opcode::Connect => Some(PayloadShape::Connect),
            Opcode::ConnectReply => Some(PayloadShape::ConnectReply),
            _ => None,
        }
    }
}

/// The registry in the encode direction: the opcode pair a payload shape
/// is framed under.
pub open spec fn opcode_of_shape_spec(s: PayloadShape) -> (Opcode, u8) {
    match s {
        PayloadShape::Connect => (Opcode::Connect, 0),
        PayloadShape::ConnectReply => (Opcode::ConnectReply, 0),
    }
}

/// Look up the payload shape of an opcode pair.
pub fn shape_of_opcode(major: Opcode, minor: u8) -> (r: Option<PayloadShape>)
    ensures
        r == shape_of_opcode_spec(major, minor),
{
    if minor != 0 {
        None
    } else {
        match major {
            Opcode::Connect => Some(PayloadShape::Connect),
            Opcode::ConnectReply => Some(PayloadShape::ConnectReply),
            _ => None,
        }
    }
}

/// Look up the opcode pair a payload shape is framed under.
pub fn opcode_of_shape(s: PayloadShape) -> (r: (Opcode, u8))
    ensures
        r == opcode_of_shape_spec(s),
{
    match s {
        PayloadShape::Connect => (Opcode::Connect, 0),
        PayloadShape::ConnectReply => (Opcode::ConnectReply, 0),
    }
}

/// Greatest padded payload byte count the header's 16-bit length field,
/// counted in 4-byte units, can declare.
pub const MAX_PAYLOAD_BYTES: usize = 262140;

/// Every name of an auth-protocol list fits its 1-byte length prefix.
pub open spec fn names_valid(names: Seq<Seq<u8>>) -> bool {
    forall|i: int| 0 <= i < names.len() ==> (#[trigger] names[i]).len() <= 255
}

/// The concatenated padded string fields of an auth-protocol name list.
/// The list writes no element count: it runs to the end of the payload,
/// whose declared length frames it.
pub open spec fn names_bytes(names: Seq<Seq<u8>>) -> Seq<u8>
    decreases names.len(),
{
    if names.len() == 0 {
        Seq::empty()
    } else {
        xim_string_bytes(names[0]) + names_bytes(names.drop_first())
    }
}

/// The padded payload of a message view, without its header.
pub open spec fn payload_bytes(e: Endian, v: ReqView) -> Seq<u8> {
    match v {
        ReqView::Connect { client_major, client_minor, auth_names } => u16_bytes(e, client_major)
            + u16_bytes(e, client_minor) + names_bytes(auth_names),
        ReqView::ConnectReply { server_major, server_minor } => u16_bytes(e, server_major)
            + u16_bytes(e, server_minor),
    }
}

/// Whether some string field of a message view overflows its 1-byte
/// length prefix; such a message cannot be framed at all.
pub open spec fn has_oversize_name(v: ReqView) -> bool {
    match v {
        ReqView::Connect { auth_names, .. } => !names_valid(auth_names),
        ReqView::ConnectReply { .. } => false,
    }
}

/// Whether the padded payload of a message view fits the header's 16-bit
/// length field.
pub open spec fn payload_fits(v: ReqView) -> bool {
    match v {
        ReqView::Connect { auth_names, .. } => 4 + names_bytes(auth_names).len()
            <= MAX_PAYLOAD_BYTES,
        ReqView::ConnectReply { .. } => true,
    }
}

/// A message view the codec can frame: every string fits its length
/// prefix and the padded payload fits the header's length field.
pub open spec fn req_valid(v: ReqView) -> bool {
    !has_oversize_name(v) && payload_fits(v)
}

/// The whole encoded message: the 4-byte header, then the padded payload,
/// with the length field measuring the payload in 4-byte units.
pub open spec fn encode_request_spec(e: Endian, v: ReqView) -> Seq<u8> {
    let p = payload_bytes(e, v);
    header_bytes(
        e,
        RequestHeader {
            major_opcode: view_opcode(v),
            minor_opcode: 0,
            length: (p.len() / 4) as u16,
        },
    ) + p
}

/// What decoding a run of padded string fields yields: the fields in
/// order, or `None` when a declared string length runs past the end of
/// the payload. Pad byte values are not inspected.
pub open spec fn decode_names_spec(b: Seq<u8>) -> Option<Seq<Seq<u8>>>
    decreases b.len(),
{
    if b.len() == 0 {
        Some(Seq::empty())
    } else {
        let n = b[0] as nat;
        let field = padded_len(n + 1);
        if b.len() < field {
            None
        } else {
            match decode_names_spec(b.skip(field as int)) {
                None => None,
                Some(rest) => Some(seq![b.subrange(1, n as int + 1)] + rest),
            }
        }
    }
}

/// What decoding a `Connect` payload yields: version fields, then the
/// auth-protocol names up to the exact end of the payload; anything that
/// does not consume the payload exactly is `Malformed`.
pub open spec fn decode_connect_payload_spec(e: Endian, p: Seq<u8>) -> Result<
    ReqView,
    DecodeError,
> {
    if p.len() < 4 {
        Err(DecodeError::Malformed)
    } else {
        match decode_names_spec(p.skip(4)) {
            None => Err(DecodeError::Malformed),
            Some(names) => Ok(
                ReqView::Connect {
                    client_major: u16_from_bytes(e, p[0], p[1]),
                    client_minor: u16_from_bytes(e, p[2], p[3]),
                    auth_names: names,
                },
            ),
        }
    }
}

/// What decoding a `ConnectReply` payload yields: its two version fields,
/// which must fill the declared payload exactly.
pub open spec fn decode_connect_reply_payload_spec(e: Endian, p: Seq<u8>) -> Result<
    ReqView,
    DecodeError,
> {
    if p.len() != 4 {
        Err(DecodeError::Malformed)
    } else {
        Ok(
            ReqView::ConnectReply {
                server_major: u16_from_bytes(e, p[0], p[1]),
                server_minor: u16_from_bytes(e, p[2], p[3]),
            },
        )
    }
}

/// What decoding a whole message from the front of a buffer yields. Too
/// few bytes for the header, or for the payload the header declares, is
/// `Incomplete` — never an error, so a streaming caller can retry once
/// more bytes arrive. A major byte naming no opcode is
/// `InvalidEnumValue`; an opcode pair with no registered shape is
/// `UnknownOpcode`, with the framing intact so the caller may skip the
/// declared payload; a payload that disagrees with its declared length is
/// `Malformed`. On success, the message and the exact byte count consumed.
pub open spec fn decode_request_spec(e: Endian, b: Seq<u8>) -> Result<(ReqView, nat), DecodeError> {
    if b.len() < 4 {
        Err(DecodeError::Incomplete)
    } else {
        let total = 4 + 4 * (u16_from_bytes(e, b[2], b[3]) as nat);
        if b.len() < total {
            Err(DecodeError::Incomplete)
        } else {
            match Opcode::from_u8_spec(b[0]) {
                None => Err(DecodeError::InvalidEnumValue),
                Some(op) => match shape_of_opcode_spec(op, b[1]) {
                    None => Err(DecodeError::UnknownOpcode),
                    Some(shape) => {
                        let p = b.subrange(4, total as int);
                        let pr = match shape {
                            PayloadShape::Connect => decode_connect_payload_spec(e, p),
                            PayloadShape::ConnectReply => decode_connect_reply_payload_spec(e, p),
                        };
                        match pr {
                            Err(er) => Err(er),
                            Ok(v) => Ok((v, total)),
                        }
                    },
                },
            }
        }
    }
}

/// Padding law, list part: a run of padded string fields occupies a
/// multiple of 4 bytes.
pub proof fn lemma_names_bytes_aligned(names: Seq<Seq<u8>>)
    ensures
        names_bytes(names).len() % 4 == 0,
    decreases names.len(),
{
    if names.len() > 0 {
        crate::prim::lemma_xim_string_bytes_len(names[0]);
        lemma_names_bytes_aligned(names.drop_first());
    }
}

/// Padding law: every encoded payload is a multiple of 4 bytes long, and
/// the whole encoded message — header included — is too.
pub proof fn lemma_padding(e: Endian, v: ReqView)
    ensures
        payload_bytes(e, v).len() % 4 == 0,
        encode_request_spec(e, v).len() % 4 == 0,
        encode_request_spec(e, v).len() == 4 + payload_bytes(e, v).len(),
{
    match v {
        ReqView::Connect { auth_names, .. } => {
            lemma_names_bytes_aligned(auth_names);
        },
        ReqView::ConnectReply { .. } => {},
    }
}

/// Splitting a name list splits its wire bytes: the fields of a
/// concatenated list are the concatenated fields.
pub proof fn lemma_names_bytes_concat(a: Seq<Seq<u8>>, b: Seq<Seq<u8>>)
    ensures
        names_bytes(a + b) == names_bytes(a) + names_bytes(b),
    decreases a.len(),
{
    if a.len() == 0 {
        assert(a + b =~= b);
        assert(names_bytes(a) + names_bytes(b) =~= names_bytes(b));
    } else {
        assert((a + b).drop_first() =~= a.drop_first() + b);
        lemma_names_bytes_concat(a.drop_first(), b);
        assert(names_bytes(a + b) =~= names_bytes(a) + names_bytes(b));
    }
}

/// Decoding inverts encoding on a name list: reading padded string fields
/// back from their own wire bytes yields the same names again.
pub proof fn lemma_names_round_trip(names: Seq<Seq<u8>>)
    requires
        names_valid(names),
    ensures
        decode_names_spec(names_bytes(names)) == Some(names),
    decreases names.len(),
{
    if names.len() == 0 {
        assert(names =~= Seq::<Seq<u8>>::empty());
    } else {
        let s = names[0];
        let sb = xim_string_bytes(s);
        let b = names_bytes(names);
        crate::prim::lemma_xim_string_bytes_len(s);
        assert(s.len() <= 255);
        assert(b[0] == s.len() as u8);
        assert(b[0] as nat == s.len());
        assert(b.len() == sb.len() + names_bytes(names.drop_first()).len());
        assert(b.skip(sb.len() as int) =~= names_bytes(names.drop_first()));
        assert(b.subrange(1, s.len() as int + 1) =~= s);
        assert forall|i: int| 0 <= i < names.drop_first().len() implies (#[trigger] names.drop_first()[
            i
        ]).len() <= 255 by {
            assert(names[i + 1].len() <= 255);
        }
        lemma_names_round_trip(names.drop_first());
        assert(seq![s] + names.drop_first() =~= names);
    }
}

/// Round-trip fidelity: decoding the encoding of any valid message view
/// yields that view back, consuming exactly the encoded length.
pub proof fn lemma_request_round_trip(e: Endian, v: ReqView)
    requires
        req_valid(v),
    ensures
        decode_request_spec(e, encode_request_spec(e, v)) == Ok::<(ReqView, nat), DecodeError>(
            (v, encode_request_spec(e, v).len()),
        ),
{
    let p = payload_bytes(e, v);
    lemma_padding(e, v);
    assert(p.len() <= MAX_PAYLOAD_BYTES);
    vstd::arithmetic::div_mod::lemma_div_is_ordered(p.len() as int, MAX_PAYLOAD_BYTES as int, 4);
    vstd::arithmetic::div_mod::lemma_fundamental_div_mod(p.len() as int, 4);
    let units = (p.len() / 4) as u16;
    assert(units as nat * 4 == p.len());
    let op = view_opcode(v);
    let h = RequestHeader { major_opcode: op, minor_opcode: 0, length: units };
    let b = encode_request_spec(e, v);
    assert(b.len() == 4 + p.len());
    crate::prim::lemma_u16_round_trip(e, units);
    assert(b[2] == u16_bytes(e, units)[0]);
    assert(b[3] == u16_bytes(e, units)[1]);
    assert(u16_from_bytes(e, b[2], b[3]) == units);
    crate::enums::lemma_opcode_wire_bijective(op, 0);
    assert(b[0] == op.to_u8_spec());
    assert(b[1] == 0);
    assert(b.subrange(4, b.len() as int) =~= p);
    match v {
        ReqView::Connect { client_major, client_minor, auth_names } => {
            assert(p[0] == u16_bytes(e, client_major)[0]);
            assert(p[1] == u16_bytes(e, client_major)[1]);
            assert(p[2] == u16_bytes(e, client_minor)[0]);
            assert(p[3] == u16_bytes(e, client_minor)[1]);
            crate::prim::lemma_u16_round_trip(e, client_major);
            crate::prim::lemma_u16_round_trip(e, client_minor);
            assert(p.skip(4) =~= names_bytes(auth_names));
            lemma_names_round_trip(auth_names);
        },
        ReqView::ConnectReply { server_major, server_minor } => {
            assert(p.len() == 4);
            crate::prim::lemma_u16_round_trip(e, server_major);
            crate::prim::lemma_u16_round_trip(e, server_minor);
        },
    }
}

/// Incompleteness law: a buffer shorter than the 4-byte header, or
/// shorter than the frame its header declares, decodes to `Incomplete` —
/// whatever its bytes hold — so a streaming caller can always retry.
pub proof fn lemma_short_buffer_incomplete(e: Endian, b: Seq<u8>)
    requires
        b.len() < 4 || b.len() < 4 + 4 * (u16_from_bytes(e, b[2], b[3]) as nat),
    ensures
        decode_request_spec(e, b) == Err::<(ReqView, nat), DecodeError>(DecodeError::Incomplete),
{
}

/// String-overrun law, list part: a string field whose declared length
/// runs past the end of the payload fails the name-list decode.
pub proof fn lemma_string_overrun(b: Seq<u8>)
    requires
        0 < b.len() < padded_len(b[0] as nat + 1),
    ensures
        decode_names_spec(b) == None::<Seq<Seq<u8>>>,
{
}

/// String-overrun law: a fully framed `Connect` message whose name list
/// fails to decode — as when a declared string length exceeds the
/// remaining payload — decodes to `Malformed`, never a panic or an
/// out-of-bounds read.
pub proof fn lemma_string_overrun_malformed(e: Endian, b: Seq<u8>)
    requires
        b.len() >= 4,
        Opcode::from_u8_spec(b[0]) == Some(Opcode::Connect),
        b[1] == 0,
        b.len() >= 4 + 4 * (u16_from_bytes(e, b[2], b[3]) as nat),
        4 + 4 * (u16_from_bytes(e, b[2], b[3]) as nat) >= 8,
        decode_names_spec(
            b.subrange(4, 4 + 4 * (u16_from_bytes(e, b[2], b[3]) as int)).skip(4),
        ) is None,
    ensures
        decode_request_spec(e, b) == Err::<(ReqView, nat), DecodeError>(DecodeError::Malformed),
{
}

/// Registry symmetry: the two directions of the table invert each other,
/// so the opcode a message encodes under is the opcode its decoder
/// dispatches on, and each opcode resolves to exactly one shape.
pub proof fn lemma_registry_symmetry(s: PayloadShape, major: Opcode, minor: u8)
    ensures
        shape_of_opcode_spec(opcode_of_shape_spec(s).0, opcode_of_shape_spec(s).1) == Some(s),
        shape_of_opcode_spec(major, minor) matches Some(t) ==> opcode_of_shape_spec(t) == (
            major,
            minor,
        ),
{
}

/// Serialize a message: the payload is encoded first and measured, then
/// the header is prefixed with the measured length in 4-byte units.
/// Refused with `StringTooLong` exactly when some name overflows its
/// 1-byte length prefix, and with `PayloadTooLong` exactly when the names
/// fit but the padded payload outgrows the header's length field.
#[verifier::loop_isolation(false)]
pub fn encode_request(e: Endian, m: &Request) -> (r: Result<Vec<u8>, EncodeError>)
    ensures
        has_oversize_name(m@) ==> r == Err::<Vec<u8>, EncodeError>(EncodeError::StringTooLong),
        !has_oversize_name(m@) && !payload_fits(m@) ==> r == Err::<Vec<u8>, EncodeError>(
            EncodeError::PayloadTooLong,
        ),
        req_valid(m@) ==> (r matches Ok(b) && b@ == encode_request_spec(e, m@)),
{
    let mut payload: Vec<u8> = Vec::new();
    match m {
        Request::Connect(c) => {
            let names = &c.client_auth_protocol_names;
            let ghost name_views = names@.map_values(|s: XimString| s@);
            assert(m@ == ReqView::Connect {
                client_major: c.client_major_protocol_version,
                client_minor: c.client_minor_protocol_version,
                auth_names: name_views,
            });
            let mut i: usize = 0;
            while i < names.len()
                invariant
                    i <= names@.len(),
                    name_views == names@.map_values(|s: XimString| s@),
                    m@->Connect_auth_names == name_views,
                    forall|j: int| 0 <= j < i ==> (#[trigger] name_views[j]).len() <= 255,
                decreases names@.len() - i,
            {
                assert(name_views[i as int] == names@[i as int]@);
                if names[i].0.len() > 255 {
                    assert(name_views[i as int].len() > 255);
                    assert(!names_valid(name_views));
                    assert(has_oversize_name(m@));
                    return Err(EncodeError::StringTooLong);
                }
                i = i + 1;
            }
            assert(names_valid(name_views));
            crate::prim::write_u16(e, &mut payload, c.client_major_protocol_version);
            crate::prim::write_u16(e, &mut payload, c.client_minor_protocol_version);
            let ghost head = u16_bytes(e, c.client_major_protocol_version) + u16_bytes(
                e,
                c.client_minor_protocol_version,
            );
            assert(payload@ =~= head);
            let mut k: usize = 0;
            while k < names.len()
                invariant
                    k <= names@.len(),
                    name_views == names@.map_values(|s: XimString| s@),
                    names_valid(name_views),
                    head == u16_bytes(e, m@->Connect_client_major) + u16_bytes(
                        e,
                        m@->Connect_client_minor,
                    ),
                    m@->Connect_auth_names == name_views,
                    payload@ == head + names_bytes(name_views.take(k as int)),
                    payload@.len() <= MAX_PAYLOAD_BYTES,
                decreases names@.len() - k,
            {
                assert(name_views[k as int] == names@[k as int]@);
                assert(name_views[k as int].len() <= 255);
                crate::prim::write_xim_string(&mut payload, &names[k]);
                proof {
                    let single = seq![name_views[k as int]];
                    lemma_names_bytes_concat(name_views.take(k as int), single);
                    assert(name_views.take(k as int) + single =~= name_views.take(k as int + 1));
                    assert(single.drop_first() =~= Seq::<Seq<u8>>::empty());
                    assert(names_bytes(Seq::<Seq<u8>>::empty()) == Seq::<u8>::empty());
                    assert(names_bytes(single) == xim_string_bytes(single[0]) + names_bytes(
                        single.drop_first(),
                    ));
                    assert(names_bytes(single) =~= xim_string_bytes(name_views[k as int]));
                    assert(payload@ =~= head + names_bytes(name_views.take(k as int + 1)));
                }
                if payload.len() > MAX_PAYLOAD_BYTES {
                    proof {
                        lemma_names_bytes_concat(
                            name_views.take(k as int + 1),
                            name_views.skip(k as int + 1),
                        );
                        assert(name_views.take(k as int + 1) + name_views.skip(k as int + 1)
                            =~= name_views);
                        assert(names_bytes(name_views).len() >= names_bytes(
                            name_views.take(k as int + 1),
                        ).len());
                        assert(!payload_fits(m@));
                    }
                    return Err(EncodeError::PayloadTooLong);
                }
                k = k + 1;
            }
            assert(name_views.take(names@.len() as int) =~= name_views);
            assert(payload@ == payload_bytes(e, m@));
        },
        Request::ConnectReply(c) => {
            crate::prim::write_u16(e, &mut payload, c.server_major_protocol_version);
            crate::prim::write_u16(e, &mut payload, c.server_minor_protocol_version);
            assert(payload@ =~= payload_bytes(e, m@));
        },
    }
    proof {
        lemma_padding(e, m@);
        vstd::arithmetic::div_mod::lemma_div_is_ordered(
            payload@.len() as int,
            MAX_PAYLOAD_BYTES as int,
            4,
        );
        vstd::arithmetic::div_mod::lemma_fundamental_div_mod(payload@.len() as int, 4);
    }
    let units = payload.len() / 4;
    let header = RequestHeader {
        major_opcode: m.opcode(),
        minor_opcode: 0,
        length: units as u16,
    };
    let mut out: Vec<u8> = Vec::new();
    encode_header(e, &mut out, &header);
    out.append(&mut payload);
    assert(out@ =~= encode_request_spec(e, m@));
    Ok(out)
}

/// The total byte length of the frame at the front of a buffer — header
/// and declared payload together — or `Incomplete` when the 4 header
/// bytes are not all there yet. This is what a streaming caller skips to
/// keep its framing after an `UnknownOpcode` verdict.
pub fn frame_len(e: Endian, buf: &[u8]) -> (r: Result<usize, DecodeError>)
    ensures
        buf@.len() < 4 ==> r == Err::<usize, DecodeError>(DecodeError::Incomplete),
        buf@.len() >= 4 ==> r == Ok::<usize, DecodeError>(
            (4 + 4 * (u16_from_bytes(e, buf@[2], buf@[3]) as int)) as usize,
        ),
{
    if buf.len() < 4 {
        return Err(DecodeError::Incomplete);
    }
    let units = crate::prim::read_u16(e, buf, 2) as usize;
    Ok(4 + 4 * units)
}

/// Parse one message from the front of a buffer, returning the typed
/// message and the exact number of bytes consumed, or the typed failure
/// that `decode_request_spec` assigns to this buffer. Decoding never
/// panics and never reads past the end of the buffer.
#[verifier::loop_isolation(false)]
pub fn decode_request(e: Endian, buf: &[u8]) -> (r: Result<(Request, usize), DecodeError>)
    ensures
        r matches Ok(p) ==> decode_request_spec(e, buf@) == Ok::<(ReqView, nat), DecodeError>(
            (p.0@, p.1 as nat),
        ),
        r matches Err(er) ==> decode_request_spec(e, buf@) == Err::<(ReqView, nat), DecodeError>(
            er,
        ),
{
    if buf.len() < 4 {
        return Err(DecodeError::Incomplete);
    }
    let units = crate::prim::read_u16(e, buf, 2) as usize;
    let total = 4 + 4 * units;
    if buf.len() < total {
        return Err(DecodeError::Incomplete);
    }
    let major = match Opcode::from_u8(buf[0]) {
        None => {
            return Err(DecodeError::InvalidEnumValue);
        },
        Some(op) => op,
    };
    let shape = match shape_of_opcode(major, buf[1]) {
        None => {
            return Err(DecodeError::UnknownOpcode);
        },
        Some(s) => s,
    };
    let ghost p = buf@.subrange(4, total as int);
    assert(p.len() == 4 * units);
    match shape {
        PayloadShape::ConnectReply => {
            if units != 1 {
                return Err(DecodeError::Malformed);
            }
            let reply = ConnectReply {
                server_major_protocol_version: crate::prim::read_u16(e, buf, 4),
                server_minor_protocol_version: crate::prim::read_u16(e, buf, 6),
            };
            assert(p[0] == buf@[4] && p[1] == buf@[5] && p[2] == buf@[6] && p[3] == buf@[7]);
            Ok((Request::ConnectReply(reply), total))
        },
        PayloadShape::Connect => {
            if units < 1 {
                return Err(DecodeError::Malformed);
            }
            let client_major = crate::prim::read_u16(e, buf, 4);
            let client_minor = crate::prim::read_u16(e, buf, 6);
            assert(p[0] == buf@[4] && p[1] == buf@[5] && p[2] == buf@[6] && p[3] == buf@[7]);
            let mut names: Vec<XimString> = Vec::new();
            let mut pos: usize = 8;
            assert(p.skip(4) =~= buf@.subrange(8, total as int));
            while pos < total
                invariant
                    8 <= pos <= total <= buf@.len(),
                    p == buf@.subrange(4, total as int),
                    decode_names_spec(p.skip(4)) == (match decode_names_spec(
                        buf@.subrange(pos as int, total as int),
                    ) {
                        None => None::<Seq<Seq<u8>>>,
                        Some(rest) => Some(names@.map_values(|s: XimString| s@) + rest),
                    }),
                decreases total - pos,
            {
                let ghost suffix = buf@.subrange(pos as int, total as int);
                let n = buf[pos] as usize;
                assert(suffix[0] == buf@[pos as int]);
                let field = (n + 1) + crate::prim::pad_amount(n + 1);
                assert(field == padded_len(n as nat + 1));
                if total - pos < field {
                    assert(suffix.len() < padded_len(suffix[0] as nat + 1));
                    assert(decode_names_spec(suffix) is None);
                    assert(decode_names_spec(p.skip(4)) is None);
                    assert(decode_connect_payload_spec(e, p) == Err::<ReqView, DecodeError>(
                        DecodeError::Malformed,
                    ));
                    assert(decode_request_spec(e, buf@) == Err::<(ReqView, nat), DecodeError>(
                        DecodeError::Malformed,
                    ));
                    return Err(DecodeError::Malformed);
                }
                let name = crate::prim::copy_range(buf, pos + 1, pos + 1 + n);
                proof {
                    assert(suffix.subrange(1, n as int + 1) =~= buf@.subrange(
                        pos as int + 1,
                        pos as int + 1 + n as int,
                    ));
                    assert(suffix.skip(field as int) =~= buf@.subrange(
                        pos as int + field as int,
                        total as int,
                    ));
                    assert((names@.push(XimString(name))).map_values(|s: XimString| s@)
                        =~= names@.map_values(|s: XimString| s@) + seq![name@]);
                    assert(decode_names_spec(suffix) == (match decode_names_spec(
                        suffix.skip(field as int),
                    ) {
                        None => None::<Seq<Seq<u8>>>,
                        Some(rest) => Some(seq![name@] + rest),
                    }));
                }
                names.push(XimString(name));
                pos = pos + field;
            }
            assert(buf@.subrange(pos as int, total as int) =~= Seq::<u8>::empty());
            assert(decode_names_spec(p.skip(4)) == Some(
                names@.map_values(|s: XimString| s@),
            ));
            let msg = Connect {
                client_major_protocol_version: client_major,
                client_minor_protocol_version: client_minor,
                client_auth_protocol_names: names,
            };
            Ok((Request::Connect(msg), total))
        },
    }
}

} // verus!
