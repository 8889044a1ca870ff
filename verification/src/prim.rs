//! Primitive codec: fixed-width integers in either byte order, 4-byte
//! padding, length-prefixed strings, and counted lists of fixed-size
//! records, per the XIM alignment rules.
//!
//! Writers append to a caller-owned buffer; readers take a buffer and a
//! cursor position. Nothing here advances state beyond what the caller
//! passes in.

use vstd::prelude::*;

use crate::enums::{CaretDirection, CaretStyle, FeedbackSet, StrConvFeedbackSet};
use crate::error::DecodeError;
use crate::types::{PreeditCaret, TriggerKey, XimString};

verus! {

/// Byte order of one XIM connection, negotiated at connect time and fixed
/// thereafter.
#[derive(Copy, Clone, Debug, PartialEq, Eq, Structural)]
pub enum Endian {
    Big,
    Little,
}

/// Zero bytes appended after `n` payload bytes so the next field begins on
/// a 4-byte boundary.
pub open spec fn pad_len(n: nat) -> nat {
    (((4 - n % 4) % 4) as nat)
}

/// `n` rounded up to the next multiple of 4.
pub open spec fn padded_len(n: nat) -> nat {
    n + pad_len(n)
}

/// A run of `n` zero pad bytes.
pub open spec fn zero_bytes(n: nat) -> Seq<u8> {
    Seq::new(n, |i: int| 0u8)
}

/// Rounding up to a 4-byte boundary yields a multiple of 4, adds less
/// than 4, and is the identity on multiples of 4.
pub proof fn lemma_padded_len(n: nat)
    ensures
        padded_len(n) % 4 == 0,
        n <= padded_len(n) < n + 4,
        n % 4 == 0 ==> padded_len(n) == n,
{
}

/// The number of pad bytes that follow `n` content bytes.
pub fn pad_amount(n: usize) -> (r: usize)
    ensures
        r == pad_len(n as nat),
{
    (4 - n % 4) % 4
}

/// The two bytes of a 16-bit integer in the given byte order.
pub open spec fn u16_bytes(e: Endian, v: u16) -> Seq<u8> {
    match e {
        Endian::Big => seq![(v / 256) as u8, (v % 256) as u8],
        Endian::Little => seq![(v % 256) as u8, (v / 256) as u8],
    }
}

/// The 16-bit integer read from two bytes in the given byte order.
pub open spec fn u16_from_bytes(e: Endian, b0: u8, b1: u8) -> u16 {
    match e {
        Endian::Big => (b0 as int * 256 + b1 as int) as u16,
        Endian::Little => (b1 as int * 256 + b0 as int) as u16,
    }
}

/// Reading back the two bytes of a 16-bit integer, in either byte order,
/// recovers the integer.
pub proof fn lemma_u16_round_trip(e: Endian, v: u16)
    ensures
        u16_from_bytes(e, u16_bytes(e, v)[0], u16_bytes(e, v)[1]) == v,
{
    assert(v / 256 * 256 + v % 256 == v) by {
        vstd::arithmetic::div_mod::lemma_fundamental_div_mod(v as int, 256);
    }
}

/// The four bytes of a 32-bit integer in the given byte order.
pub open spec fn u32_bytes(e: Endian, v: u32) -> Seq<u8> {
    let b0 = (v / 0x1000000) as u8;
    let b1 = ((v / 0x10000) % 256) as u8;
    let b2 = ((v / 256) % 256) as u8;
    let b3 = (v % 256) as u8;
    match e {
        Endian::Big => seq![b0, b1, b2, b3],
        Endian::Little => seq![b3, b2, b1, b0],
    }
}

/// The 32-bit integer read from four bytes in the given byte order, most
/// significant first for `Big`.
pub open spec fn u32_from_bytes(e: Endian, b0: u8, b1: u8, b2: u8, b3: u8) -> u32 {
    match e {
        Endian::Big => (b0 as int * 0x1000000 + b1 as int * 0x10000 + b2 as int * 256
            + b3 as int) as u32,
        Endian::Little => (b3 as int * 0x1000000 + b2 as int * 0x10000 + b1 as int * 256
            + b0 as int) as u32,
    }
}

/// Reading back the four bytes of a 32-bit integer, in either byte order,
/// recovers the integer.
pub proof fn lemma_u32_round_trip(e: Endian, v: u32)
    ensures
        u32_from_bytes(
            e,
            u32_bytes(e, v)[0],
            u32_bytes(e, v)[1],
            u32_bytes(e, v)[2],
            u32_bytes(e, v)[3],
        ) == v,
{
    assert(v / 0x1000000 * 0x1000000 + (v / 0x10000) % 256 * 0x10000 + (v / 256) % 256 * 256 + v
        % 256 == v) by (bit_vector);
}

/// Encoding inverts decoding on a 32-bit field: whatever four bytes were
/// read, writing the integer read from them reproduces those bytes.
pub proof fn lemma_u32_bytes_inverse(e: Endian, b0: u8, b1: u8, b2: u8, b3: u8)
    ensures
        u32_bytes(e, u32_from_bytes(e, b0, b1, b2, b3)) == seq![b0, b1, b2, b3],
{
    let w = u32_from_bytes(e, b0, b1, b2, b3);
    match e {
        Endian::Big => {
            assert(w == b0 as u32 * 0x1000000 + b1 as u32 * 0x10000 + b2 as u32 * 256
                + b3 as u32);
            assert(w / 0x1000000 == b0 as u32 && w / 0x10000 % 256 == b1 as u32 && w / 256 % 256
                == b2 as u32 && w % 256 == b3 as u32) by (bit_vector)
                requires
                    w == b0 as u32 * 0x1000000 + b1 as u32 * 0x10000 + b2 as u32 * 256
                        + b3 as u32,
            ;
            assert(u32_bytes(e, w) =~= seq![b0, b1, b2, b3]);
        },
        Endian::Little => {
            assert(w == b3 as u32 * 0x1000000 + b2 as u32 * 0x10000 + b1 as u32 * 256
                + b0 as u32);
            assert(w / 0x1000000 == b3 as u32 && w / 0x10000 % 256 == b2 as u32 && w / 256 % 256
                == b1 as u32 && w % 256 == b0 as u32) by (bit_vector)
                requires
                    w == b3 as u32 * 0x1000000 + b2 as u32 * 0x10000 + b1 as u32 * 256
                        + b0 as u32,
            ;
            assert(u32_bytes(e, w) =~= seq![b0, b1, b2, b3]);
        },
    }
}

/// Bitflag round trip: a preedit feedback field decoded from any four
/// wire bytes — an undefined bit such as `0x200` included — re-encodes to
/// exactly those bytes; unknown bits are preserved, never dropped or
/// rejected.
pub proof fn lemma_feedback_field_preserved(e: Endian, b0: u8, b1: u8, b2: u8, b3: u8)
    ensures
        u32_bytes(
            e,
            (FeedbackSet { bits: u32_from_bytes(e, b0, b1, b2, b3) }).bits,
        ) == seq![b0, b1, b2, b3],
{
    lemma_u32_bytes_inverse(e, b0, b1, b2, b3);
}

/// The unsigned 32-bit two's-complement image of a signed position value.
pub open spec fn i32_to_wire_spec(v: i32) -> u32 {
    if v >= 0 {
        v as u32
    } else {
        (v + 0x100000000) as u32
    }
}

/// The signed position value read back from its unsigned 32-bit image.
pub open spec fn i32_from_wire_spec(w: u32) -> i32 {
    if w < 0x80000000 {
        w as i32
    } else {
        (w - 0x100000000) as i32
    }
}

/// The two's-complement image is invertible: every signed value survives
/// the trip to the wire integer and back, and every wire integer survives
/// the trip through the signed value.
pub proof fn lemma_i32_wire_round_trip(v: i32, w: u32)
    ensures
        i32_from_wire_spec(i32_to_wire_spec(v)) == v,
        i32_to_wire_spec(i32_from_wire_spec(w)) == w,
{
}

/// Encode a signed 32-bit value as its two's-complement wire integer.
pub fn i32_to_wire(v: i32) -> (r: u32)
    ensures
        r == i32_to_wire_spec(v),
{
    if v >= 0 {
        v as u32
    } else {
        let wide: i64 = v as i64 + 0x100000000i64;
        wide as u32
    }
}

/// Decode a two's-complement wire integer back to its signed value.
pub fn i32_from_wire(w: u32) -> (r: i32)
    ensures
        r == i32_from_wire_spec(w),
{
    if w < 0x80000000 {
        w as i32
    } else {
        let wide: i64 = w as i64 - 0x100000000i64;
        wide as i32
    }
}

/// Append one byte.
pub fn write_u8(out: &mut Vec<u8>, v: u8)
    ensures
        final(out)@ == old(out)@.push(v),
{
    out.push(v);
}

/// Append a 16-bit integer in the given byte order.
pub fn write_u16(e: Endian, out: &mut Vec<u8>, v: u16)
    ensures
        final(out)@ == old(out)@ + u16_bytes(e, v),
{
    match e {
        Endian::Big => {
            out.push((v / 256) as u8);
            out.push((v % 256) as u8);
        },
        Endian::Little => {
            out.push((v % 256) as u8);
            out.push((v / 256) as u8);
        },
    }
    assert(out@ =~= old(out)@ + u16_bytes(e, v));
}

/// Append a 32-bit integer in the given byte order.
pub fn write_u32(e: Endian, out: &mut Vec<u8>, v: u32)
    ensures
        final(out)@ == old(out)@ + u32_bytes(e, v),
{
    let b0: u8 = (v / 0x1000000) as u8;
    let b1: u8 = ((v / 0x10000) % 256) as u8;
    let b2: u8 = ((v / 256) % 256) as u8;
    let b3: u8 = (v % 256) as u8;
    match e {
        Endian::Big => {
            out.push(b0);
            out.push(b1);
            out.push(b2);
            out.push(b3);
        },
        Endian::Little => {
            out.push(b3);
            out.push(b2);
            out.push(b1);
            out.push(b0);
        },
    }
    assert(out@ =~= old(out)@ + u32_bytes(e, v));
}

/// Append a signed 32-bit integer as its two's-complement image in the
/// given byte order.
pub fn write_i32(e: Endian, out: &mut Vec<u8>, v: i32)
    ensures
        final(out)@ == old(out)@ + u32_bytes(e, i32_to_wire_spec(v)),
{
    let w = i32_to_wire(v);
    write_u32(e, out, w);
}

/// Read one byte.
pub fn read_u8(buf: &[u8], pos: usize) -> (r: u8)
    requires
        pos < buf@.len(),
    ensures
        r == buf@[pos as int],
{
    buf[pos]
}

/// Read a 16-bit integer in the given byte order.
pub fn read_u16(e: Endian, buf: &[u8], pos: usize) -> (r: u16)
    requires
        pos + 2 <= buf@.len(),
    ensures
        r == u16_from_bytes(e, buf@[pos as int], buf@[pos as int + 1]),
{
    let b0 = buf[pos];
    let b1 = buf[pos + 1];
    match e {
        Endian::Big => b0 as u16 * 256 + b1 as u16,
        Endian::Little => b1 as u16 * 256 + b0 as u16,
    }
}

/// Read a 32-bit integer in the given byte order.
pub fn read_u32(e: Endian, buf: &[u8], pos: usize) -> (r: u32)
    requires
        pos + 4 <= buf@.len(),
    ensures
        r == u32_from_bytes(
            e,
            buf@[pos as int],
            buf@[pos as int + 1],
            buf@[pos as int + 2],
            buf@[pos as int + 3],
        ),
{
    let b0 = buf[pos];
    let b1 = buf[pos + 1];
    let b2 = buf[pos + 2];
    let b3 = buf[pos + 3];
    match e {
        Endian::Big => b0 as u32 * 0x1000000 + b1 as u32 * 0x10000 + b2 as u32 * 256 + b3 as u32,
        Endian::Little => b3 as u32 * 0x1000000 + b2 as u32 * 0x10000 + b1 as u32 * 256
            + b0 as u32,
    }
}

/// Read a signed 32-bit integer from its two's-complement image in the
/// given byte order.
pub fn read_i32(e: Endian, buf: &[u8], pos: usize) -> (r: i32)
    requires
        pos + 4 <= buf@.len(),
    ensures
        r == i32_from_wire_spec(
            u32_from_bytes(
                e,
                buf@[pos as int],
                buf@[pos as int + 1],
                buf@[pos as int + 2],
                buf@[pos as int + 3],
            ),
        ),
{
    let w = read_u32(e, buf, pos);
    i32_from_wire(w)
}

/// A copy of the bytes of `buf` from `a` up to `b`.
pub fn copy_range(buf: &[u8], a: usize, b: usize) -> (r: Vec<u8>)
    requires
        a <= b <= buf@.len(),
    ensures
        r@ == buf@.subrange(a as int, b as int),
{
    let mut out: Vec<u8> = Vec::new();
    let mut i: usize = a;
    while i < b
        invariant
            a <= i <= b <= buf@.len(),
            out@ == buf@.subrange(a as int, i as int),
        decreases b - i,
    {
        out.push(buf[i]);
        assert(out@ =~= buf@.subrange(a as int, i as int + 1));
        i = i + 1;
    }
    out
}

/// The wire form of a length-prefixed string: a 1-byte length, the content
/// bytes, then zero padding so the whole field ends on a 4-byte boundary.
pub open spec fn xim_string_bytes(s: Seq<u8>) -> Seq<u8> {
    seq![s.len() as u8] + s + zero_bytes(pad_len(s.len() + 1))
}

/// A padded string field occupies the padded length of its prefix and
/// content, a nonzero multiple of 4.
pub proof fn lemma_xim_string_bytes_len(s: Seq<u8>)
    ensures
        xim_string_bytes(s).len() == padded_len(s.len() + 1),
        xim_string_bytes(s).len() % 4 == 0,
        xim_string_bytes(s).len() >= 4,
{
    lemma_padded_len(s.len() + 1);
}

/// Append a length-prefixed, padded string field.
pub fn write_xim_string(out: &mut Vec<u8>, s: &XimString)
    requires
        s@.len() <= 255,
    ensures
        final(out)@ == old(out)@ + xim_string_bytes(s@),
{
    out.push(s.0.len() as u8);
    let mut i: usize = 0;
    while i < s.0.len()
        invariant
            i <= s.0.len() <= 255,
            out@ == old(out)@ + seq![s@.len() as u8] + s@.subrange(0, i as int),
        decreases s.0.len() - i,
    {
        out.push(s.0[i]);
        assert(out@ =~= old(out)@ + seq![s@.len() as u8] + s@.subrange(0, i as int + 1));
        i = i + 1;
    }
    assert(s@.subrange(0, s@.len() as int) =~= s@);
    let pad = pad_amount(s.0.len() + 1);
    let mut k: usize = 0;
    while k < pad
        invariant
            k <= pad,
            pad == pad_len(s@.len() + 1),
            out@ == old(out)@ + seq![s@.len() as u8] + s@ + zero_bytes(k as nat),
        decreases pad - k,
    {
        out.push(0);
        assert(out@ =~= old(out)@ + seq![s@.len() as u8] + s@ + zero_bytes(k as nat + 1));
        k = k + 1;
    }
    assert(out@ =~= old(out)@ + xim_string_bytes(s@));
}

/// The wire form of one trigger key: keysym, modifier, and modifier mask,
/// each a 32-bit integer, 12 bytes in all.
pub open spec fn trigger_key_bytes(e: Endian, k: TriggerKey) -> Seq<u8> {
    u32_bytes(e, k.keysym) + u32_bytes(e, k.modifier) + u32_bytes(e, k.modifier_mask)
}

/// The concatenated wire records of a trigger-key list.
pub open spec fn trigger_keys_bytes(e: Endian, ks: Seq<TriggerKey>) -> Seq<u8>
    decreases ks.len(),
{
    if ks.len() == 0 {
        Seq::empty()
    } else {
        trigger_key_bytes(e, ks[0]) + trigger_keys_bytes(e, ks.drop_first())
    }
}

/// The records of a trigger-key list occupy 12 bytes each.
pub proof fn lemma_trigger_keys_bytes_len(e: Endian, ks: Seq<TriggerKey>)
    ensures
        trigger_keys_bytes(e, ks).len() == 12 * ks.len(),
    decreases ks.len(),
{
    if ks.len() > 0 {
        lemma_trigger_keys_bytes_len(e, ks.drop_first());
    }
}

/// The wire form of a counted trigger-key list: a 2-byte element count,
/// the fixed-size records, then zero padding to the next 4-byte boundary.
pub open spec fn trigger_key_list_bytes(e: Endian, ks: Seq<TriggerKey>) -> Seq<u8> {
    u16_bytes(e, ks.len() as u16) + trigger_keys_bytes(e, ks) + zero_bytes(
        pad_len(2 + 12 * ks.len()),
    )
}

/// Append a counted, padded trigger-key list.
pub fn write_trigger_key_list(e: Endian, out: &mut Vec<u8>, ks: &Vec<TriggerKey>)
    requires
        ks@.len() <= 0xFFFF,
    ensures
        final(out)@ == old(out)@ + trigger_key_list_bytes(e, ks@),
{
    write_u16(e, out, ks.len() as u16);
    let mut i: usize = 0;
    while i < ks.len()
        invariant
            i <= ks@.len() <= 0xFFFF,
            out@ == old(out)@ + u16_bytes(e, ks@.len() as u16) + trigger_keys_bytes(
                e,
                ks@.subrange(0, i as int),
            ),
        decreases ks.len() - i,
    {
        let k = ks[i];
        write_u32(e, out, k.keysym);
        write_u32(e, out, k.modifier);
        write_u32(e, out, k.modifier_mask);
        proof {
            lemma_trigger_keys_bytes_snoc(e, ks@.subrange(0, i as int), ks@[i as int]);
            assert(ks@.subrange(0, i as int).push(ks@[i as int]) =~= ks@.subrange(
                0,
                i as int + 1,
            ));
        }
        assert(out@ =~= old(out)@ + u16_bytes(e, ks@.len() as u16) + trigger_keys_bytes(
            e,
            ks@.subrange(0, i as int + 1),
        ));
        i = i + 1;
    }
    assert(ks@.subrange(0, ks@.len() as int) =~= ks@);
    proof {
        lemma_trigger_keys_bytes_len(e, ks@);
    }
    let pad = pad_amount(2 + 12 * ks.len());
    let mut k: usize = 0;
    while k < pad
        invariant
            k <= pad,
            pad == pad_len(2 + 12 * ks@.len()),
            out@ == old(out)@ + u16_bytes(e, ks@.len() as u16) + trigger_keys_bytes(e, ks@)
                + zero_bytes(k as nat),
        decreases pad - k,
    {
        out.push(0);
        assert(out@ =~= old(out)@ + u16_bytes(e, ks@.len() as u16) + trigger_keys_bytes(e, ks@)
            + zero_bytes(k as nat + 1));
        k = k + 1;
    }
    assert(out@ =~= old(out)@ + trigger_key_list_bytes(e, ks@));
}

/// What decoding one padded string field from the front of a sequence
/// yields: the content bytes and the padded field length consumed, or
/// `Malformed` when the sequence is empty or the declared length, once
/// padded, runs past its end.
pub open spec fn decode_xim_string_spec(b: Seq<u8>) -> Result<(Seq<u8>, nat), DecodeError> {
    if b.len() == 0 || b.len() < padded_len(b[0] as nat + 1) {
        Err(DecodeError::Malformed)
    } else {
        Ok((b.subrange(1, b[0] as int + 1), padded_len(b[0] as nat + 1)))
    }
}

/// Decode one length-prefixed, padded string field from the window of
/// `buf` between `pos` and `end`, returning the string and the padded
/// byte count consumed.
pub fn read_xim_string(buf: &[u8], pos: usize, end: usize) -> (r: Result<
    (XimString, usize),
    DecodeError,
>)
    requires
        pos <= end <= buf@.len(),
    ensures
        r matches Ok(p) ==> decode_xim_string_spec(buf@.subrange(pos as int, end as int)) == Ok::<
            (Seq<u8>, nat),
            DecodeError,
        >((p.0@, p.1 as nat)),
        r matches Err(er) ==> decode_xim_string_spec(buf@.subrange(pos as int, end as int))
            == Err::<(Seq<u8>, nat), DecodeError>(er),
{
    let ghost b = buf@.subrange(pos as int, end as int);
    if end - pos < 1 {
        return Err(DecodeError::Malformed);
    }
    let n = buf[pos] as usize;
    assert(b[0] == buf@[pos as int]);
    let field = (n + 1) + pad_amount(n + 1);
    assert(field == padded_len(n as nat + 1));
    if end - pos < field {
        return Err(DecodeError::Malformed);
    }
    let content = copy_range(buf, pos + 1, pos + 1 + n);
    assert(content@ =~= b.subrange(1, n as int + 1));
    Ok((XimString(content), field))
}

/// Decoding inverts encoding on one padded string field, whatever bytes
/// follow it.
pub proof fn lemma_xim_string_round_trip(s: Seq<u8>, tail: Seq<u8>)
    requires
        s.len() <= 255,
    ensures
        decode_xim_string_spec(xim_string_bytes(s) + tail) == Ok::<(Seq<u8>, nat), DecodeError>(
            (s, xim_string_bytes(s).len()),
        ),
{
    let b = xim_string_bytes(s) + tail;
    lemma_xim_string_bytes_len(s);
    assert(b[0] == s.len() as u8);
    assert(b.subrange(1, s.len() as int + 1) =~= s);
}

/// The trigger key read from the first 12 bytes of a sequence.
pub open spec fn trigger_key_from_bytes(e: Endian, b: Seq<u8>) -> TriggerKey {
    TriggerKey {
        keysym: u32_from_bytes(e, b[0], b[1], b[2], b[3]),
        modifier: u32_from_bytes(e, b[4], b[5], b[6], b[7]),
        modifier_mask: u32_from_bytes(e, b[8], b[9], b[10], b[11]),
    }
}

/// The `count` trigger keys read from consecutive 12-byte records at the
/// front of a sequence.
pub open spec fn trigger_keys_from_bytes(e: Endian, b: Seq<u8>, count: nat) -> Seq<TriggerKey>
    decreases count,
{
    if count == 0 {
        Seq::empty()
    } else {
        seq![trigger_key_from_bytes(e, b)] + trigger_keys_from_bytes(
            e,
            b.skip(12),
            (count - 1) as nat,
        )
    }
}

/// What decoding a counted trigger-key list yields: the declared number
/// of records and the padded byte count consumed, or `Malformed` when the
/// buffer ends before the declared records and padding do.
pub open spec fn decode_trigger_key_list_spec(e: Endian, b: Seq<u8>) -> Result<
    (Seq<TriggerKey>, nat),
    DecodeError,
> {
    if b.len() < 2 {
        Err(DecodeError::Malformed)
    } else {
        let count = u16_from_bytes(e, b[0], b[1]) as nat;
        let need = padded_len(2 + 12 * count);
        if b.len() < need {
            Err(DecodeError::Malformed)
        } else {
            Ok((trigger_keys_from_bytes(e, b.skip(2), count), need))
        }
    }
}

/// Decode a counted, padded trigger-key list starting at `pos`, returning
/// the records and the byte count consumed, padding included.
#[verifier::loop_isolation(false)]
#[verifier::rlimit(100)]
pub fn read_trigger_key_list(e: Endian, buf: &[u8], pos: usize) -> (r: Result<
    (Vec<TriggerKey>, usize),
    DecodeError,
>)
    requires
        pos <= buf@.len(),
    ensures
        r matches Ok(p) ==> decode_trigger_key_list_spec(e, buf@.skip(pos as int)) == Ok::<
            (Seq<TriggerKey>, nat),
            DecodeError,
        >((p.0@, p.1 as nat)),
        r matches Err(er) ==> decode_trigger_key_list_spec(e, buf@.skip(pos as int)) == Err::<
            (Seq<TriggerKey>, nat),
            DecodeError,
        >(er),
{
    let ghost b = buf@.skip(pos as int);
    let buf_len = buf.len();
    if buf_len - pos < 2 {
        return Err(DecodeError::Malformed);
    }
    let count = read_u16(e, buf, pos) as usize;
    assert(b[0] == buf@[pos as int] && b[1] == buf@[pos as int + 1]);
    let raw = 2 + 12 * count;
    let need = raw + pad_amount(raw);
    assert(need == padded_len(2 + 12 * count as nat));
    if buf_len - pos < need {
        return Err(DecodeError::Malformed);
    }
    let ghost b2 = b.skip(2);
    let mut keys: Vec<TriggerKey> = Vec::new();
    assert(b2.skip(0) =~= b2);
    assert(Seq::<TriggerKey>::empty() + trigger_keys_from_bytes(e, b2, count as nat)
        =~= trigger_keys_from_bytes(e, b2, count as nat));
    let mut i: usize = 0;
    while i < count
        invariant
            i <= count,
            trigger_keys_from_bytes(e, b2, count as nat) == keys@ + trigger_keys_from_bytes(
                e,
                b2.skip(12 * i as int),
                (count - i) as nat,
            ),
        decreases count - i,
    {
        let base = pos + 2 + 12 * i;
        let ghost rest = b2.skip(12 * i as int);
        assert(rest[0] == buf@[base as int] && rest[1] == buf@[base as int + 1] && rest[2]
            == buf@[base as int + 2] && rest[3] == buf@[base as int + 3] && rest[4] == buf@[base as int
            + 4] && rest[5] == buf@[base as int + 5] && rest[6] == buf@[base as int + 6] && rest[7]
            == buf@[base as int + 7] && rest[8] == buf@[base as int + 8] && rest[9] == buf@[base as int
            + 9] && rest[10] == buf@[base as int + 10] && rest[11] == buf@[base as int + 11]);
        let k = TriggerKey {
            keysym: read_u32(e, buf, base),
            modifier: read_u32(e, buf, base + 4),
            modifier_mask: read_u32(e, buf, base + 8),
        };
        assert(k == trigger_key_from_bytes(e, rest));
        proof {
            assert(rest.skip(12) =~= b2.skip(12 * (i as int + 1)));
            assert(keys@.push(k) + trigger_keys_from_bytes(
                e,
                b2.skip(12 * (i as int + 1)),
                (count - i - 1) as nat,
            ) =~= keys@ + trigger_keys_from_bytes(e, rest, (count - i) as nat));
        }
        keys.push(k);
        i = i + 1;
    }
    assert(trigger_keys_from_bytes(e, b2, count as nat) =~= keys@);
    Ok((keys, need))
}

/// Decoding inverts encoding on the records of a trigger-key list,
/// whatever padding or further bytes follow them.
pub proof fn lemma_trigger_keys_round_trip(e: Endian, ks: Seq<TriggerKey>, tail: Seq<u8>)
    ensures
        trigger_keys_from_bytes(e, trigger_keys_bytes(e, ks) + tail, ks.len()) == ks,
    decreases ks.len(),
{
    if ks.len() == 0 {
        assert(trigger_keys_from_bytes(e, trigger_keys_bytes(e, ks) + tail, 0) =~= ks);
    } else {
        let k = ks[0];
        let b = trigger_keys_bytes(e, ks) + tail;
        lemma_u32_round_trip(e, k.keysym);
        lemma_u32_round_trip(e, k.modifier);
        lemma_u32_round_trip(e, k.modifier_mask);
        let kb = trigger_key_bytes(e, k);
        assert forall|j: int| 0 <= j < 12 implies b[j] == kb[j] by {}
        assert(trigger_key_from_bytes(e, b) == k);
        assert(b.skip(12) =~= trigger_keys_bytes(e, ks.drop_first()) + tail);
        lemma_trigger_keys_round_trip(e, ks.drop_first(), tail);
        assert(seq![k] + ks.drop_first() =~= ks);
    }
}

/// Decoding inverts encoding on a whole counted trigger-key list: the
/// records come back exactly and the padded length is consumed exactly.
pub proof fn lemma_trigger_key_list_round_trip(e: Endian, ks: Seq<TriggerKey>)
    requires
        ks.len() <= 0xFFFF,
    ensures
        decode_trigger_key_list_spec(e, trigger_key_list_bytes(e, ks)) == Ok::<
            (Seq<TriggerKey>, nat),
            DecodeError,
        >((ks, trigger_key_list_bytes(e, ks).len())),
{
    let b = trigger_key_list_bytes(e, ks);
    lemma_trigger_keys_bytes_len(e, ks);
    lemma_padded_len(2 + 12 * ks.len());
    assert(b.len() == padded_len(2 + 12 * ks.len()));
    lemma_u16_round_trip(e, ks.len() as u16);
    assert(b[0] == u16_bytes(e, ks.len() as u16)[0] && b[1] == u16_bytes(e, ks.len() as u16)[1]);
    assert(u16_from_bytes(e, b[0], b[1]) as nat == ks.len());
    assert(b.skip(2) =~= trigger_keys_bytes(e, ks) + zero_bytes(pad_len(2 + 12 * ks.len())));
    lemma_trigger_keys_round_trip(e, ks, zero_bytes(pad_len(2 + 12 * ks.len())));
}

/// Decode a caret-direction field: a 32-bit integer that must name one of
/// the 12 defined directions; any other value is `InvalidEnumValue`.
pub fn decode_caret_direction(e: Endian, buf: &[u8], pos: usize) -> (r: Result<
    CaretDirection,
    DecodeError,
>)
    requires
        pos + 4 <= buf@.len(),
    ensures
        ({
            let w = u32_from_bytes(
                e,
                buf@[pos as int],
                buf@[pos as int + 1],
                buf@[pos as int + 2],
                buf@[pos as int + 3],
            );
            match CaretDirection::from_u32_spec(w) {
                Some(d) => r == Ok::<CaretDirection, DecodeError>(d),
                None => r == Err::<CaretDirection, DecodeError>(DecodeError::InvalidEnumValue),
            }
        }),
{
    let w = read_u32(e, buf, pos);
    match CaretDirection::from_u32(w) {
        Some(d) => Ok(d),
        None => Err(DecodeError::InvalidEnumValue),
    }
}

/// Decode a caret-style field: a 32-bit integer that must name one of the
/// defined styles; any other value is `InvalidEnumValue`.
pub fn decode_caret_style(e: Endian, buf: &[u8], pos: usize) -> (r: Result<
    CaretStyle,
    DecodeError,
>)
    requires
        pos + 4 <= buf@.len(),
    ensures
        ({
            let w = u32_from_bytes(
                e,
                buf@[pos as int],
                buf@[pos as int + 1],
                buf@[pos as int + 2],
                buf@[pos as int + 3],
            );
            match CaretStyle::from_u32_spec(w) {
                Some(s) => r == Ok::<CaretStyle, DecodeError>(s),
                None => r == Err::<CaretStyle, DecodeError>(DecodeError::InvalidEnumValue),
            }
        }),
{
    let w = read_u32(e, buf, pos);
    match CaretStyle::from_u32(w) {
        Some(s) => Ok(s),
        None => Err(DecodeError::InvalidEnumValue),
    }
}

/// Decode a preedit feedback field: every 32-bit pattern is accepted and
/// kept whole, defined bits and undefined bits alike, so re-encoding the
/// set reproduces the field byte for byte.
pub fn decode_feedback(e: Endian, buf: &[u8], pos: usize) -> (r: FeedbackSet)
    requires
        pos + 4 <= buf@.len(),
    ensures
        r.bits == u32_from_bytes(
            e,
            buf@[pos as int],
            buf@[pos as int + 1],
            buf@[pos as int + 2],
            buf@[pos as int + 3],
        ),
{
    FeedbackSet { bits: read_u32(e, buf, pos) }
}

/// Decode a preedit feedback field under opt-in strict validation: a
/// pattern with any bit outside the defined mask is `InvalidEnumValue`
/// instead of being preserved.
pub fn decode_feedback_strict(e: Endian, buf: &[u8], pos: usize) -> (r: Result<
    FeedbackSet,
    DecodeError,
>)
    requires
        pos + 4 <= buf@.len(),
    ensures
        ({
            let w = u32_from_bytes(
                e,
                buf@[pos as int],
                buf@[pos as int + 1],
                buf@[pos as int + 2],
                buf@[pos as int + 3],
            );
            if w & !crate::enums::FEEDBACK_KNOWN_BITS == 0 {
                r == Ok::<FeedbackSet, DecodeError>(FeedbackSet { bits: w })
            } else {
                r == Err::<FeedbackSet, DecodeError>(DecodeError::InvalidEnumValue)
            }
        }),
{
    let s = decode_feedback(e, buf, pos);
    if s.is_strictly_valid() {
        Ok(s)
    } else {
        Err(DecodeError::InvalidEnumValue)
    }
}

/// Append a preedit feedback field: exactly the set's 32-bit pattern.
pub fn write_feedback(e: Endian, out: &mut Vec<u8>, s: FeedbackSet)
    ensures
        final(out)@ == old(out)@ + u32_bytes(e, s.bits),
{
    write_u32(e, out, s.bits);
}

/// Decode a string-conversion feedback field, preserving every bit of its
/// 16-bit pattern.
pub fn decode_str_conv_feedback(e: Endian, buf: &[u8], pos: usize) -> (r: StrConvFeedbackSet)
    requires
        pos + 2 <= buf@.len(),
    ensures
        r.bits == u16_from_bytes(e, buf@[pos as int], buf@[pos as int + 1]),
{
    StrConvFeedbackSet { bits: read_u16(e, buf, pos) }
}

/// Append a string-conversion feedback field: exactly the set's 16-bit
/// pattern.
pub fn write_str_conv_feedback(e: Endian, out: &mut Vec<u8>, s: StrConvFeedbackSet)
    ensures
        final(out)@ == old(out)@ + u16_bytes(e, s.bits),
{
    write_u16(e, out, s.bits);
}

/// The 16-byte wire form of a preedit-caret fragment: method and context
/// identifiers, the signed position, then direction and style.
pub open spec fn preedit_caret_bytes(e: Endian, pc: PreeditCaret) -> Seq<u8> {
    u16_bytes(e, pc.method_id) + u16_bytes(e, pc.context_id) + u32_bytes(
        e,
        i32_to_wire_spec(pc.position),
    ) + u32_bytes(e, pc.direction.to_u32_spec()) + u32_bytes(e, pc.style.to_u32_spec())
}

/// What decoding a 16-byte preedit-caret fragment yields: the typed
/// fragment, or `InvalidEnumValue` when the direction or style integer
/// names no variant.
pub open spec fn decode_preedit_caret_spec(e: Endian, b: Seq<u8>) -> Result<
    PreeditCaret,
    DecodeError,
> {
    let w = u32_from_bytes(e, b[8], b[9], b[10], b[11]);
    let x = u32_from_bytes(e, b[12], b[13], b[14], b[15]);
    match (CaretDirection::from_u32_spec(w), CaretStyle::from_u32_spec(x)) {
        (Some(direction), Some(style)) => Ok(
            PreeditCaret {
                method_id: u16_from_bytes(e, b[0], b[1]),
                context_id: u16_from_bytes(e, b[2], b[3]),
                position: i32_from_wire_spec(u32_from_bytes(e, b[4], b[5], b[6], b[7])),
                direction,
                style,
            },
        ),
        _ => Err(DecodeError::InvalidEnumValue),
    }
}

/// Append the 16-byte preedit-caret fragment.
pub fn write_preedit_caret(e: Endian, out: &mut Vec<u8>, pc: &PreeditCaret)
    ensures
        final(out)@ == old(out)@ + preedit_caret_bytes(e, *pc),
{
    write_u16(e, out, pc.method_id);
    write_u16(e, out, pc.context_id);
    write_i32(e, out, pc.position);
    write_u32(e, out, pc.direction.to_u32());
    write_u32(e, out, pc.style.to_u32());
    assert(out@ =~= old(out)@ + preedit_caret_bytes(e, *pc));
}

/// Decode a 16-byte preedit-caret fragment.
pub fn read_preedit_caret(e: Endian, buf: &[u8], pos: usize) -> (r: Result<
    PreeditCaret,
    DecodeError,
>)
    requires
        pos + 16 <= buf@.len(),
    ensures
        r == decode_preedit_caret_spec(e, buf@.subrange(pos as int, pos as int + 16)),
{
    let ghost b = buf@.subrange(pos as int, pos as int + 16);
    let buf_len = buf.len();
    assert(pos + 16 <= buf_len);
    let direction = match decode_caret_direction(e, buf, pos + 8) {
        Ok(d) => d,
        Err(er) => {
            return Err(er);
        },
    };
    let style = match decode_caret_style(e, buf, pos + 12) {
        Ok(s) => s,
        Err(er) => {
            return Err(er);
        },
    };
    Ok(
        PreeditCaret {
            method_id: read_u16(e, buf, pos),
            context_id: read_u16(e, buf, pos + 2),
            position: read_i32(e, buf, pos + 4),
            direction,
            style,
        },
    )
}

/// Decoding inverts encoding on a preedit-caret fragment.
#[verifier::rlimit(100)]
pub proof fn lemma_preedit_caret_round_trip(e: Endian, pc: PreeditCaret)
    ensures
        decode_preedit_caret_spec(e, preedit_caret_bytes(e, pc)) == Ok::<
            PreeditCaret,
            DecodeError,
        >(pc),
{
    let b = preedit_caret_bytes(e, pc);
    lemma_u16_round_trip(e, pc.method_id);
    lemma_u16_round_trip(e, pc.context_id);
    lemma_u32_round_trip(e, i32_to_wire_spec(pc.position));
    lemma_u32_round_trip(e, pc.direction.to_u32_spec());
    lemma_u32_round_trip(e, pc.style.to_u32_spec());
    lemma_i32_wire_round_trip(pc.position, 0);
    assert(b[0] == u16_bytes(e, pc.method_id)[0] && b[1] == u16_bytes(e, pc.method_id)[1]);
    assert(b[2] == u16_bytes(e, pc.context_id)[0] && b[3] == u16_bytes(e, pc.context_id)[1]);
    let pw = u32_bytes(e, i32_to_wire_spec(pc.position));
    assert(b[4] == pw[0] && b[5] == pw[1] && b[6] == pw[2] && b[7] == pw[3]);
    let dw = u32_bytes(e, pc.direction.to_u32_spec());
    assert(b[8] == dw[0] && b[9] == dw[1] && b[10] == dw[2] && b[11] == dw[3]);
    let sw = u32_bytes(e, pc.style.to_u32_spec());
    assert(b[12] == sw[0] && b[13] == sw[1] && b[14] == sw[2] && b[15] == sw[3]);
}

/// Appending one record to a trigger-key list appends its 12 wire bytes.
pub proof fn lemma_trigger_keys_bytes_snoc(e: Endian, ks: Seq<TriggerKey>, k: TriggerKey)
    ensures
        trigger_keys_bytes(e, ks.push(k)) == trigger_keys_bytes(e, ks) + trigger_key_bytes(e, k),
    decreases ks.len(),
{
    if ks.len() == 0 {
        assert(ks.push(k).drop_first() =~= ks);
        assert(trigger_keys_bytes(e, ks.push(k)) =~= trigger_keys_bytes(e, ks)
            + trigger_key_bytes(e, k));
    } else {
        assert(ks.push(k).drop_first() =~= ks.drop_first().push(k));
        lemma_trigger_keys_bytes_snoc(e, ks.drop_first(), k);
        assert(trigger_keys_bytes(e, ks.push(k)) =~= trigger_keys_bytes(e, ks)
            + trigger_key_bytes(e, k));
    }
}

} // verus!
