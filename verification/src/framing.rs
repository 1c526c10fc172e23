//! The wire format spoken to the backend.
//!
//! A message on the wire is its payload preceded by the payload's length as a
//! 4-byte little-endian unsigned integer. Nothing else delimits messages: no
//! version, no checksum, no type tag. The same format is used in both
//! directions.

use vstd::prelude::*;
use vstd::slice::{slice_subrange, slice_to_vec};

verus! {

/// Number of bytes of the length field that precedes every payload.
pub const LENGTH_FIELD: usize = 4;

/// The largest payload length that the length field can hold.
pub const MAX_PAYLOAD: usize = 0xffff_ffff;

/// Why a payload cannot be put on the wire.
#[derive(Clone, Copy, Debug, PartialEq, Eq, Structural)]
pub enum FrameError {
    /// The payload is longer than the length field can say.
    TooLong,
}

/// The length field of a payload of `n` bytes: `n` in base 256, least
/// significant digit first.
pub open spec fn length_field(n: nat) -> Seq<u8>
    recommends
        n <= MAX_PAYLOAD,
{
    seq![
        (n % 256) as u8,
        (n / 0x100 % 256) as u8,
        (n / 0x1_0000 % 256) as u8,
        (n / 0x100_0000 % 256) as u8,
    ]
}

/// The payload length that a length field declares.
pub open spec fn declared_length(field: Seq<u8>) -> nat
    recommends
        field.len() == LENGTH_FIELD,
{
    (field[0] + 0x100 * field[1] + 0x1_0000 * field[2] + 0x100_0000 * field[3]) as nat
}

/// A payload as it travels: its length field, then the payload itself.
pub open spec fn encoded(payload: Seq<u8>) -> Seq<u8>
    recommends
        payload.len() <= MAX_PAYLOAD,
{
    length_field(payload.len()) + payload
}

/// The first message of a byte stream and the bytes that follow it, or `None`
/// where the stream ends before the message does.
pub open spec fn decoded(stream: Seq<u8>) -> Option<(Seq<u8>, Seq<u8>)> {
    if stream.len() < LENGTH_FIELD {
        None
    } else {
        let n: nat = declared_length(stream.take(LENGTH_FIELD as int));
        if stream.len() - LENGTH_FIELD < n {
            None
        } else {
            Some(
                (
                    stream.subrange(LENGTH_FIELD as int, LENGTH_FIELD + n),
                    stream.skip(LENGTH_FIELD + n),
                ),
            )
        }
    }
}

/// Division with remainder is unique: a number written as `low + base * high`
/// with `low` below `base` has quotient `high` and remainder `low`.
proof fn lemma_quotient_remainder(low: int, high: int, base: int)
    requires
        0 <= low < base,
        0 <= high,
    ensures
        (low + base * high) / base == high,
        (low + base * high) % base == low,
{
    assert((low + base * high) / base == high && (low + base * high) % base == low)
        by (nonlinear_arith)
        requires
            0 <= low < base,
            0 <= high,
    ;
}

/// A length that fits the field is recovered from its field unchanged.
pub proof fn lemma_length_round_trip(n: nat)
    requires
        n <= MAX_PAYLOAD,
    ensures
        length_field(n).len() == LENGTH_FIELD,
        declared_length(length_field(n)) == n,
{
    let q1: int = n as int / 0x100;
    let q2: int = n as int / 0x1_0000;
    let q3: int = n as int / 0x100_0000;
    assert(n == n % 0x100 + 0x100 * q1);
    assert(n == n % 0x1_0000 + 0x1_0000 * q2);
    assert(n == n % 0x100_0000 + 0x100_0000 * q3);
    assert(q1 == q1 % 0x100 + 0x100 * (q1 / 0x100));
    assert(q2 == q2 % 0x100 + 0x100 * (q2 / 0x100));
    lemma_quotient_remainder(n % 0x100 + 0x100 * (q1 % 0x100), q1 / 0x100, 0x1_0000);
    lemma_quotient_remainder(
        n % 0x100 + 0x100 * (q1 % 0x100) + 0x1_0000 * (q2 % 0x100),
        q2 / 0x100,
        0x100_0000,
    );
}

/// Every 4-byte field declares a length that fits, and is the field of that
/// length: the encoding of lengths is one to one.
pub proof fn lemma_field_round_trip(field: Seq<u8>)
    requires
        field.len() == LENGTH_FIELD,
    ensures
        declared_length(field) <= MAX_PAYLOAD,
        length_field(declared_length(field)) == field,
{
    let b0: int = field[0] as int;
    let b1: int = field[1] as int;
    let b2: int = field[2] as int;
    let b3: int = field[3] as int;
    let n: int = declared_length(field) as int;
    lemma_quotient_remainder(b0, b1 + 0x100 * b2 + 0x1_0000 * b3, 0x100);
    lemma_quotient_remainder(b0 + 0x100 * b1, b2 + 0x100 * b3, 0x1_0000);
    lemma_quotient_remainder(b0 + 0x100 * b1 + 0x1_0000 * b2, b3, 0x100_0000);
    lemma_quotient_remainder(b1, b2 + 0x100 * b3, 0x100);
    lemma_quotient_remainder(b2, b3, 0x100);
    assert(n % 0x100 == b0);
    assert(n / 0x100 % 0x100 == b1);
    assert(n / 0x1_0000 % 0x100 == b2);
    assert(n / 0x100_0000 % 0x100 == b3);
    assert(length_field(declared_length(field)) =~= field);
}

/// Encoding a payload that fits the length field and then decoding gives back
/// exactly that payload, and leaves whatever followed it on the stream.
pub proof fn lemma_round_trip(payload: Seq<u8>, rest: Seq<u8>)
    requires
        payload.len() <= MAX_PAYLOAD,
    ensures
        decoded(encoded(payload) + rest) == Some((payload, rest)),
{
    let stream = encoded(payload) + rest;
    let n: nat = payload.len();
    lemma_length_round_trip(n);
    assert(stream.take(LENGTH_FIELD as int) =~= length_field(n));
    assert(stream.subrange(LENGTH_FIELD as int, LENGTH_FIELD + n) =~= payload);
    assert(stream.skip(LENGTH_FIELD + n) =~= rest);
}

/// The length field of an encoded payload declares the payload's length
/// exactly, and the payload follows it byte for byte: nothing is cut off and
/// nothing is added.
pub proof fn lemma_encoded_length_is_exact(payload: Seq<u8>)
    requires
        payload.len() <= MAX_PAYLOAD,
    ensures
        encoded(payload).len() == LENGTH_FIELD + payload.len(),
        declared_length(encoded(payload).take(LENGTH_FIELD as int)) == payload.len(),
        encoded(payload).skip(LENGTH_FIELD as int) == payload,
{
    lemma_length_round_trip(payload.len());
    assert(encoded(payload).take(LENGTH_FIELD as int) =~= length_field(payload.len()));
    assert(encoded(payload).skip(LENGTH_FIELD as int) =~= payload);
}

/// The length field that declares `n` bytes.
pub fn length_bytes(n: u32) -> (field: [u8; 4])
    ensures
        field@ == length_field(n as nat),
{
    let b0: u8 = (n % 256) as u8;
    let b1: u8 = (n / 0x100 % 256) as u8;
    let b2: u8 = (n / 0x1_0000 % 256) as u8;
    let b3: u8 = (n / 0x100_0000 % 256) as u8;
    let field: [u8; 4] = [b0, b1, b2, b3];
    assert(field@ =~= length_field(n as nat));
    field
}

/// The length field for a payload of `len` bytes, or `TooLong` where `len`
/// does not fit in 32 bits.
pub fn encode_length(len: usize) -> (field: Result<[u8; 4], FrameError>)
    ensures
        field is Ok <==> len <= MAX_PAYLOAD,
        field matches Ok(f) ==> f@ == length_field(len as nat),
        field matches Err(e) ==> e == FrameError::TooLong,
{
    if len > MAX_PAYLOAD {
        Err(FrameError::TooLong)
    } else {
        Ok(length_bytes(len as u32))
    }
}

/// The payload length that `field` declares.
pub fn decode_length(field: &[u8; 4]) -> (n: u32)
    ensures
        n == declared_length(field@),
{
    let b0: u32 = field[0] as u32;
    let b1: u32 = field[1] as u32;
    let b2: u32 = field[2] as u32;
    let b3: u32 = field[3] as u32;
    b0 + 0x100 * b1 + 0x1_0000 * b2 + 0x100_0000 * b3
}

/// The bytes that carry `payload` on the wire, or `TooLong` where its length
/// does not fit the length field.
pub fn encode(payload: &[u8]) -> (wire: Result<Vec<u8>, FrameError>)
    ensures
        wire is Ok <==> payload@.len() <= MAX_PAYLOAD,
        wire matches Ok(bytes) ==> bytes@ == encoded(payload@),
        wire matches Err(e) ==> e == FrameError::TooLong,
{
    match encode_length(payload.len()) {
        Err(e) => Err(e),
        Ok(field) => {
            let mut bytes: Vec<u8> = Vec::with_capacity(LENGTH_FIELD);
            bytes.push(field[0]);
            bytes.push(field[1]);
            bytes.push(field[2]);
            bytes.push(field[3]);
            assert(bytes@ =~= length_field(payload@.len()));
            bytes.extend_from_slice(payload);
            Ok(bytes)
        },
    }
}

/// Takes the first message off `stream`: its payload and the number of bytes
/// of `stream` that the message occupied. `None` where the stream holds less
/// than a whole message.
pub fn decode(stream: &[u8]) -> (message: Option<(Vec<u8>, usize)>)
    ensures
        message is Some <==> decoded(stream@) is Some,
        message matches Some((payload, used)) ==> {
            &&& used == LENGTH_FIELD + payload@.len()
            &&& decoded(stream@) == Some((payload@, stream@.skip(used as int)))
        },
{
    if stream.len() < LENGTH_FIELD {
        return None;
    }
    let field: [u8; 4] = [stream[0], stream[1], stream[2], stream[3]];
    assert(field@ =~= stream@.take(LENGTH_FIELD as int));
    let n: u32 = decode_length(&field);
    if ((stream.len() - LENGTH_FIELD) as u64) < n as u64 {
        return None;
    }
    let used: usize = LENGTH_FIELD + n as usize;
    let payload: Vec<u8> = slice_to_vec(slice_subrange(stream, LENGTH_FIELD, used));
    Some((payload, used))
}

} // verus!
