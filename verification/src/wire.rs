//! The protobuf wire format, as far as the receipt messages use it.
//!
//! The specification functions say which bytes stand for a value (`varint`, `varint_field`,
//! `bytes_field`) and what a reader makes of arbitrary bytes (`read_varint`, `read_key`,
//! `read_bytes`, `skip_unknown`). A reader hands back what it read together with the bytes that
//! follow, or `None` where the bytes are malformed.
//!
//! Integers, keys and length-delimited values are written and read by `prost`.

use vstd::prelude::*;
use vstd::slice::slice_subrange;

verus! {

/// Wire type of an integer in LEB128 form.
pub const WIRE_VARINT: u8 = 0;

/// Wire type of a value of eight bytes.
pub const WIRE_SIXTY_FOUR_BIT: u8 = 1;

/// Wire type of a value that is preceded by its length.
pub const WIRE_LENGTH_DELIMITED: u8 = 2;

/// Wire type of the key that opens a group.
pub const WIRE_START_GROUP: u8 = 3;

/// Wire type of the key that closes a group.
pub const WIRE_END_GROUP: u8 = 4;

/// Wire type of a value of four bytes.
pub const WIRE_THIRTY_TWO_BIT: u8 = 5;

/// How many levels of messages and groups a reader descends into before it gives up.
pub const RECURSION_LIMIT: u32 = 100;

/// The largest field number that a key can carry.
pub const MAX_TAG: u32 = 536870911;

/// An error of the `prost` readers.
#[verifier::external_type_specification]
#[verifier::external_body]
pub struct ExDecodeError(prost::DecodeError);

// ---------------------------------------------------------------------------------------------
// Writing
// ---------------------------------------------------------------------------------------------

/// `n` in LEB128: seven bits a byte, the lowest first, the top bit set on all bytes but the last.
pub open spec fn varint(n: nat) -> Seq<u8>
    decreases n,
{
    if n < 0x80 {
        seq![n as u8]
    } else {
        seq![(n % 0x80 + 0x80) as u8] + varint(n / 0x80)
    }
}

/// The key in front of a field: its number and its wire type.
pub open spec fn field_key(tag: nat, wire_type: u8) -> Seq<u8> {
    varint(tag * 8 + wire_type as nat)
}

/// A field that holds an integer.
pub open spec fn varint_field(tag: nat, value: nat) -> Seq<u8> {
    field_key(tag, WIRE_VARINT) + varint(value)
}

/// A field that holds bytes: a string of bytes, or a nested message in its wire form.
pub open spec fn bytes_field(tag: nat, value: Seq<u8>) -> Seq<u8> {
    field_key(tag, WIRE_LENGTH_DELIMITED) + varint(value.len()) + value
}

/// An integer field that is left out where it holds zero.
pub open spec fn implicit_uint64(tag: nat, value: u64) -> Seq<u8> {
    if value == 0 {
        seq![]
    } else {
        varint_field(tag, value as nat)
    }
}

/// A field of bytes that is left out where it holds none.
pub open spec fn implicit_bytes(tag: nat, value: Seq<u8>) -> Seq<u8> {
    if value.len() == 0 {
        seq![]
    } else {
        bytes_field(tag, value)
    }
}

/// Appends an integer field.
///
/// Calls `prost::encoding::uint64::encode`, which writes the key and then the value, both in
/// LEB128. The field number has to be one that a key can carry.
#[verifier::external_body]
fn put_uint64(tag: u32, value: u64, buf: &mut Vec<u8>)
    requires
        1 <= tag <= MAX_TAG,
    ensures
        final(buf)@ == old(buf)@ + varint_field(tag as nat, value as nat),
{
    prost::encoding::uint64::encode(tag, &value, buf)
}

/// Appends a length-delimited field.
///
/// Calls `prost::encoding::bytes::encode`, which writes the key and the length in LEB128 and then
/// the bytes themselves. The field number has to be one that a key can carry.
#[verifier::external_body]
pub(crate) fn put_bytes(tag: u32, value: &Vec<u8>, buf: &mut Vec<u8>)
    requires
        1 <= tag <= MAX_TAG,
    ensures
        final(buf)@ == old(buf)@ + bytes_field(tag as nat, value@),
{
    prost::encoding::bytes::encode(tag, value, buf)
}

/// Appends an integer field, unless it holds zero.
pub(crate) fn put_implicit_uint64(tag: u32, value: u64, buf: &mut Vec<u8>)
    requires
        1 <= tag <= MAX_TAG,
    ensures
        final(buf)@ == old(buf)@ + implicit_uint64(tag as nat, value),
{
    if value != 0 {
        put_uint64(tag, value, buf);
    }
}

/// Appends a field of bytes, unless it holds none.
pub(crate) fn put_implicit_bytes(tag: u32, value: &Vec<u8>, buf: &mut Vec<u8>)
    requires
        1 <= tag <= MAX_TAG,
    ensures
        final(buf)@ == old(buf)@ + implicit_bytes(tag as nat, value@),
{
    if value.len() != 0 {
        put_bytes(tag, value, buf);
    }
}

// ---------------------------------------------------------------------------------------------
// Reading
// ---------------------------------------------------------------------------------------------

/// Reads the rest of an integer of which `count` bytes have been read already.
///
/// An integer has at most ten bytes, and the tenth has to leave it within 64 bits. Superfluous
/// zero bits at the top are accepted.
pub open spec fn read_varint_from(b: Seq<u8>, count: nat) -> Option<(nat, Seq<u8>)>
    decreases b.len(),
{
    if b.len() == 0 || count >= 10 {
        None
    } else if b[0] < 0x80 {
        if count == 9 && b[0] >= 2 {
            None
        } else {
            Some((b[0] as nat, b.skip(1)))
        }
    } else {
        match read_varint_from(b.skip(1), count + 1) {
            Some((high, rest)) => Some(((b[0] - 0x80 + 0x80 * high) as nat, rest)),
            None => None,
        }
    }
}

/// Reads an integer.
pub open spec fn read_varint(b: Seq<u8>) -> Option<(nat, Seq<u8>)> {
    read_varint_from(b, 0)
}

/// Reads a key: the field number, the wire type and what follows.
pub open spec fn read_key(b: Seq<u8>) -> Option<(u32, u8, Seq<u8>)> {
    match read_varint(b) {
        Some((key, rest)) => if key <= u32::MAX && key % 8 <= WIRE_THIRTY_TWO_BIT && key / 8 >= 1 {
            Some(((key / 8) as u32, (key % 8) as u8, rest))
        } else {
            None
        },
        None => None,
    }
}

/// Reads the value of an integer field whose key says `wire_type`.
pub open spec fn read_uint64(wire_type: u8, b: Seq<u8>) -> Option<(u64, Seq<u8>)> {
    if wire_type != WIRE_VARINT {
        None
    } else {
        match read_varint(b) {
            Some((value, rest)) => Some((value as u64, rest)),
            None => None,
        }
    }
}

/// Reads the value of a length-delimited field whose key says `wire_type`.
pub open spec fn read_bytes(wire_type: u8, b: Seq<u8>) -> Option<(Seq<u8>, Seq<u8>)> {
    if wire_type != WIRE_LENGTH_DELIMITED {
        None
    } else {
        match read_varint(b) {
            Some((len, rest)) => if len <= rest.len() {
                Some((rest.take(len as int), rest.skip(len as int)))
            } else {
                None
            },
            None => None,
        }
    }
}

/// Passes over a value that is no group.
pub open spec fn skip_value(wire_type: u8, b: Seq<u8>) -> Option<Seq<u8>> {
    if wire_type == WIRE_VARINT {
        match read_varint(b) {
            Some((_, rest)) => Some(rest),
            None => None,
        }
    } else if wire_type == WIRE_SIXTY_FOUR_BIT {
        if b.len() >= 8 {
            Some(b.skip(8))
        } else {
            None
        }
    } else if wire_type == WIRE_THIRTY_TWO_BIT {
        if b.len() >= 4 {
            Some(b.skip(4))
        } else {
            None
        }
    } else {
        match read_bytes(wire_type, b) {
            Some((_, rest)) => Some(rest),
            None => None,
        }
    }
}

/// Passes over the rest of the groups with the field numbers `open`, the innermost last.
///
/// A group closes with its own number. Fewer than `limit` groups may be open around a field.
pub open spec fn skip_groups(open: Seq<u32>, b: Seq<u8>, limit: nat) -> Option<Seq<u8>>
    decreases b.len(),
{
    if open.len() == 0 {
        Some(b)
    } else {
        match read_key(b) {
            None => None,
            Some((tag, wire_type, rest)) => {
                proof {
                    lemma_read_key_shrinks(b);
                    lemma_skip_value_shrinks(wire_type, rest);
                }
                if wire_type == WIRE_END_GROUP {
                    if tag == open.last() {
                        skip_groups(open.drop_last(), rest, limit)
                    } else {
                        None
                    }
                } else if open.len() >= limit {
                    None
                } else if wire_type == WIRE_START_GROUP {
                    skip_groups(open.push(tag), rest, limit)
                } else {
                    match skip_value(wire_type, rest) {
                        Some(after) => skip_groups(open, after, limit),
                        None => None,
                    }
                }
            },
        }
    }
}

/// Passes over a field that the message does not know, at a level from which `limit` more can be
/// entered.
pub open spec fn skip_unknown(tag: u32, wire_type: u8, b: Seq<u8>, limit: nat) -> Option<Seq<u8>> {
    if limit == 0 {
        None
    } else if wire_type == WIRE_START_GROUP {
        skip_groups(seq![tag], b, limit)
    } else {
        skip_value(wire_type, b)
    }
}

/// Reads an integer.
///
/// Calls `prost::encoding::decode_varint`, which reads up to ten bytes in LEB128, accepts
/// superfluous zero bits and rejects what does not fit in 64 bits or does not end.
#[verifier::external_body]
fn decode_varint<'a>(buf: &'a [u8]) -> (r: Result<(u64, &'a [u8]), prost::DecodeError>)
    ensures
        match r {
            Ok((value, rest)) => read_varint(buf@) == Some((value as nat, rest@)),
            Err(_) => read_varint(buf@) is None,
        },
{
    let mut rest = buf;
    let value = prost::encoding::decode_varint(&mut rest)?;
    Ok((value, rest))
}

/// Reads a key.
///
/// Calls `prost::encoding::decode_key`, which reads an integer of at most 32 bits, takes its low
/// three bits for the wire type and the rest for the field number, and rejects the wire types six
/// and seven and the field number zero.
#[verifier::external_body]
fn decode_key<'a>(buf: &'a [u8]) -> (r: Result<(u32, u8, &'a [u8]), prost::DecodeError>)
    ensures
        match r {
            Ok((tag, wire_type, rest)) => read_key(buf@) == Some((tag, wire_type, rest@)),
            Err(_) => read_key(buf@) is None,
        },
{
    let mut rest = buf;
    let (tag, wire_type) = prost::encoding::decode_key(&mut rest)?;
    Ok((tag, wire_type as u8, rest))
}

/// The integers that a reader can still find after `count` bytes are those below this bound.
pub open spec fn varint_bound(count: nat) -> nat
    decreases 9 - count,
{
    if count >= 9 {
        2
    } else {
        0x80 * varint_bound(count + 1)
    }
}

/// Ten bytes of seven bits, of which the last holds one bit, make 64 bits.
proof fn lemma_varint_bound()
    ensures
        varint_bound(0) == 0x1_0000_0000_0000_0000,
{
    reveal_with_fuel(varint_bound, 10);
}

/// What is left after an integer is shorter than what was there, and the integer is within bounds.
proof fn lemma_read_varint_from(b: Seq<u8>, count: nat)
    ensures
        read_varint_from(b, count) matches Some((value, rest)) ==> rest.len() < b.len() && value
            < varint_bound(count),
    decreases b.len(),
{
    if b.len() > 0 && count < 10 {
        if b[0] < 0x80 {
            if count < 9 {
                lemma_varint_bound_positive(count + 1);
            }
        } else {
            lemma_read_varint_from(b.skip(1), count + 1);
        }
    }
}

proof fn lemma_varint_bound_positive(count: nat)
    ensures
        varint_bound(count) >= 1,
    decreases 9 - count,
{
    if count < 9 {
        lemma_varint_bound_positive(count + 1);
    }
}

/// An integer that was read has 64 bits, and bytes were used up for it.
proof fn lemma_read_varint(b: Seq<u8>)
    ensures
        read_varint(b) matches Some((value, rest)) ==> rest.len() < b.len() && value <= u64::MAX,
{
    lemma_varint_bound();
    lemma_read_varint_from(b, 0);
}

/// Reading a key uses up bytes.
pub proof fn lemma_read_key_shrinks(b: Seq<u8>)
    ensures
        read_key(b) matches Some((_, _, rest)) ==> rest.len() < b.len(),
{
    lemma_read_varint(b);
}

/// Reading an integer field uses up bytes.
pub proof fn lemma_read_uint64_shrinks(wire_type: u8, b: Seq<u8>)
    ensures
        read_uint64(wire_type, b) matches Some((_, rest)) ==> rest.len() < b.len(),
{
    lemma_read_varint(b);
}

/// Reading a length-delimited field uses up bytes.
pub proof fn lemma_read_bytes_shrinks(wire_type: u8, b: Seq<u8>)
    ensures
        read_bytes(wire_type, b) matches Some((_, rest)) ==> rest.len() < b.len(),
{
    lemma_read_varint(b);
}

/// Passing over a value leaves no more bytes than there were.
pub proof fn lemma_skip_value_shrinks(wire_type: u8, b: Seq<u8>)
    ensures
        skip_value(wire_type, b) matches Some(rest) ==> rest.len() <= b.len(),
{
    lemma_read_varint(b);
}

/// Passing over groups leaves no more bytes than there were.
proof fn lemma_skip_groups_shrinks(open: Seq<u32>, b: Seq<u8>, limit: nat)
    ensures
        skip_groups(open, b, limit) matches Some(rest) ==> rest.len() <= b.len(),
    decreases b.len(),
{
    if open.len() > 0 {
        if let Some((tag, wire_type, rest)) = read_key(b) {
            lemma_read_key_shrinks(b);
            lemma_skip_value_shrinks(wire_type, rest);
            lemma_skip_groups_shrinks(open.drop_last(), rest, limit);
            lemma_skip_groups_shrinks(open.push(tag), rest, limit);
            if let Some(after) = skip_value(wire_type, rest) {
                lemma_skip_groups_shrinks(open, after, limit);
            }
        }
    }
}

/// Passing over an unknown field leaves no more bytes than there were.
pub proof fn lemma_skip_unknown_shrinks(tag: u32, wire_type: u8, b: Seq<u8>, limit: nat)
    ensures
        skip_unknown(tag, wire_type, b, limit) matches Some(rest) ==> rest.len() <= b.len(),
{
    lemma_skip_value_shrinks(wire_type, b);
    lemma_skip_groups_shrinks(seq![tag], b, limit);
}

/// Reads a key.
pub(crate) fn take_key<'a>(buf: &'a [u8]) -> (r: Option<(u32, u8, &'a [u8])>)
    ensures
        match r {
            Some((tag, wire_type, rest)) => read_key(buf@) == Some((tag, wire_type, rest@)),
            None => read_key(buf@) is None,
        },
{
    match decode_key(buf) {
        Ok(key) => Some(key),
        Err(_) => None,
    }
}

/// Reads the value of an integer field.
pub(crate) fn take_uint64<'a>(wire_type: u8, buf: &'a [u8]) -> (r: Option<(u64, &'a [u8])>)
    ensures
        match r {
            Some((value, rest)) => read_uint64(wire_type, buf@) == Some((value, rest@)),
            None => read_uint64(wire_type, buf@) is None,
        },
{
    if wire_type != WIRE_VARINT {
        return None;
    }
    match decode_varint(buf) {
        Ok(value) => Some(value),
        Err(_) => None,
    }
}

/// Reads the value of a length-delimited field.
pub(crate) fn take_bytes<'a>(wire_type: u8, buf: &'a [u8]) -> (r: Option<(&'a [u8], &'a [u8])>)
    ensures
        match r {
            Some((value, rest)) => read_bytes(wire_type, buf@) == Some((value@, rest@)),
            None => read_bytes(wire_type, buf@) is None,
        },
{
    if wire_type != WIRE_LENGTH_DELIMITED {
        return None;
    }
    match decode_varint(buf) {
        Ok((len, rest)) => {
            if len > rest.len() as u64 {
                return None;
            }
            let len: usize = len as usize;
            Some((slice_subrange(rest, 0, len), slice_subrange(rest, len, rest.len())))
        },
        Err(_) => None,
    }
}

/// Passes over a value that is no group.
fn pass_value<'a>(wire_type: u8, buf: &'a [u8]) -> (r: Option<&'a [u8]>)
    ensures
        match r {
            Some(rest) => skip_value(wire_type, buf@) == Some(rest@),
            None => skip_value(wire_type, buf@) is None,
        },
{
    if wire_type == WIRE_VARINT {
        match decode_varint(buf) {
            Ok((_, rest)) => Some(rest),
            Err(_) => None,
        }
    } else if wire_type == WIRE_SIXTY_FOUR_BIT {
        if buf.len() >= 8 {
            Some(slice_subrange(buf, 8, buf.len()))
        } else {
            None
        }
    } else if wire_type == WIRE_THIRTY_TWO_BIT {
        if buf.len() >= 4 {
            Some(slice_subrange(buf, 4, buf.len()))
        } else {
            None
        }
    } else {
        match take_bytes(wire_type, buf) {
            Some((_, rest)) => Some(rest),
            None => None,
        }
    }
}

/// Passes over a field that the message does not know, at a level from which `limit` more can be
/// entered.
pub(crate) fn pass_unknown<'a>(tag: u32, wire_type: u8, buf: &'a [u8], limit: u32) -> (r: Option<
    &'a [u8],
>)
    ensures
        match r {
            Some(rest) => skip_unknown(tag, wire_type, buf@, limit as nat) == Some(rest@),
            None => skip_unknown(tag, wire_type, buf@, limit as nat) is None,
        },
{
    if limit == 0 {
        return None;
    }
    if wire_type != WIRE_START_GROUP {
        return pass_value(wire_type, buf);
    }
    let mut open: Vec<u32> = vec![tag];
    let mut rest: &'a [u8] = buf;
    assert(open@ == seq![tag]);
    while open.len() > 0
        invariant
            skip_unknown(tag, wire_type, buf@, limit as nat) == skip_groups(
                open@,
                rest@,
                limit as nat,
            ),
        decreases rest@.len(),
    {
        proof {
            lemma_read_key_shrinks(rest@);
        }
        let (inner_tag, inner_wire_type, after_key) = match take_key(rest) {
            Some(key) => key,
            None => {
                return None;
            },
        };
        if inner_wire_type == WIRE_END_GROUP {
            if inner_tag != open[open.len() - 1] {
                return None;
            }
            open.pop();
            rest = after_key;
        } else if open.len() as u64 >= limit as u64 {
            return None;
        } else if inner_wire_type == WIRE_START_GROUP {
            open.push(inner_tag);
            rest = after_key;
        } else {
            proof {
                lemma_skip_value_shrinks(inner_wire_type, after_key@);
            }
            rest = match pass_value(inner_wire_type, after_key) {
                Some(after) => after,
                None => {
                    return None;
                },
            };
        }
    }
    Some(rest)
}

// ---------------------------------------------------------------------------------------------
// What was written is read back
// ---------------------------------------------------------------------------------------------

proof fn lemma_varint_read_back_from(n: nat, rest: Seq<u8>, count: nat)
    requires
        count < 10,
        n < varint_bound(count),
    ensures
        read_varint_from(varint(n) + rest, count) == Some((n, rest)),
    decreases n,
{
    let b = varint(n) + rest;
    if n < 0x80 {
        assert(b.skip(1) =~= rest);
    } else {
        assert(b.skip(1) =~= varint(n / 0x80) + rest);
        lemma_varint_read_back_from(n / 0x80, rest, count + 1);
    }
}

/// An integer of 64 bits that was written is read back, and what follows it is left alone.
pub proof fn lemma_varint_read_back(n: nat, rest: Seq<u8>)
    requires
        n <= u64::MAX,
    ensures
        read_varint(varint(n) + rest) == Some((n, rest)),
{
    lemma_varint_bound();
    lemma_varint_read_back_from(n, rest, 0);
}

/// A key that was written is read back.
proof fn lemma_key_read_back(tag: u32, wire_type: u8, rest: Seq<u8>)
    requires
        1 <= tag <= MAX_TAG,
        wire_type <= WIRE_THIRTY_TWO_BIT,
    ensures
        read_key(field_key(tag as nat, wire_type) + rest) == Some((tag, wire_type, rest)),
{
    lemma_varint_read_back(tag as nat * 8 + wire_type as nat, rest);
}

/// An integer field that was written is read back.
pub proof fn lemma_varint_field_read_back(tag: u32, value: u64, rest: Seq<u8>)
    requires
        1 <= tag <= MAX_TAG,
    ensures
        varint_field(tag as nat, value as nat).len() > 0,
        read_key(varint_field(tag as nat, value as nat) + rest) == Some(
            (tag, WIRE_VARINT, varint(value as nat) + rest),
        ),
        read_uint64(WIRE_VARINT, varint(value as nat) + rest) == Some((value, rest)),
{
    let after = varint(value as nat) + rest;
    assert(varint_field(tag as nat, value as nat) + rest =~= field_key(tag as nat, WIRE_VARINT)
        + after);
    lemma_key_read_back(tag, WIRE_VARINT, after);
    lemma_varint_read_back(value as nat, rest);
    lemma_read_key_shrinks(varint_field(tag as nat, value as nat) + rest);
}

/// A length-delimited field that was written is read back.
pub proof fn lemma_bytes_field_read_back(tag: u32, value: Seq<u8>, rest: Seq<u8>)
    requires
        1 <= tag <= MAX_TAG,
        value.len() <= u64::MAX,
    ensures
        bytes_field(tag as nat, value).len() > 0,
        read_key(bytes_field(tag as nat, value) + rest) == Some(
            (tag, WIRE_LENGTH_DELIMITED, varint(value.len()) + value + rest),
        ),
        read_bytes(WIRE_LENGTH_DELIMITED, varint(value.len()) + value + rest) == Some(
            (value, rest),
        ),
{
    let after = varint(value.len()) + value + rest;
    assert(bytes_field(tag as nat, value) + rest =~= field_key(tag as nat, WIRE_LENGTH_DELIMITED)
        + after);
    lemma_key_read_back(tag, WIRE_LENGTH_DELIMITED, after);
    lemma_read_key_shrinks(bytes_field(tag as nat, value) + rest);
    assert(after =~= varint(value.len()) + (value + rest));
    lemma_varint_read_back(value.len(), value + rest);
    assert((value + rest).take(value.len() as int) =~= value);
    assert((value + rest).skip(value.len() as int) =~= rest);
}

/// An integer of 64 bits has at most ten bytes.
proof fn lemma_varint_len_from(n: nat, count: nat)
    requires
        count < 10,
        n < varint_bound(count),
    ensures
        1 <= varint(n).len() <= 10 - count,
    decreases n,
{
    if n >= 0x80 {
        lemma_varint_len_from(n / 0x80, count + 1);
    }
}

/// An integer of 64 bits has one to ten bytes.
pub proof fn lemma_varint_len(n: nat)
    requires
        n <= u64::MAX,
    ensures
        1 <= varint(n).len() <= 10,
{
    lemma_varint_bound();
    lemma_varint_len_from(n, 0);
}

} // verus!
