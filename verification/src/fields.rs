//! The fields of a message as they stand in its bytes, each with its number, whatever the message.
use vstd::prelude::*;

use crate::proto::Uint128;

verus! {

/// What a field holds.
pub enum FieldValue {
    Integer(u64),
    Bytes(Seq<u8>),
}

/// The fields in some bytes, in their order: each is a key, and behind it an integer or a length and
/// so many bytes. Only keys and lengths are looked at.
pub open spec fn fields(b: Seq<u8>) -> Option<Seq<(u32, FieldValue)>>
    decreases b.len(),
{
    if b.len() == 0 {
        Some(seq![])
    } else {
        match crate::wire::read_key(b) {
            None => None,
            Some((number, wire_type, after)) => {
                proof {
                    crate::wire::lemma_read_key_shrinks(b);
                    crate::wire::lemma_read_uint64_shrinks(wire_type, after);
                    crate::wire::lemma_read_bytes_shrinks(wire_type, after);
                }
                match crate::wire::read_uint64(wire_type, after) {
                    Some((value, rest)) => match fields(rest) {
                        Some(fs) => Some(seq![(number, FieldValue::Integer(value))] + fs),
                        None => None,
                    },
                    None => match crate::wire::read_bytes(wire_type, after) {
                        Some((value, rest)) => match fields(rest) {
                            Some(fs) => Some(seq![(number, FieldValue::Bytes(value))] + fs),
                            None => None,
                        },
                        None => None,
                    },
                }
            },
        }
    }
}

/// An integer field, unless it is zero.
pub open spec fn integer_unless_zero(number: u32, value: u64) -> Seq<(u32, FieldValue)> {
    if value == 0 {
        seq![]
    } else {
        seq![(number, FieldValue::Integer(value))]
    }
}

/// A field of bytes, unless there are none.
pub open spec fn bytes_unless_none(number: u32, value: Seq<u8>) -> Seq<(u32, FieldValue)> {
    if value.len() == 0 {
        seq![]
    } else {
        seq![(number, FieldValue::Bytes(value))]
    }
}

proof fn lemma_integer_comes_first(
    number: u32,
    value: u64,
    rest: Seq<u8>,
    fs: Seq<(u32, FieldValue)>,
)
    requires
        1 <= number <= 7,
        fields(rest) == Some(fs),
    ensures
        fields(crate::wire::implicit_uint64(number as nat, value) + rest) == Some(
            integer_unless_zero(number, value) + fs,
        ),
{
    if value == 0 {
        assert(crate::wire::implicit_uint64(number as nat, value) + rest =~= rest);
        assert(integer_unless_zero(number, value) + fs =~= fs);
    } else {
        crate::wire::lemma_varint_field_read_back(number, value, rest);
    }
}

proof fn lemma_bytes_come_first(
    number: u32,
    value: Seq<u8>,
    rest: Seq<u8>,
    fs: Seq<(u32, FieldValue)>,
)
    requires
        1 <= number <= 7,
        value.len() <= u64::MAX,
        fields(rest) == Some(fs),
    ensures
        fields(crate::wire::bytes_field(number as nat, value) + rest) == Some(
            seq![(number, FieldValue::Bytes(value))] + fs,
        ),
        fields(crate::wire::implicit_bytes(number as nat, value) + rest) == Some(
            bytes_unless_none(number, value) + fs,
        ),
{
    crate::wire::lemma_bytes_field_read_back(number, value, rest);
    if value.len() == 0 {
        assert(crate::wire::implicit_bytes(number as nat, value) + rest =~= rest);
        assert(bytes_unless_none(number, value) + fs =~= fs);
    }
}

/// In the bytes of a wide number, field 1 is the high half and field 2 the low half.
pub proof fn uint128_fields(v: Uint128)
    ensures
        fields(crate::proto::uint128_wire(v)) == Some(
            integer_unless_zero(1, v.high) + integer_unless_zero(2, v.low),
        ),
{
    let none: Seq<(u32, FieldValue)> = seq![];
    let w2 = crate::wire::implicit_uint64(2, v.low);
    lemma_integer_comes_first(2, v.low, seq![], none);
    assert(w2 + seq![] =~= w2);
    assert(integer_unless_zero(2, v.low) + none =~= integer_unless_zero(2, v.low));
    lemma_integer_comes_first(1, v.high, w2, integer_unless_zero(2, v.low));
}

/// In the bytes of a receipt, field 1 is the collection identifier, field 2 the payer, field 3 the
/// data service, field 4 the service provider, field 5 the timestamp, field 6 the nonce and field 7
/// the value.
pub proof fn receipt_fields(m: crate::proto::ReceiptProtoView)
    requires
        m.collection_id.len() <= u64::MAX,
        m.payer.len() <= u64::MAX,
        m.data_service.len() <= u64::MAX,
        m.service_provider.len() <= u64::MAX,
    ensures
        fields(crate::proto::receipt_wire(m)) == Some(
            bytes_unless_none(1, m.collection_id) + (bytes_unless_none(2, m.payer) + (
            bytes_unless_none(3, m.data_service) + (bytes_unless_none(4, m.service_provider) + (
            integer_unless_zero(5, m.timestamp_ns) + (integer_unless_zero(6, m.nonce)
                + match m.value {
                Some(v) => seq![(7u32, FieldValue::Bytes(crate::proto::uint128_wire(v)))],
                None => seq![],
            }))))),
        ),
{
    let none: Seq<(u32, FieldValue)> = seq![];
    let w7 = crate::proto::value_field(m.value);
    let f7 = match m.value {
        Some(v) => seq![(7u32, FieldValue::Bytes(crate::proto::uint128_wire(v)))],
        None => seq![],
    };
    assert(fields(w7) == Some(f7)) by {
        if let Some(v) = m.value {
            crate::proto::lemma_uint128_wire_len(v);
            lemma_bytes_come_first(7, crate::proto::uint128_wire(v), seq![], none);
            assert(w7 + seq![] =~= w7);
            assert(f7 + none =~= f7);
        }
    }
    let w6 = crate::wire::implicit_uint64(6, m.nonce) + w7;
    let w5 = crate::wire::implicit_uint64(5, m.timestamp_ns) + w6;
    let w4 = crate::wire::implicit_bytes(4, m.service_provider) + w5;
    let w3 = crate::wire::implicit_bytes(3, m.data_service) + w4;
    let w2 = crate::wire::implicit_bytes(2, m.payer) + w3;
    let w1 = crate::wire::implicit_bytes(1, m.collection_id) + w2;
    let f6 = integer_unless_zero(6, m.nonce) + f7;
    let f5 = integer_unless_zero(5, m.timestamp_ns) + f6;
    let f4 = bytes_unless_none(4, m.service_provider) + f5;
    let f3 = bytes_unless_none(3, m.data_service) + f4;
    let f2 = bytes_unless_none(2, m.payer) + f3;
    lemma_integer_comes_first(6, m.nonce, w7, f7);
    lemma_integer_comes_first(5, m.timestamp_ns, w6, f6);
    lemma_bytes_come_first(4, m.service_provider, w5, f5);
    lemma_bytes_come_first(3, m.data_service, w4, f4);
    lemma_bytes_come_first(2, m.payer, w3, f3);
    lemma_bytes_come_first(1, m.collection_id, w2, f2);
    assert(crate::proto::receipt_wire(m) == w1) by {
        crate::proto::lemma_nest_to_the_right(
            crate::wire::implicit_bytes(1, m.collection_id),
            crate::wire::implicit_bytes(2, m.payer),
            crate::wire::implicit_bytes(3, m.data_service),
            crate::wire::implicit_bytes(4, m.service_provider),
            crate::wire::implicit_uint64(5, m.timestamp_ns),
            crate::wire::implicit_uint64(6, m.nonce),
            w7,
        );
    }
}

/// In the bytes of a signed receipt, field 1 is the receipt and field 2 the signature.
pub proof fn signed_receipt_fields(m: crate::proto::SignedReceiptProtoView)
    requires
        m.signature.len() <= u64::MAX,
        m.message matches Some(r) ==> crate::proto::receipt_wire(r).len() <= u64::MAX,
    ensures
        fields(crate::proto::signed_receipt_wire(m)) == Some(
            (match m.message {
                Some(r) => seq![(1u32, FieldValue::Bytes(crate::proto::receipt_wire(r)))],
                None => seq![],
            }) + bytes_unless_none(2, m.signature),
        ),
{
    let none: Seq<(u32, FieldValue)> = seq![];
    let w2 = crate::wire::implicit_bytes(2, m.signature);
    let f2 = bytes_unless_none(2, m.signature);
    lemma_bytes_come_first(2, m.signature, seq![], none);
    assert(w2 + seq![] =~= w2);
    assert(f2 + none =~= f2);
    match m.message {
        Some(r) => {
            lemma_bytes_come_first(1, crate::proto::receipt_wire(r), w2, f2);
        },
        None => {
            assert(crate::proto::signed_receipt_wire(m) =~= w2);
            assert(none + f2 =~= f2);
        },
    }
}

} // verus!
