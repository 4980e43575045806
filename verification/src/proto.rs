//! The protobuf messages that make up a signed receipt.
//!
//! The field numbers are those of `tap_aggregator.v2`. A field that holds its default is left out,
//! a nested message is written whenever it is there, and the fields come in the order of their
//! numbers. A reader takes the fields in any order, lets the last of a repeated field win, merges
//! repeated nested messages and passes over fields that it does not know.

use vstd::prelude::*;
use vstd::slice::slice_to_vec;

use crate::wire::{
    pass_unknown, put_bytes, put_implicit_bytes, put_implicit_uint64, take_bytes, take_key,
    take_uint64, RECURSION_LIMIT,
};

verus! {

/// Bytes that are no message.
#[derive(Clone, Copy, Debug, PartialEq, Eq)]
pub struct MalformedMessage;

// ---------------------------------------------------------------------------------------------
// Uint128
// ---------------------------------------------------------------------------------------------

/// `grpc.uint128.Uint128`: a number of 128 bits in two halves, because protobuf has no integers
/// that wide.
#[derive(Clone, Copy, Debug, PartialEq, Eq)]
pub struct Uint128 {
    pub high: u64,
    pub low: u64,
}

impl Default for Uint128 {
    fn default() -> (r: Self)
        ensures
            r == (Uint128 { high: 0, low: 0 }),
    {
        Uint128 { high: 0, low: 0 }
    }
}

impl vstd::std_specs::convert::FromSpecImpl<u128> for Uint128 {
    open spec fn obeys_from_spec() -> bool {
        true
    }

    open spec fn from_spec(v: u128) -> Self {
        Uint128::split(v)
    }
}

impl From<u128> for Uint128 {
    fn from(v: u128) -> Self {
        proof {
            assert((v >> 64) as u64 == (v / 0x1_0000_0000_0000_0000) as u64) by (bit_vector);
            assert(v as u64 == (v % 0x1_0000_0000_0000_0000) as u64) by (bit_vector);
        }
        Uint128 { high: (v >> 64) as u64, low: #[verifier::truncate] (v as u64) }
    }
}

impl Uint128 {
    /// The two halves of a number.
    pub open spec fn split(v: u128) -> Uint128 {
        Uint128 {
            high: (v / 0x1_0000_0000_0000_0000) as u64,
            low: (v % 0x1_0000_0000_0000_0000) as u64,
        }
    }

    /// The number that the two halves stand for.
    pub open spec fn value(self) -> nat {
        self.high as nat * 0x1_0000_0000_0000_0000 + self.low as nat
    }

    /// The number that the two halves stand for.
    pub fn to_u128(&self) -> (r: u128)
        ensures
            r as nat == self.value(),
    {
        self.high as u128 * 0x1_0000_0000_0000_0000 + self.low as u128
    }

    /// The message in its wire form.
    pub fn encode_to_vec(&self) -> (r: Vec<u8>)
        ensures
            r@ == uint128_wire(*self),
    {
        let mut buf: Vec<u8> = Vec::new();
        put_implicit_uint64(1, self.high, &mut buf);
        put_implicit_uint64(2, self.low, &mut buf);
        buf
    }

    /// Reads the message from its wire form.
    pub fn decode(buf: &[u8]) -> (r: Result<Self, MalformedMessage>)
        ensures
            match r {
                Ok(v) => uint128_read(buf@) == Some(v),
                Err(_) => uint128_read(buf@) is None,
            },
    {
        match Uint128::default().merge(buf, RECURSION_LIMIT) {
            Some(v) => Ok(v),
            None => Err(MalformedMessage),
        }
    }

    /// Reads fields into the message.
    pub(crate) fn merge(self, buf: &[u8], limit: u32) -> (r: Option<Self>)
        ensures
            r == uint128_merge(self, buf@, limit as nat),
    {
        let mut acc: Uint128 = self;
        let mut rest: &[u8] = buf;
        while rest.len() > 0
            invariant
                uint128_merge(self, buf@, limit as nat) == uint128_merge(acc, rest@, limit as nat),
            decreases rest@.len(),
        {
            proof {
                lemma_uint128_step_shrinks(acc, rest@, limit as nat);
            }
            let (tag, wire_type, after) = match take_key(rest) {
                Some(key) => key,
                None => {
                    return None;
                },
            };
            if tag == 1 || tag == 2 {
                match take_uint64(wire_type, after) {
                    Some((value, next)) => {
                        if tag == 1 {
                            acc.high = value;
                        } else {
                            acc.low = value;
                        }
                        rest = next;
                    },
                    None => {
                        return None;
                    },
                }
            } else {
                match pass_unknown(tag, wire_type, after, limit) {
                    Some(next) => {
                        rest = next;
                    },
                    None => {
                        return None;
                    },
                }
            }
        }
        Some(acc)
    }
}

/// The wire form of a [`Uint128`].
pub open spec fn uint128_wire(v: Uint128) -> Seq<u8> {
    crate::wire::implicit_uint64(1, v.high) + crate::wire::implicit_uint64(2, v.low)
}

/// Reads one field into a [`Uint128`]; what follows the field comes back too.
pub open spec fn uint128_step(acc: Uint128, b: Seq<u8>, limit: nat) -> Option<(Uint128, Seq<u8>)> {
    match crate::wire::read_key(b) {
        None => None,
        Some((tag, wire_type, after)) => if tag == 1 || tag == 2 {
            match crate::wire::read_uint64(wire_type, after) {
                Some((value, rest)) => Some(
                    (
                        if tag == 1 {
                            Uint128 { high: value, low: acc.low }
                        } else {
                            Uint128 { high: acc.high, low: value }
                        },
                        rest,
                    ),
                ),
                None => None,
            }
        } else {
            match crate::wire::skip_unknown(tag, wire_type, after, limit) {
                Some(rest) => Some((acc, rest)),
                None => None,
            }
        },
    }
}

/// Reads fields into a [`Uint128`] until the bytes are used up.
pub open spec fn uint128_merge(acc: Uint128, b: Seq<u8>, limit: nat) -> Option<Uint128>
    decreases b.len(),
{
    if b.len() == 0 {
        Some(acc)
    } else {
        proof {
            lemma_uint128_step_shrinks(acc, b, limit);
        }
        match uint128_step(acc, b, limit) {
            Some((next, rest)) => uint128_merge(next, rest, limit),
            None => None,
        }
    }
}

/// What a reader makes of bytes that should be a [`Uint128`].
pub open spec fn uint128_read(b: Seq<u8>) -> Option<Uint128> {
    uint128_merge(Uint128 { high: 0, low: 0 }, b, RECURSION_LIMIT as nat)
}

/// Reading a field uses up bytes.
pub proof fn lemma_uint128_step_shrinks(acc: Uint128, b: Seq<u8>, limit: nat)
    ensures
        uint128_step(acc, b, limit) matches Some((_, rest)) ==> rest.len() < b.len(),
{
    crate::wire::lemma_read_key_shrinks(b);
    if let Some((tag, wire_type, after)) = crate::wire::read_key(b) {
        crate::wire::lemma_read_uint64_shrinks(wire_type, after);
        crate::wire::lemma_skip_unknown_shrinks(tag, wire_type, after, limit);
    }
}

/// The halves of a number stand for that number.
pub proof fn uint128_keeps_the_value(v: u128)
    ensures
        Uint128::split(v).value() == v,
{
}

/// A number that is put together from two halves has these halves.
pub proof fn uint128_keeps_the_halves(h: Uint128)
    ensures
        h.value() <= u128::MAX,
        Uint128::split(h.value() as u128) == h,
{
}

/// A [`Uint128`] that was written is read back.
pub proof fn uint128_reads_back(v: Uint128)
    ensures
        uint128_read(uint128_wire(v)) == Some(v),
{
    lemma_uint128_merge_wire(v, RECURSION_LIMIT as nat);
}

proof fn lemma_uint128_merge_wire(v: Uint128, limit: nat)
    ensures
        uint128_merge(Uint128 { high: 0, low: 0 }, uint128_wire(v), limit) == Some(v),
{
    let low = crate::wire::implicit_uint64(2, v.low);
    let acc = Uint128 { high: v.high, low: 0 };
    assert(uint128_merge(acc, low, limit) == Some(v)) by {
        if v.low != 0 {
            crate::wire::lemma_varint_field_read_back(2, v.low, seq![]);
            assert(low + seq![] =~= low);
            assert(uint128_merge(v, seq![], limit) == Some(v));
        }
    }
    if v.high == 0 {
        assert(uint128_wire(v) =~= low);
    } else {
        crate::wire::lemma_varint_field_read_back(1, v.high, low);
    }
}

// ---------------------------------------------------------------------------------------------
// ReceiptProto
// ---------------------------------------------------------------------------------------------

/// `tap_aggregator.v2.Receipt`.
#[derive(Clone, Debug, PartialEq, Eq)]
pub struct ReceiptProto {
    pub collection_id: Vec<u8>,
    pub payer: Vec<u8>,
    pub data_service: Vec<u8>,
    pub service_provider: Vec<u8>,
    pub timestamp_ns: u64,
    pub nonce: u64,
    pub value: Option<Uint128>,
}

/// What a [`ReceiptProto`] holds.
pub struct ReceiptProtoView {
    pub collection_id: Seq<u8>,
    pub payer: Seq<u8>,
    pub data_service: Seq<u8>,
    pub service_provider: Seq<u8>,
    pub timestamp_ns: u64,
    pub nonce: u64,
    pub value: Option<Uint128>,
}

impl View for ReceiptProto {
    type V = ReceiptProtoView;

    open spec fn view(&self) -> ReceiptProtoView {
        ReceiptProtoView {
            collection_id: self.collection_id@,
            payer: self.payer@,
            data_service: self.data_service@,
            service_provider: self.service_provider@,
            timestamp_ns: self.timestamp_ns,
            nonce: self.nonce,
            value: self.value,
        }
    }
}

impl ReceiptProtoView {
    /// The message after one of its fields of bytes was set, by its number.
    pub open spec fn with_bytes(self, tag: u32, value: Seq<u8>) -> ReceiptProtoView {
        if tag == 1 {
            ReceiptProtoView { collection_id: value, ..self }
        } else if tag == 2 {
            ReceiptProtoView { payer: value, ..self }
        } else if tag == 3 {
            ReceiptProtoView { data_service: value, ..self }
        } else {
            ReceiptProtoView { service_provider: value, ..self }
        }
    }

    /// The message after one of its integer fields was set, by its number.
    pub open spec fn with_uint64(self, tag: u32, value: u64) -> ReceiptProtoView {
        if tag == 5 {
            ReceiptProtoView { timestamp_ns: value, ..self }
        } else {
            ReceiptProtoView { nonce: value, ..self }
        }
    }

    /// The lengths of the fields can be written down in 64 bits.
    pub open spec fn fits(self) -> bool {
        &&& self.collection_id.len() <= u64::MAX
        &&& self.payer.len() <= u64::MAX
        &&& self.data_service.len() <= u64::MAX
        &&& self.service_provider.len() <= u64::MAX
    }
}

/// The message in which no field is set.
pub open spec fn empty_receipt() -> ReceiptProtoView {
    ReceiptProtoView {
        collection_id: seq![],
        payer: seq![],
        data_service: seq![],
        service_provider: seq![],
        timestamp_ns: 0,
        nonce: 0,
        value: None,
    }
}

impl Default for ReceiptProto {
    fn default() -> (r: Self)
        ensures
            r@ == empty_receipt(),
    {
        ReceiptProto {
            collection_id: Vec::new(),
            payer: Vec::new(),
            data_service: Vec::new(),
            service_provider: Vec::new(),
            timestamp_ns: 0,
            nonce: 0,
            value: None,
        }
    }
}

/// The field that holds the value of a receipt.
pub open spec fn value_field(value: Option<Uint128>) -> Seq<u8> {
    match value {
        Some(v) => crate::wire::bytes_field(7, uint128_wire(v)),
        None => seq![],
    }
}

/// The wire form of a [`ReceiptProto`].
pub open spec fn receipt_wire(m: ReceiptProtoView) -> Seq<u8> {
    crate::wire::implicit_bytes(1, m.collection_id) + crate::wire::implicit_bytes(2, m.payer)
        + crate::wire::implicit_bytes(3, m.data_service) + crate::wire::implicit_bytes(
        4,
        m.service_provider,
    ) + crate::wire::implicit_uint64(5, m.timestamp_ns) + crate::wire::implicit_uint64(6, m.nonce)
        + value_field(m.value)
}

/// Reads one field into a [`ReceiptProto`]; what follows the field comes back too.
pub open spec fn receipt_step(acc: ReceiptProtoView, b: Seq<u8>, limit: nat) -> Option<
    (ReceiptProtoView, Seq<u8>),
> {
    match crate::wire::read_key(b) {
        None => None,
        Some((tag, wire_type, after)) => if 1 <= tag <= 4 {
            match crate::wire::read_bytes(wire_type, after) {
                Some((value, rest)) => Some((acc.with_bytes(tag, value), rest)),
                None => None,
            }
        } else if tag == 5 || tag == 6 {
            match crate::wire::read_uint64(wire_type, after) {
                Some((value, rest)) => Some((acc.with_uint64(tag, value), rest)),
                None => None,
            }
        } else if tag == 7 {
            match crate::wire::read_bytes(wire_type, after) {
                Some((body, rest)) => match read_nested_uint128(acc.value, body, limit) {
                    Some(v) => Some((ReceiptProtoView { value: Some(v), ..acc }, rest)),
                    None => None,
                },
                None => None,
            }
        } else {
            match crate::wire::skip_unknown(tag, wire_type, after, limit) {
                Some(rest) => Some((acc, rest)),
                None => None,
            }
        },
    }
}

/// Reads a nested [`Uint128`] into the one that is there, or into an empty one.
pub open spec fn read_nested_uint128(
    there: Option<Uint128>,
    body: Seq<u8>,
    limit: nat,
) -> Option<Uint128> {
    if limit == 0 {
        None
    } else {
        uint128_merge(
            match there {
                Some(v) => v,
                None => Uint128 { high: 0, low: 0 },
            },
            body,
            (limit - 1) as nat,
        )
    }
}

/// Reads fields into a [`ReceiptProto`] until the bytes are used up.
pub open spec fn receipt_merge(acc: ReceiptProtoView, b: Seq<u8>, limit: nat) -> Option<
    ReceiptProtoView,
>
    decreases b.len(),
{
    if b.len() == 0 {
        Some(acc)
    } else {
        proof {
            lemma_receipt_step_shrinks(acc, b, limit);
        }
        match receipt_step(acc, b, limit) {
            Some((next, rest)) => receipt_merge(next, rest, limit),
            None => None,
        }
    }
}

/// What a reader makes of bytes that should be a [`ReceiptProto`].
pub open spec fn receipt_read(b: Seq<u8>) -> Option<ReceiptProtoView> {
    receipt_merge(empty_receipt(), b, RECURSION_LIMIT as nat)
}

/// Reading a field uses up bytes.
pub proof fn lemma_receipt_step_shrinks(acc: ReceiptProtoView, b: Seq<u8>, limit: nat)
    ensures
        receipt_step(acc, b, limit) matches Some((_, rest)) ==> rest.len() < b.len(),
{
    crate::wire::lemma_read_key_shrinks(b);
    if let Some((tag, wire_type, after)) = crate::wire::read_key(b) {
        crate::wire::lemma_read_uint64_shrinks(wire_type, after);
        crate::wire::lemma_read_bytes_shrinks(wire_type, after);
        crate::wire::lemma_skip_unknown_shrinks(tag, wire_type, after, limit);
    }
}

impl ReceiptProto {
    /// The message in its wire form.
    pub fn encode_to_vec(&self) -> (r: Vec<u8>)
        ensures
            r@ == receipt_wire(self@),
    {
        let mut buf: Vec<u8> = Vec::new();
        put_implicit_bytes(1, &self.collection_id, &mut buf);
        put_implicit_bytes(2, &self.payer, &mut buf);
        put_implicit_bytes(3, &self.data_service, &mut buf);
        put_implicit_bytes(4, &self.service_provider, &mut buf);
        put_implicit_uint64(5, self.timestamp_ns, &mut buf);
        put_implicit_uint64(6, self.nonce, &mut buf);
        match &self.value {
            Some(value) => put_bytes(7, &value.encode_to_vec(), &mut buf),
            None => {},
        }
        buf
    }

    /// Reads the message from its wire form.
    pub fn decode(buf: &[u8]) -> (r: Result<Self, MalformedMessage>)
        ensures
            match r {
                Ok(m) => receipt_read(buf@) == Some(m@),
                Err(_) => receipt_read(buf@) is None,
            },
    {
        match ReceiptProto::default().merge(buf, RECURSION_LIMIT) {
            Some(m) => Ok(m),
            None => Err(MalformedMessage),
        }
    }

    /// Reads fields into the message.
    pub(crate) fn merge(self, buf: &[u8], limit: u32) -> (r: Option<Self>)
        ensures
            match r {
                Some(m) => receipt_merge(self@, buf@, limit as nat) == Some(m@),
                None => receipt_merge(self@, buf@, limit as nat) is None,
            },
    {
        let mut acc: ReceiptProto = self;
        let mut rest: &[u8] = buf;
        while rest.len() > 0
            invariant
                receipt_merge(self@, buf@, limit as nat) == receipt_merge(
                    acc@,
                    rest@,
                    limit as nat,
                ),
            decreases rest@.len(),
        {
            proof {
                lemma_receipt_step_shrinks(acc@, rest@, limit as nat);
            }
            let (tag, wire_type, after) = match take_key(rest) {
                Some(key) => key,
                None => {
                    return None;
                },
            };
            if 1 <= tag && tag <= 4 {
                match take_bytes(wire_type, after) {
                    Some((value, next)) => {
                        let value: Vec<u8> = slice_to_vec(value);
                        if tag == 1 {
                            acc.collection_id = value;
                        } else if tag == 2 {
                            acc.payer = value;
                        } else if tag == 3 {
                            acc.data_service = value;
                        } else {
                            acc.service_provider = value;
                        }
                        rest = next;
                    },
                    None => {
                        return None;
                    },
                }
            } else if tag == 5 || tag == 6 {
                match take_uint64(wire_type, after) {
                    Some((value, next)) => {
                        if tag == 5 {
                            acc.timestamp_ns = value;
                        } else {
                            acc.nonce = value;
                        }
                        rest = next;
                    },
                    None => {
                        return None;
                    },
                }
            } else if tag == 7 {
                match take_bytes(wire_type, after) {
                    Some((body, next)) => {
                        if limit == 0 {
                            return None;
                        }
                        let there: Uint128 = match acc.value {
                            Some(v) => v,
                            None => Uint128::default(),
                        };
                        match there.merge(body, limit - 1) {
                            Some(v) => {
                                acc.value = Some(v);
                            },
                            None => {
                                return None;
                            },
                        }
                        rest = next;
                    },
                    None => {
                        return None;
                    },
                }
            } else {
                match pass_unknown(tag, wire_type, after, limit) {
                    Some(next) => {
                        rest = next;
                    },
                    None => {
                        return None;
                    },
                }
            }
        }
        Some(acc)
    }
}

proof fn lemma_receipt_merge_bytes(
    acc: ReceiptProtoView,
    tag: u32,
    value: Seq<u8>,
    rest: Seq<u8>,
    limit: nat,
)
    requires
        1 <= tag <= 4,
        value.len() <= u64::MAX,
        acc.with_bytes(tag, seq![]) == acc,
    ensures
        receipt_merge(acc, crate::wire::implicit_bytes(tag as nat, value) + rest, limit)
            == receipt_merge(acc.with_bytes(tag, value), rest, limit),
{
    if value.len() == 0 {
        assert(value =~= seq![]);
        assert(crate::wire::implicit_bytes(tag as nat, value) + rest =~= rest);
    } else {
        crate::wire::lemma_bytes_field_read_back(tag, value, rest);
    }
}

proof fn lemma_receipt_merge_uint64(
    acc: ReceiptProtoView,
    tag: u32,
    value: u64,
    rest: Seq<u8>,
    limit: nat,
)
    requires
        5 <= tag <= 6,
        acc.with_uint64(tag, 0) == acc,
    ensures
        receipt_merge(acc, crate::wire::implicit_uint64(tag as nat, value) + rest, limit)
            == receipt_merge(acc.with_uint64(tag, value), rest, limit),
{
    if value == 0 {
        assert(crate::wire::implicit_uint64(tag as nat, value) + rest =~= rest);
    } else {
        crate::wire::lemma_varint_field_read_back(tag, value, rest);
    }
}

proof fn lemma_receipt_merge_value(acc: ReceiptProtoView, value: Option<Uint128>, limit: nat)
    requires
        acc.value is None,
        limit > 0,
    ensures
        receipt_merge(acc, value_field(value), limit) == Some(
            ReceiptProtoView { value: value, ..acc },
        ),
{
    if let Some(v) = value {
        let body = uint128_wire(v);
        lemma_uint128_wire_len(v);
        crate::wire::lemma_bytes_field_read_back(7, body, seq![]);
        assert(value_field(value) + seq![] =~= value_field(value));
        lemma_uint128_merge_wire(v, (limit - 1) as nat);
        let next = ReceiptProtoView { value: value, ..acc };
        assert(receipt_merge(next, seq![], limit) == Some(next));
    }
}

/// The wire form of a [`Uint128`] has at most 40 bytes.
pub proof fn lemma_uint128_wire_len(v: Uint128)
    ensures
        uint128_wire(v).len() <= 40,
{
    crate::wire::lemma_varint_len(v.high as nat);
    crate::wire::lemma_varint_len(v.low as nat);
    crate::wire::lemma_varint_len(8);
    crate::wire::lemma_varint_len(16);
}

pub proof fn lemma_nest_to_the_right(
    a: Seq<u8>,
    b: Seq<u8>,
    c: Seq<u8>,
    d: Seq<u8>,
    e: Seq<u8>,
    f: Seq<u8>,
    g: Seq<u8>,
)
    ensures
        a + b + c + d + e + f + g == a + (b + (c + (d + (e + (f + g))))),
{
}

#[verifier::rlimit(40)]
#[verifier::spinoff_prover]
proof fn lemma_receipt_merge_wire(m: ReceiptProtoView, limit: nat)
    requires
        m.fits(),
        limit > 0,
    ensures
        receipt_merge(empty_receipt(), receipt_wire(m), limit) == Some(m),
{
    let w7 = value_field(m.value);
    let w6 = crate::wire::implicit_uint64(6, m.nonce) + w7;
    let w5 = crate::wire::implicit_uint64(5, m.timestamp_ns) + w6;
    let w4 = crate::wire::implicit_bytes(4, m.service_provider) + w5;
    let w3 = crate::wire::implicit_bytes(3, m.data_service) + w4;
    let w2 = crate::wire::implicit_bytes(2, m.payer) + w3;
    let w1 = crate::wire::implicit_bytes(1, m.collection_id) + w2;
    assert(receipt_wire(m) == w1) by {
        lemma_nest_to_the_right(
            crate::wire::implicit_bytes(1, m.collection_id),
            crate::wire::implicit_bytes(2, m.payer),
            crate::wire::implicit_bytes(3, m.data_service),
            crate::wire::implicit_bytes(4, m.service_provider),
            crate::wire::implicit_uint64(5, m.timestamp_ns),
            crate::wire::implicit_uint64(6, m.nonce),
            w7,
        );
    }
    let m0 = empty_receipt();
    let m1 = m0.with_bytes(1, m.collection_id);
    let m2 = m1.with_bytes(2, m.payer);
    let m3 = m2.with_bytes(3, m.data_service);
    let m4 = m3.with_bytes(4, m.service_provider);
    let m5 = m4.with_uint64(5, m.timestamp_ns);
    let m6 = m5.with_uint64(6, m.nonce);
    lemma_receipt_merge_bytes(m0, 1, m.collection_id, w2, limit);
    lemma_receipt_merge_bytes(m1, 2, m.payer, w3, limit);
    lemma_receipt_merge_bytes(m2, 3, m.data_service, w4, limit);
    lemma_receipt_merge_bytes(m3, 4, m.service_provider, w5, limit);
    lemma_receipt_merge_uint64(m4, 5, m.timestamp_ns, w6, limit);
    lemma_receipt_merge_uint64(m5, 6, m.nonce, w7, limit);
    lemma_receipt_merge_value(m6, m.value, limit);
}

/// A [`ReceiptProto`] that was written is read back.
pub proof fn receipt_reads_back(m: ReceiptProtoView)
    requires
        m.fits(),
    ensures
        receipt_read(receipt_wire(m)) == Some(m),
{
    lemma_receipt_merge_wire(m, RECURSION_LIMIT as nat);
}

// ---------------------------------------------------------------------------------------------
// SignedReceiptProto
// ---------------------------------------------------------------------------------------------

/// `tap_aggregator.v2.SignedReceipt`.
#[derive(Clone, Debug, PartialEq, Eq)]
pub struct SignedReceiptProto {
    pub message: Option<ReceiptProto>,
    pub signature: Vec<u8>,
}

/// What a [`SignedReceiptProto`] holds.
pub struct SignedReceiptProtoView {
    pub message: Option<ReceiptProtoView>,
    pub signature: Seq<u8>,
}

impl View for SignedReceiptProto {
    type V = SignedReceiptProtoView;

    open spec fn view(&self) -> SignedReceiptProtoView {
        SignedReceiptProtoView {
            message: match self.message {
                Some(m) => Some(m@),
                None => None,
            },
            signature: self.signature@,
        }
    }
}

impl SignedReceiptProtoView {
    /// The lengths of the fields can be written down in 64 bits.
    pub open spec fn fits(self) -> bool {
        &&& self.signature.len() <= u64::MAX
        &&& self.message matches Some(m) ==> m.fits() && receipt_wire(m).len() <= u64::MAX
    }
}

/// The message in which no field is set.
pub open spec fn empty_signed_receipt() -> SignedReceiptProtoView {
    SignedReceiptProtoView { message: None, signature: seq![] }
}

impl Default for SignedReceiptProto {
    fn default() -> (r: Self)
        ensures
            r@ == empty_signed_receipt(),
    {
        SignedReceiptProto { message: None, signature: Vec::new() }
    }
}

/// The field that holds the receipt.
pub open spec fn message_field(message: Option<ReceiptProtoView>) -> Seq<u8> {
    match message {
        Some(m) => crate::wire::bytes_field(1, receipt_wire(m)),
        None => seq![],
    }
}

/// The wire form of a [`SignedReceiptProto`].
pub open spec fn signed_receipt_wire(m: SignedReceiptProtoView) -> Seq<u8> {
    message_field(m.message) + crate::wire::implicit_bytes(2, m.signature)
}

/// Reads a nested [`ReceiptProto`] into the one that is there, or into an empty one.
pub open spec fn read_nested_receipt(
    there: Option<ReceiptProtoView>,
    body: Seq<u8>,
    limit: nat,
) -> Option<ReceiptProtoView> {
    if limit == 0 {
        None
    } else {
        receipt_merge(
            match there {
                Some(m) => m,
                None => empty_receipt(),
            },
            body,
            (limit - 1) as nat,
        )
    }
}

/// Reads one field into a [`SignedReceiptProto`]; what follows the field comes back too.
pub open spec fn signed_receipt_step(
    acc: SignedReceiptProtoView,
    b: Seq<u8>,
    limit: nat,
) -> Option<(SignedReceiptProtoView, Seq<u8>)> {
    match crate::wire::read_key(b) {
        None => None,
        Some((tag, wire_type, after)) => if tag == 1 {
            match crate::wire::read_bytes(wire_type, after) {
                Some((body, rest)) => match read_nested_receipt(acc.message, body, limit) {
                    Some(m) => Some((SignedReceiptProtoView { message: Some(m), ..acc }, rest)),
                    None => None,
                },
                None => None,
            }
        } else if tag == 2 {
            match crate::wire::read_bytes(wire_type, after) {
                Some((value, rest)) => Some(
                    (SignedReceiptProtoView { signature: value, ..acc }, rest),
                ),
                None => None,
            }
        } else {
            match crate::wire::skip_unknown(tag, wire_type, after, limit) {
                Some(rest) => Some((acc, rest)),
                None => None,
            }
        },
    }
}

/// Reads fields into a [`SignedReceiptProto`] until the bytes are used up.
pub open spec fn signed_receipt_merge(
    acc: SignedReceiptProtoView,
    b: Seq<u8>,
    limit: nat,
) -> Option<SignedReceiptProtoView>
    decreases b.len(),
{
    if b.len() == 0 {
        Some(acc)
    } else {
        proof {
            lemma_signed_receipt_step_shrinks(acc, b, limit);
        }
        match signed_receipt_step(acc, b, limit) {
            Some((next, rest)) => signed_receipt_merge(next, rest, limit),
            None => None,
        }
    }
}

/// What a reader makes of bytes that should be a [`SignedReceiptProto`].
pub open spec fn signed_receipt_read(b: Seq<u8>) -> Option<SignedReceiptProtoView> {
    signed_receipt_merge(empty_signed_receipt(), b, RECURSION_LIMIT as nat)
}

/// Reading a field uses up bytes.
pub proof fn lemma_signed_receipt_step_shrinks(
    acc: SignedReceiptProtoView,
    b: Seq<u8>,
    limit: nat,
)
    ensures
        signed_receipt_step(acc, b, limit) matches Some((_, rest)) ==> rest.len() < b.len(),
{
    crate::wire::lemma_read_key_shrinks(b);
    if let Some((tag, wire_type, after)) = crate::wire::read_key(b) {
        crate::wire::lemma_read_bytes_shrinks(wire_type, after);
        crate::wire::lemma_skip_unknown_shrinks(tag, wire_type, after, limit);
    }
}

impl SignedReceiptProto {
    /// The message in its wire form.
    pub fn encode_to_vec(&self) -> (r: Vec<u8>)
        ensures
            r@ == signed_receipt_wire(self@),
    {
        let mut buf: Vec<u8> = Vec::new();
        match &self.message {
            Some(message) => put_bytes(1, &message.encode_to_vec(), &mut buf),
            None => {},
        }
        put_implicit_bytes(2, &self.signature, &mut buf);
        buf
    }

    /// Reads the message from its wire form.
    pub fn decode(buf: &[u8]) -> (r: Result<Self, MalformedMessage>)
        ensures
            match r {
                Ok(m) => signed_receipt_read(buf@) == Some(m@),
                Err(_) => signed_receipt_read(buf@) is None,
            },
    {
        let mut acc: SignedReceiptProto = SignedReceiptProto::default();
        let mut rest: &[u8] = buf;
        let limit: u32 = RECURSION_LIMIT;
        while rest.len() > 0
            invariant
                limit == RECURSION_LIMIT,
                signed_receipt_read(buf@) == signed_receipt_merge(acc@, rest@, limit as nat),
            decreases rest@.len(),
        {
            proof {
                lemma_signed_receipt_step_shrinks(acc@, rest@, limit as nat);
            }
            let (tag, wire_type, after) = match take_key(rest) {
                Some(key) => key,
                None => {
                    return Err(MalformedMessage);
                },
            };
            if tag == 1 {
                match take_bytes(wire_type, after) {
                    Some((body, next)) => {
                        let there: ReceiptProto = match acc.message.take() {
                            Some(m) => m,
                            None => ReceiptProto::default(),
                        };
                        match there.merge(body, limit - 1) {
                            Some(m) => {
                                acc.message = Some(m);
                            },
                            None => {
                                return Err(MalformedMessage);
                            },
                        }
                        rest = next;
                    },
                    None => {
                        return Err(MalformedMessage);
                    },
                }
            } else if tag == 2 {
                match take_bytes(wire_type, after) {
                    Some((value, next)) => {
                        acc.signature = slice_to_vec(value);
                        rest = next;
                    },
                    None => {
                        return Err(MalformedMessage);
                    },
                }
            } else {
                match pass_unknown(tag, wire_type, after, limit) {
                    Some(next) => {
                        rest = next;
                    },
                    None => {
                        return Err(MalformedMessage);
                    },
                }
            }
        }
        Ok(acc)
    }
}

/// A [`SignedReceiptProto`] that was written is read back.
pub proof fn signed_receipt_reads_back(m: SignedReceiptProtoView)
    requires
        m.fits(),
    ensures
        signed_receipt_read(signed_receipt_wire(m)) == Some(m),
{
    let limit = RECURSION_LIMIT as nat;
    let m0 = empty_signed_receipt();
    let m1 = SignedReceiptProtoView { message: m.message, ..m0 };
    let w2 = crate::wire::implicit_bytes(2, m.signature);
    assert(signed_receipt_merge(m1, w2, limit) == Some(m)) by {
        if m.signature.len() == 0 {
            assert(m.signature =~= seq![]);
        } else {
            crate::wire::lemma_bytes_field_read_back(2, m.signature, seq![]);
            assert(w2 + seq![] =~= w2);
            assert(signed_receipt_merge(m, seq![], limit) == Some(m));
        }
    }
    match m.message {
        Some(r) => {
            crate::wire::lemma_bytes_field_read_back(1, receipt_wire(r), w2);
            lemma_receipt_merge_wire(r, (limit - 1) as nat);
        },
        None => {
            assert(signed_receipt_wire(m) =~= w2);
        },
    }
}

proof fn lemma_field_len(tag: nat, value: u64, bytes: Seq<u8>)
    requires
        tag <= 7,
        bytes.len() <= u64::MAX,
    ensures
        crate::wire::implicit_uint64(tag, value).len() <= 20,
        crate::wire::bytes_field(tag, bytes).len() <= 20 + bytes.len(),
        crate::wire::implicit_bytes(tag, bytes).len() <= 20 + bytes.len(),
{
    crate::wire::lemma_varint_len(tag * 8 + crate::wire::WIRE_VARINT as nat);
    crate::wire::lemma_varint_len(tag * 8 + crate::wire::WIRE_LENGTH_DELIMITED as nat);
    crate::wire::lemma_varint_len(value as nat);
    crate::wire::lemma_varint_len(bytes.len());
}

/// The wire form of a receipt is not much longer than what the receipt holds.
pub proof fn lemma_receipt_wire_len(m: ReceiptProtoView)
    requires
        m.fits(),
    ensures
        receipt_wire(m).len() <= 180 + m.collection_id.len() + m.payer.len()
            + m.data_service.len() + m.service_provider.len(),
{
    lemma_field_len(1, 0, m.collection_id);
    lemma_field_len(2, 0, m.payer);
    lemma_field_len(3, 0, m.data_service);
    lemma_field_len(4, 0, m.service_provider);
    lemma_field_len(5, m.timestamp_ns, seq![]);
    lemma_field_len(6, m.nonce, seq![]);
    if let Some(v) = m.value {
        lemma_uint128_wire_len(v);
        lemma_field_len(7, 0, uint128_wire(v));
    }
}

/// The wire form of a signed receipt is not much longer than the receipt and the signature.
pub proof fn lemma_signed_receipt_wire_len(receipt: ReceiptProtoView, signature: Seq<u8>)
    requires
        receipt_wire(receipt).len() <= u64::MAX,
        signature.len() <= u64::MAX,
    ensures
        signed_receipt_wire(
            SignedReceiptProtoView { message: Some(receipt), signature },
        ).len() <= 40 + receipt_wire(receipt).len() + signature.len(),
{
    lemma_field_len(1, 0, receipt_wire(receipt));
    lemma_field_len(2, 0, signature);
}

} // verus!
