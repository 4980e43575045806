use prost::bytes::{Buf, BufMut};
use prost::encoding::{self, DecodeContext, WireType};
use prost::Message;
use tap_query::proto::{MalformedMessage, ReceiptProto, SignedReceiptProto, Uint128};

/// The messages as `prost` writes and reads them.
#[derive(Clone, Debug, Default, PartialEq)]
struct Halves {
    high: u64,
    low: u64,
}

impl Message for Halves {
    fn encode_raw(&self, buf: &mut impl BufMut) {
        if self.high != 0 {
            encoding::uint64::encode(1, &self.high, buf);
        }
        if self.low != 0 {
            encoding::uint64::encode(2, &self.low, buf);
        }
    }

    fn merge_field(
        &mut self,
        tag: u32,
        wire_type: WireType,
        buf: &mut impl Buf,
        ctx: DecodeContext,
    ) -> Result<(), prost::DecodeError> {
        match tag {
            1 => encoding::uint64::merge(wire_type, &mut self.high, buf, ctx),
            2 => encoding::uint64::merge(wire_type, &mut self.low, buf, ctx),
            _ => encoding::skip_field(wire_type, tag, buf, ctx),
        }
    }

    fn encoded_len(&self) -> usize {
        let mut n = 0;
        if self.high != 0 {
            n += encoding::uint64::encoded_len(1, &self.high);
        }
        if self.low != 0 {
            n += encoding::uint64::encoded_len(2, &self.low);
        }
        n
    }

    fn clear(&mut self) {
        *self = Halves::default();
    }
}

#[derive(Clone, Debug, Default, PartialEq)]
struct Inner {
    bytes: [Vec<u8>; 4],
    timestamp_ns: u64,
    nonce: u64,
    value: Option<Halves>,
}

impl Message for Inner {
    fn encode_raw(&self, buf: &mut impl BufMut) {
        for (i, b) in self.bytes.iter().enumerate() {
            if !b.is_empty() {
                encoding::bytes::encode(i as u32 + 1, b, buf);
            }
        }
        if self.timestamp_ns != 0 {
            encoding::uint64::encode(5, &self.timestamp_ns, buf);
        }
        if self.nonce != 0 {
            encoding::uint64::encode(6, &self.nonce, buf);
        }
        if let Some(v) = &self.value {
            encoding::message::encode(7, v, buf);
        }
    }

    fn merge_field(
        &mut self,
        tag: u32,
        wire_type: WireType,
        buf: &mut impl Buf,
        ctx: DecodeContext,
    ) -> Result<(), prost::DecodeError> {
        match tag {
            1..=4 => encoding::bytes::merge(wire_type, &mut self.bytes[tag as usize - 1], buf, ctx),
            5 => encoding::uint64::merge(wire_type, &mut self.timestamp_ns, buf, ctx),
            6 => encoding::uint64::merge(wire_type, &mut self.nonce, buf, ctx),
            7 => encoding::message::merge(
                wire_type,
                self.value.get_or_insert_with(Halves::default),
                buf,
                ctx,
            ),
            _ => encoding::skip_field(wire_type, tag, buf, ctx),
        }
    }

    fn encoded_len(&self) -> usize {
        let mut n = 0;
        for (i, b) in self.bytes.iter().enumerate() {
            if !b.is_empty() {
                n += encoding::bytes::encoded_len(i as u32 + 1, b);
            }
        }
        if self.timestamp_ns != 0 {
            n += encoding::uint64::encoded_len(5, &self.timestamp_ns);
        }
        if self.nonce != 0 {
            n += encoding::uint64::encoded_len(6, &self.nonce);
        }
        if let Some(v) = &self.value {
            n += encoding::message::encoded_len(7, v);
        }
        n
    }

    fn clear(&mut self) {
        *self = Inner::default();
    }
}

#[derive(Clone, Debug, Default, PartialEq)]
struct Outer {
    message: Option<Inner>,
    signature: Vec<u8>,
}

impl Message for Outer {
    fn encode_raw(&self, buf: &mut impl BufMut) {
        if let Some(m) = &self.message {
            encoding::message::encode(1, m, buf);
        }
        if !self.signature.is_empty() {
            encoding::bytes::encode(2, &self.signature, buf);
        }
    }

    fn merge_field(
        &mut self,
        tag: u32,
        wire_type: WireType,
        buf: &mut impl Buf,
        ctx: DecodeContext,
    ) -> Result<(), prost::DecodeError> {
        match tag {
            1 => encoding::message::merge(
                wire_type,
                self.message.get_or_insert_with(Inner::default),
                buf,
                ctx,
            ),
            2 => encoding::bytes::merge(wire_type, &mut self.signature, buf, ctx),
            _ => encoding::skip_field(wire_type, tag, buf, ctx),
        }
    }

    fn encoded_len(&self) -> usize {
        let mut n = 0;
        if let Some(m) = &self.message {
            n += encoding::message::encoded_len(1, m);
        }
        if !self.signature.is_empty() {
            n += encoding::bytes::encoded_len(2, &self.signature);
        }
        n
    }

    fn clear(&mut self) {
        *self = Outer::default();
    }
}

fn as_outer(m: &SignedReceiptProto) -> Outer {
    Outer { message: m.message.as_ref().map(as_inner), signature: m.signature.clone() }
}

fn as_inner(r: &ReceiptProto) -> Inner {
    Inner {
        bytes: [
            r.collection_id.clone(),
            r.payer.clone(),
            r.data_service.clone(),
            r.service_provider.clone(),
        ],
        timestamp_ns: r.timestamp_ns,
        nonce: r.nonce,
        value: r.value.as_ref().map(|v| Halves { high: v.high, low: v.low }),
    }
}

/// Both readers agree on the bytes, as a signed receipt, as a receipt and as a number.
fn agree(bytes: &[u8]) {
    match (SignedReceiptProto::decode(bytes), Outer::decode(bytes)) {
        (Ok(ours), Ok(theirs)) => assert_eq!(as_outer(&ours), theirs),
        (ours, theirs) => assert_eq!(ours.is_err(), theirs.is_err(), "{:?}", bytes),
    }
    match (ReceiptProto::decode(bytes), Inner::decode(bytes)) {
        (Ok(ours), Ok(theirs)) => assert_eq!(as_inner(&ours), theirs),
        (ours, theirs) => assert_eq!(ours.is_err(), theirs.is_err(), "{:?}", bytes),
    }
    match (Uint128::decode(bytes), Halves::decode(bytes)) {
        (Ok(ours), Ok(theirs)) => assert_eq!((ours.high, ours.low), (theirs.high, theirs.low)),
        (ours, theirs) => assert_eq!(ours.is_err(), theirs.is_err(), "{:?}", bytes),
    }
}

fn receipt() -> ReceiptProto {
    ReceiptProto {
        collection_id: vec![1u8; 32],
        payer: vec![2u8; 20],
        data_service: vec![3u8; 20],
        service_provider: vec![4u8; 20],
        timestamp_ns: 1_700_000_000_123_456_789,
        nonce: u64::MAX,
        value: Some(Uint128 { high: 1, low: 2 }),
    }
}

fn signed() -> SignedReceiptProto {
    SignedReceiptProto { message: Some(receipt()), signature: vec![9u8; 65] }
}

#[test]
fn wide_numbers_are_split_and_joined() {
    let v = (3u128 << 64) | 5;
    assert_eq!(Uint128::from(v), Uint128 { high: 3, low: 5 });
    assert_eq!(Uint128::from(u128::MAX), Uint128 { high: u64::MAX, low: u64::MAX });
    for v in [0u128, 1, u64::MAX as u128, 1 << 64, u128::MAX] {
        assert_eq!(Uint128::from(v).to_u128(), v);
    }
}

#[test]
fn exact_bytes() {
    assert_eq!(Uint128 { high: 0, low: 300 }.encode_to_vec(), vec![0x10, 0xac, 0x02]);
    assert_eq!(
        Uint128 { high: 1, low: 127 }.encode_to_vec(),
        vec![0x08, 0x01, 0x10, 0x7f]
    );
    let mut r = ReceiptProto::default();
    assert_eq!(r.encode_to_vec(), Vec::<u8>::new());
    r.payer = vec![0xaa, 0xbb];
    r.nonce = 1;
    r.value = Some(Uint128::default());
    assert_eq!(
        r.encode_to_vec(),
        vec![0x12, 0x02, 0xaa, 0xbb, 0x30, 0x01, 0x3a, 0x00]
    );
    let m = SignedReceiptProto { message: Some(r), signature: vec![7] };
    assert_eq!(
        m.encode_to_vec(),
        vec![0x0a, 0x08, 0x12, 0x02, 0xaa, 0xbb, 0x30, 0x01, 0x3a, 0x00, 0x12, 0x01, 0x07]
    );
}

#[test]
fn written_messages_are_read_back() {
    let m = signed();
    assert_eq!(SignedReceiptProto::decode(&m.encode_to_vec()), Ok(m.clone()));
    assert_eq!(ReceiptProto::decode(&receipt().encode_to_vec()), Ok(receipt()));
    let v = Uint128 { high: u64::MAX, low: 0 };
    assert_eq!(Uint128::decode(&v.encode_to_vec()), Ok(v));
    let empty = SignedReceiptProto::default();
    assert_eq!(SignedReceiptProto::decode(&empty.encode_to_vec()), Ok(empty));
    let hollow =
        SignedReceiptProto { message: Some(ReceiptProto::default()), signature: Vec::new() };
    assert_eq!(SignedReceiptProto::decode(&hollow.encode_to_vec()), Ok(hollow));
}

#[test]
fn written_bytes_agree() {
    for v in [0u64, 1, 127, 128, 16383, 16384, u32::MAX as u64, 1 << 63, u64::MAX] {
        let mut m = signed();
        if let Some(r) = m.message.as_mut() {
            r.timestamp_ns = v;
            r.nonce = v;
            r.value = Some(Uint128 { high: v, low: v });
        }
        m.signature = vec![1u8; (v % 300) as usize];
        assert_eq!(m.encode_to_vec(), as_outer(&m).encode_to_vec());
        agree(&m.encode_to_vec());
    }
}

#[test]
fn cut_messages_agree() {
    let bytes = signed().encode_to_vec();
    for n in 0..bytes.len() {
        agree(&bytes[..n]);
        agree(&bytes[n..]);
    }
}

#[test]
fn changed_messages_agree() {
    let bytes = signed().encode_to_vec();
    for n in 0..bytes.len() {
        for x in [0u8, 1, 2, 3, 4, 5, 8, 0x0a, 0x0b, 0x0c, 0x12, 0x3a, 0x7f, 0x80, 0xff] {
            let mut changed = bytes.clone();
            changed[n] = x;
            agree(&changed);
        }
    }
}

#[test]
fn short_messages_agree() {
    for a in 0..=255u8 {
        agree(&[a]);
        for b in 0..=255u8 {
            agree(&[a, b]);
            agree(&[0x0a, 0x02, a, b]);
            agree(&[a, 0x01, b]);
        }
    }
}

#[test]
fn unknown_fields_are_passed_over() {
    let mut bytes = vec![
        0x78, 0x96, 0x01, // field 15, an integer
        0x79, 1, 2, 3, 4, 5, 6, 7, 8, // field 15, eight bytes
        0x7a, 0x02, 0xff, 0xff, // field 15, bytes
        0x7b, 0x08, 0x01, 0x83, 0x01, 0x84, 0x01, 0x7c, // field 15, a group with a group in it
        0x7d, 1, 2, 3, 4, // field 15, four bytes
    ];
    bytes.extend(signed().encode_to_vec());
    agree(&bytes);
    assert_eq!(SignedReceiptProto::decode(&bytes), Ok(signed()));
}

#[test]
fn groups_have_to_match_and_not_to_nest_too_deep() {
    agree(&[0x7b, 0x7c]);
    agree(&[0x7b, 0x84, 0x01]);
    agree(&[0x7c]);
    agree(&[0x7b]);
    for depth in [1usize, 98, 99, 100, 101, 102, 150] {
        let mut bytes = vec![0x7bu8; depth];
        bytes.extend(vec![0x7cu8; depth]);
        agree(&bytes);
        let mut nested = vec![0x0a];
        encoding::encode_varint(bytes.len() as u64, &mut nested);
        nested.extend(&bytes);
        agree(&nested);
    }
}

#[test]
fn repeated_fields_merge() {
    let bytes = [
        0x0a, 0x04, 0x12, 0x02, 0xaa, 0xbb, // a receipt with a payer
        0x12, 0x01, 0x01, // a signature
        0x0a, 0x02, 0x30, 0x05, // a receipt with a nonce
        0x12, 0x02, 0x02, 0x03, // another signature
    ];
    agree(&bytes);
    let m = SignedReceiptProto::decode(&bytes).unwrap();
    assert_eq!(m.signature, vec![2, 3]);
    let r = m.message.unwrap();
    assert_eq!(r.payer, vec![0xaa, 0xbb]);
    assert_eq!(r.nonce, 5);
}

#[test]
fn malformed_messages_are_refused() {
    assert_eq!(SignedReceiptProto::decode(&[0x0a, 0x05, 0x01]), Err(MalformedMessage));
    assert_eq!(ReceiptProto::decode(&[0x2a, 0x01, 0x00]), Err(MalformedMessage));
    assert_eq!(Uint128::decode(&[0x08]), Err(MalformedMessage));
    let long = [0x08, 0xff, 0xff, 0xff, 0xff, 0xff, 0xff, 0xff, 0xff, 0xff, 0x02];
    assert_eq!(Uint128::decode(&long), Err(MalformedMessage));
    agree(&long);
}
