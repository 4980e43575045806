//! Signing a TAP v2 receipt and encoding it for the `tap-receipt` header.
//!
//! ## The wire format, and why it is spelled out here
//!
//! An indexer base64-decodes the header and then protobuf-decodes it. Not JSON. A JSON receipt
//! decodes to nothing recognisable and the request is treated as unpaid: a `402` that looks
//! exactly like an empty escrow account, which is a genuinely expensive thing to debug.
use std::borrow::Cow;
use std::time::SystemTimeError;

use thegraph_core::alloy::sol_types::SolStruct;
use vstd::prelude::*;

use crate::clock::{nanos_since_epoch, timestamp_from_nanos};
use crate::domain::Eip712Domain;
use crate::header::encode_header;
use crate::primitives::{Address, FixedBytes};
use crate::signer::PrivateKeySigner;

pub use crate::proto::{ReceiptProto, SignedReceiptProto, Uint128};

verus! {

/// The parts of a receipt a caller chooses. Timestamp and nonce are generated per receipt.
#[derive(Debug, Clone, Copy)]
pub struct ReceiptParams {
    /// Allocation address left-padded to 32 bytes. See `collection_id_from_allocation`.
    pub collection_id: FixedBytes<32>,
    /// The escrow account paying. Must match the signer, since the indexer recovers it.
    pub payer: Address,
    /// The `SubgraphService` contract.
    pub data_service: Address,
    /// The indexer being paid.
    pub service_provider: Address,
    /// Smallest unit of the escrow token. Must clear the indexer's cost model.
    pub value: u128,
}

/// What [`ReceiptParams`] hold.
pub struct ParamsView {
    pub collection_id: Seq<u8>,
    pub payer: Seq<u8>,
    pub data_service: Seq<u8>,
    pub service_provider: Seq<u8>,
    pub value: u128,
}

impl View for ReceiptParams {
    type V = ParamsView;

    open spec fn view(&self) -> ParamsView {
        ParamsView {
            collection_id: self.collection_id@,
            payer: self.payer@,
            data_service: self.data_service@,
            service_provider: self.service_provider@,
            value: self.value,
        }
    }
}

impl ParamsView {
    /// The identifier has 32 bytes and the addresses have 20.
    pub open spec fn well_formed(self) -> bool {
        &&& self.collection_id.len() == 32
        &&& self.payer.len() == 20
        &&& self.data_service.len() == 20
        &&& self.service_provider.len() == 20
    }
}

/// A receipt: what is signed.
#[derive(Debug, Clone, Copy, PartialEq, Eq)]
pub struct Receipt {
    pub collection_id: FixedBytes<32>,
    pub payer: Address,
    pub data_service: Address,
    pub service_provider: Address,
    pub timestamp_ns: u64,
    pub nonce: u64,
    pub value: u128,
}

/// What a [`Receipt`] holds.
pub struct ReceiptView {
    pub collection_id: Seq<u8>,
    pub payer: Seq<u8>,
    pub data_service: Seq<u8>,
    pub service_provider: Seq<u8>,
    pub timestamp_ns: u64,
    pub nonce: u64,
    pub value: u128,
}

impl View for Receipt {
    type V = ReceiptView;

    open spec fn view(&self) -> ReceiptView {
        ReceiptView {
            collection_id: self.collection_id@,
            payer: self.payer@,
            data_service: self.data_service@,
            service_provider: self.service_provider@,
            timestamp_ns: self.timestamp_ns,
            nonce: self.nonce,
            value: self.value,
        }
    }
}

impl ReceiptView {
    /// The identifier has 32 bytes and the addresses have 20.
    pub open spec fn well_formed(self) -> bool {
        &&& self.collection_id.len() == 32
        &&& self.payer.len() == 20
        &&& self.data_service.len() == 20
        &&& self.service_provider.len() == 20
    }
}

/// The first eight bytes as an integer, the least significant byte first.
pub open spec fn first_eight_bytes(b: Seq<u8>) -> u64 {
    (b[0] + b[1] * 0x100 + b[2] * 0x1_0000 + b[3] * 0x100_0000 + b[4] * 0x1_0000_0000 + b[5]
        * 0x100_0000_0000 + b[6] * 0x1_0000_0000_0000 + b[7] * 0x100_0000_0000_0000) as u64
}

/// A timestamp rotated left by 17 bits.
pub open spec fn rotated(timestamp_ns: u64) -> u64 {
    (timestamp_ns << 17) | (timestamp_ns >> 47)
}

/// The nonce of a receipt to a service provider at a time.
pub open spec fn nonce_at(timestamp_ns: u64, service_provider: Seq<u8>) -> u64 {
    rotated(timestamp_ns) ^ first_eight_bytes(service_provider)
}

/// The receipt that is written for some parameters at a time.
pub open spec fn receipt_at(params: ParamsView, timestamp_ns: u64) -> ReceiptView {
    ReceiptView {
        collection_id: params.collection_id,
        payer: params.payer,
        data_service: params.data_service,
        service_provider: params.service_provider,
        timestamp_ns,
        nonce: nonce_at(timestamp_ns, params.service_provider),
        value: params.value,
    }
}

/// The message that carries a receipt.
pub open spec fn receipt_message(receipt: ReceiptView) -> crate::proto::ReceiptProtoView {
    crate::proto::ReceiptProtoView {
        collection_id: receipt.collection_id,
        payer: receipt.payer,
        data_service: receipt.data_service,
        service_provider: receipt.service_provider,
        timestamp_ns: receipt.timestamp_ns,
        nonce: receipt.nonce,
        value: Some(Uint128::split(receipt.value)),
    }
}

/// The message that carries a receipt and its signature.
pub open spec fn signed_message(
    receipt: ReceiptView,
    signature: Seq<u8>,
) -> crate::proto::SignedReceiptProtoView {
    crate::proto::SignedReceiptProtoView { message: Some(receipt_message(receipt)), signature }
}

/// The header that carries a receipt and its signature: base64 over protobuf.
pub open spec fn header_text(receipt: ReceiptView, signature: Seq<u8>) -> Seq<char> {
    crate::header::base64_text(
        crate::proto::signed_receipt_wire(signed_message(receipt, signature)),
    )
}

/// The EIP-712 hash of a receipt under a domain.
pub uninterp spec fn receipt_hash(
    domain: crate::domain::DomainView,
    receipt: ReceiptView,
) -> Seq<u8>;

/// Whether a header carries the receipt for some parameters at a time, signed with a key under a
/// domain.
///
/// The signature recovers to the key, and over no hash of another scalar, wherever the recovery id
/// says that no x-coordinate was reduced.
pub open spec fn signs_to(
    key: Seq<u8>,
    domain: crate::domain::DomainView,
    params: ParamsView,
    timestamp_ns: u64,
    header: Seq<char>,
) -> bool {
    let receipt = receipt_at(params, timestamp_ns);
    let hash = receipt_hash(domain, receipt);
    crate::signer::ecdsa_signature(key, hash) matches Some((rs, recovery_id)) && {
        &&& crate::signer::well_signed(key, hash, rs, recovery_id)
        &&& header == header_text(receipt, crate::signer::signature_bytes(rs, recovery_id))
    }
}

/// The EIP-712 hash of a receipt under a domain.
///
/// `eip712_signing_hash` of `alloy` on `tap_graph::v2::Receipt`, the canonical definition of the
/// struct, so that the type hash is the one that the indexer verifies against. The hash depends on
/// the fields of the domain and of the receipt alone.
#[verifier::external_body]
fn signing_hash(domain: &Eip712Domain, receipt: &Receipt) -> (r: FixedBytes<32>)
    ensures
        r@ == receipt_hash(domain@, receipt@),
{
    let domain = thegraph_core::alloy::sol_types::Eip712Domain::new(
        domain.name.clone().map(Cow::Owned), domain.version.clone().map(Cow::Owned),
        domain.chain_id.map(|n| thegraph_core::alloy::primitives::U256::from_limbs(n.limbs)),
        domain.verifying_contract.map(|a| a.0.into()), domain.salt.map(|b| b.0.into()),
    );
    let receipt = tap_graph::v2::Receipt {
        collection_id: receipt.collection_id.0.into(),
        payer: receipt.payer.0.into(),
        data_service: receipt.data_service.0.into(),
        service_provider: receipt.service_provider.0.into(),
        timestamp_ns: receipt.timestamp_ns,
        nonce: receipt.nonce,
        value: receipt.value,
    };
    FixedBytes(receipt.eip712_signing_hash(&domain).0)
}

/// The EIP-712 hash of a receipt under a domain, which is what is signed.
pub fn receipt_signing_hash(domain: &Eip712Domain, receipt: &Receipt) -> (r: FixedBytes<32>)
    ensures
        r@ == receipt_hash(domain@, receipt@),
        r@.len() == 32,
{
    signing_hash(domain, receipt)
}

/// The nonce of a receipt.
///
/// It exists to make otherwise-identical receipts distinct. It is derived from the time and the
/// first eight bytes of the provider's address: two probes in the same nanosecond have different
/// nonces where these bytes differ, and the same nonce where they do not.
pub fn receipt_nonce(timestamp_ns: u64, service_provider: &Address) -> (r: u64)
    ensures
        r == nonce_at(timestamp_ns, service_provider@),
        ({
            let p = service_provider.0@;
            r == ((timestamp_ns << 17) | (timestamp_ns >> 47)) ^ ((p[0] + p[1] * 0x100 + p[2]
                * 0x1_0000 + p[3] * 0x100_0000 + p[4] * 0x1_0000_0000 + p[5] * 0x100_0000_0000
                + p[6] * 0x1_0000_0000_0000 + p[7] * 0x100_0000_0000_0000) as u64)
        }),
{
    let b: [u8; 20] = service_provider.0;
    let low: u64 = b[0] as u64 + b[1] as u64 * 0x100 + b[2] as u64 * 0x1_0000 + b[3] as u64
        * 0x100_0000;
    let high: u64 = b[4] as u64 + b[5] as u64 * 0x100 + b[6] as u64 * 0x1_0000 + b[7] as u64
        * 0x100_0000;
    ((timestamp_ns << 17) | (timestamp_ns >> 47)) ^ (low + high * 0x1_0000_0000)
}

impl ReceiptParams {
    /// The receipt for these parameters at a time.
    pub fn at(&self, timestamp_ns: u64) -> (r: Receipt)
        ensures
            r@ == receipt_at(self@, timestamp_ns),
            r.collection_id == self.collection_id,
            r.payer == self.payer,
            r.data_service == self.data_service,
            r.service_provider == self.service_provider,
            r.timestamp_ns == timestamp_ns,
            r.value == self.value,
            ({
                let p = self.service_provider.0@;
                r.nonce == ((timestamp_ns << 17) | (timestamp_ns >> 47)) ^ ((p[0] + p[1] * 0x100
                    + p[2] * 0x1_0000 + p[3] * 0x100_0000 + p[4] * 0x1_0000_0000 + p[5]
                    * 0x100_0000_0000 + p[6] * 0x1_0000_0000_0000 + p[7]
                    * 0x100_0000_0000_0000) as u64)
            }),
    {
        Receipt {
            collection_id: self.collection_id,
            payer: self.payer,
            data_service: self.data_service,
            service_provider: self.service_provider,
            timestamp_ns,
            nonce: receipt_nonce(timestamp_ns, &self.service_provider),
            value: self.value,
        }
    }
}

impl Receipt {
    /// The message that carries this receipt and a signature.
    pub fn signed(&self, signature: &[u8; 65]) -> (r: SignedReceiptProto)
        ensures
            r@ == signed_message(self@, signature@),
            r.signature@ == signature@,
            r.message matches Some(m) && {
                &&& m.collection_id@ == self.collection_id.0@
                &&& m.payer@ == self.payer.0@
                &&& m.data_service@ == self.data_service.0@
                &&& m.service_provider@ == self.service_provider.0@
                &&& m.timestamp_ns == self.timestamp_ns
                &&& m.nonce == self.nonce
                &&& m.value matches Some(v)
                &&& v.high == self.value / 0x1_0000_0000_0000_0000
                &&& v.low == self.value % 0x1_0000_0000_0000_0000
            },
    {
        SignedReceiptProto {
            message: Some(
                ReceiptProto {
                    collection_id: self.collection_id.to_vec(),
                    payer: self.payer.to_vec(),
                    data_service: self.data_service.to_vec(),
                    service_provider: self.service_provider.to_vec(),
                    timestamp_ns: self.timestamp_ns,
                    nonce: self.nonce,
                    value: Some(Uint128::from(self.value)),
                },
            ),
            signature: vstd::slice::slice_to_vec(signature.as_slice()),
        }
    }

    /// The `tap-receipt` header value that carries this receipt and a signature.
    pub fn header(&self, signature: &[u8; 65]) -> (r: String)
        ensures
            r@ == header_text(self@, signature@),
    {
        let message: SignedReceiptProto = self.signed(signature);
        proof {
            crate::proto::lemma_receipt_wire_len(receipt_message(self@));
            crate::proto::lemma_signed_receipt_wire_len(receipt_message(self@), signature@);
        }
        encode_header(&message.encode_to_vec())
    }
}

/// Why a receipt could not be signed, and what lies behind that.
#[derive(Debug)]
pub enum SignError {
    /// The clock stands before the unix epoch.
    ClockBeforeEpoch { cause: SystemTimeError },
    /// The hash of the receipt could not be signed.
    SigningFailed { cause: thegraph_core::alloy::signers::Error },
}

impl SignError {
    /// The error in words.
    pub open spec fn words(self) -> Seq<char> {
        match self {
            SignError::ClockBeforeEpoch { .. } => "system clock is before the unix epoch"@,
            SignError::SigningFailed { .. } => "failed to sign the receipt hash"@,
        }
    }

    /// The error in words.
    pub fn message(&self) -> (r: &'static str)
        ensures
            r@ == self.words(),
    {
        match self {
            SignError::ClockBeforeEpoch { .. } => "system clock is before the unix epoch",
            SignError::SigningFailed { .. } => "failed to sign the receipt hash",
        }
    }
}

impl Receipt {
    /// The header value for what came of signing this receipt: the error of the signer is kept.
    pub fn header_of(
        &self,
        signed: Result<[u8; 65], thegraph_core::alloy::signers::Error>,
    ) -> (r: Result<String, SignError>)
        ensures
            match (signed, r) {
                (Ok(signature), Ok(header)) => header@ == header_text(self@, signature@),
                (Err(e), Err(SignError::SigningFailed { cause })) => cause == e,
                _ => false,
            },
    {
        match signed {
            Ok(signature) => Ok(self.header(&signature)),
            Err(cause) => Err(SignError::SigningFailed { cause }),
        }
    }
}

/// Whether the receipt for some parameters at a time has no signature, with this error: it keeps
/// the error of the signer on the hash of that receipt.
pub open spec fn signing_fails(
    key: Seq<u8>,
    domain: crate::domain::DomainView,
    params: ParamsView,
    timestamp_ns: u64,
    e: SignError,
) -> bool {
    let hash = receipt_hash(domain, receipt_at(params, timestamp_ns));
    &&& crate::signer::ecdsa_signature(key, hash) is None
    &&& e == (SignError::SigningFailed { cause: crate::signer::signing_error(key, hash) })
}

/// Signs the receipt for some parameters at a time, and returns the header value.
pub fn sign_receipt_at(
    signer: &PrivateKeySigner,
    domain: &Eip712Domain,
    params: &ReceiptParams,
    timestamp_ns: u64,
) -> (r: Result<String, SignError>)
    ensures
        match r {
            Ok(header) => signs_to(signer@, domain@, params@, timestamp_ns, header@),
            Err(e) => signing_fails(signer@, domain@, params@, timestamp_ns, e),
        },
{
    let receipt: Receipt = params.at(timestamp_ns);
    receipt.header_of(signer.sign_hash_sync(&receipt_signing_hash(domain, &receipt)))
}

/// Whether a result is what comes of signing the receipt for some parameters at a reading of the
/// clock: so many nanoseconds since the unix epoch, or the error that it stands before the epoch,
/// which is then kept.
pub open spec fn signing_outcome(
    key: Seq<u8>,
    domain: crate::domain::DomainView,
    params: ParamsView,
    reading: Result<u128, SystemTimeError>,
    r: Result<String, SignError>,
) -> bool {
    match reading {
        Ok(n) => {
            let timestamp_ns = crate::clock::timestamp_of(n);
            match r {
                Ok(header) => signs_to(key, domain, params, timestamp_ns, header@),
                Err(e) => signing_fails(key, domain, params, timestamp_ns, e),
            }
        },
        Err(cause) => r matches Err(e) && e == (SignError::ClockBeforeEpoch { cause }),
    }
}

/// Signs the receipt for some parameters at a reading of the clock: so many nanoseconds since the
/// unix epoch, or the error that it stands before the epoch.
pub fn sign_receipt_by_clock(
    signer: &PrivateKeySigner,
    domain: &Eip712Domain,
    params: &ReceiptParams,
    reading: Result<u128, SystemTimeError>,
) -> (r: Result<String, SignError>)
    ensures
        signing_outcome(signer@, domain@, params@, reading, r),
{
    match reading {
        Ok(n) => sign_receipt_at(signer, domain, params, timestamp_from_nanos(n)),
        Err(cause) => Err(SignError::ClockBeforeEpoch { cause }),
    }
}

/// Sign a receipt and return the ready-to-send `tap-receipt` header value.
///
/// The result is that of [`sign_receipt_by_clock`] at a reading that the clock gave. Two calls at different readings give different headers; two calls on the same
/// arguments within one nanosecond give the same one.
pub fn sign_receipt(
    signer: &PrivateKeySigner,
    domain: &Eip712Domain,
    params: ReceiptParams,
) -> (r: Result<String, SignError>)
    ensures
        exists|reading: Result<u128, SystemTimeError>|
            crate::clock::clock_shows(reading) && #[trigger] signing_outcome(
                signer@,
                domain@,
                params@,
                reading,
                r,
            ),
{
    sign_receipt_by_clock(signer, domain, &params, nanos_since_epoch())
}

/// Two times give two nonces to one provider.
pub proof fn nonces_differ_by_time(timestamp_ns: u64, other: u64, service_provider: Seq<u8>)
    requires
        timestamp_ns != other,
    ensures
        nonce_at(timestamp_ns, service_provider) != nonce_at(other, service_provider),
{
    let a = timestamp_ns;
    let c = first_eight_bytes(service_provider);
    assert(((a << 17) | (a >> 47)) ^ c == ((other << 17) | (other >> 47)) ^ c ==> a == other)
        by (bit_vector);
}

proof fn lemma_low_byte(x: int, p: int, y: int, q: int)
    requires
        0 <= x < 0x100,
        0 <= y < 0x100,
        x + 0x100 * p == y + 0x100 * q,
    ensures
        x == y,
        p == q,
{
}

proof fn lemma_first_eight_bytes_injective(a: Seq<u8>, b: Seq<u8>)
    requires
        a.len() >= 8,
        b.len() >= 8,
        first_eight_bytes(a) == first_eight_bytes(b),
    ensures
        a.take(8) == b.take(8),
{
    let a6 = a[6] + 0x100 * a[7];
    let b6 = b[6] + 0x100 * b[7];
    let a5 = a[5] + 0x100 * a6;
    let b5 = b[5] + 0x100 * b6;
    let a4 = a[4] + 0x100 * a5;
    let b4 = b[4] + 0x100 * b5;
    let a3 = a[3] + 0x100 * a4;
    let b3 = b[3] + 0x100 * b4;
    let a2 = a[2] + 0x100 * a3;
    let b2 = b[2] + 0x100 * b3;
    let a1 = a[1] + 0x100 * a2;
    let b1 = b[1] + 0x100 * b2;
    assert(first_eight_bytes(a) == a[0] + 0x100 * a1);
    assert(first_eight_bytes(b) == b[0] + 0x100 * b1);
    lemma_low_byte(a[0] as int, a1, b[0] as int, b1);
    lemma_low_byte(a[1] as int, a2, b[1] as int, b2);
    lemma_low_byte(a[2] as int, a3, b[2] as int, b3);
    lemma_low_byte(a[3] as int, a4, b[3] as int, b4);
    lemma_low_byte(a[4] as int, a5, b[4] as int, b5);
    lemma_low_byte(a[5] as int, a6, b[5] as int, b6);
    lemma_low_byte(a[6] as int, a[7] as int, b[6] as int, b[7] as int);
    assert(a.take(8) =~= b.take(8));
}

/// At one time, two providers whose addresses differ in the first eight bytes get two nonces.
pub proof fn nonces_differ_by_provider(timestamp_ns: u64, a: Seq<u8>, b: Seq<u8>)
    requires
        a.len() == 20,
        b.len() == 20,
        a.take(8) != b.take(8),
    ensures
        nonce_at(timestamp_ns, a) != nonce_at(timestamp_ns, b),
{
    let t = rotated(timestamp_ns);
    let x = first_eight_bytes(a);
    let y = first_eight_bytes(b);
    assert(t ^ x == t ^ y ==> x == y) by (bit_vector);
    if x == y {
        lemma_first_eight_bytes_injective(a, b);
    }
}

/// What a header carries is what is read from it: the receipt and its signature.
pub proof fn header_reads_back(receipt: ReceiptView, signature: Seq<u8>, bytes: Seq<u8>)
    requires
        receipt.well_formed(),
        signature.len() == 65,
        crate::header::base64_text(bytes) == header_text(receipt, signature),
    ensures
        crate::proto::signed_receipt_read(bytes) == Some(signed_message(receipt, signature)),
{
    let m = signed_message(receipt, signature);
    crate::header::base64_is_injective(bytes, crate::proto::signed_receipt_wire(m));
    crate::proto::lemma_receipt_wire_len(receipt_message(receipt));
    crate::proto::signed_receipt_reads_back(m);
}

/// A header that was signed for some parameters at a time is base64 over protobuf: it reads back
/// as the receipt for these parameters at this time, with a signature of 65 bytes.
pub proof fn signed_header_reads_back(
    key: Seq<u8>,
    domain: crate::domain::DomainView,
    params: ParamsView,
    timestamp_ns: u64,
    header: Seq<char>,
    bytes: Seq<u8>,
)
    requires
        params.well_formed(),
        signs_to(key, domain, params, timestamp_ns, header),
        crate::header::base64_text(bytes) == header,
    ensures
        crate::proto::signed_receipt_read(bytes) matches Some(m) && m.message == Some(
            receipt_message(receipt_at(params, timestamp_ns)),
        ) && m.signature.len() == 65,
{
    let receipt = receipt_at(params, timestamp_ns);
    let (rs, recovery_id) = crate::signer::ecdsa_signature(key, receipt_hash(domain, receipt))->0;
    header_reads_back(receipt, crate::signer::signature_bytes(rs, recovery_id), bytes);
}

/// No header serves for two receipts: two times, or two sets of parameters, never share one,
/// whatever the keys and the domains.
pub proof fn headers_are_unique(
    key: Seq<u8>,
    domain: crate::domain::DomainView,
    params: ParamsView,
    timestamp_ns: u64,
    other_key: Seq<u8>,
    other_domain: crate::domain::DomainView,
    other_params: ParamsView,
    other_timestamp_ns: u64,
    header: Seq<char>,
)
    requires
        params.well_formed(),
        other_params.well_formed(),
        signs_to(key, domain, params, timestamp_ns, header),
        signs_to(other_key, other_domain, other_params, other_timestamp_ns, header),
    ensures
        params == other_params,
        timestamp_ns == other_timestamp_ns,
{
    let a = receipt_at(params, timestamp_ns);
    let b = receipt_at(other_params, other_timestamp_ns);
    let (rs, id) = crate::signer::ecdsa_signature(key, receipt_hash(domain, a))->0;
    let (other_rs, other_id) = crate::signer::ecdsa_signature(
        other_key,
        receipt_hash(other_domain, b),
    )->0;
    let signature = crate::signer::signature_bytes(rs, id);
    let other_signature = crate::signer::signature_bytes(other_rs, other_id);
    let bytes = crate::proto::signed_receipt_wire(signed_message(a, signature));
    header_reads_back(a, signature, bytes);
    header_reads_back(b, other_signature, bytes);
    crate::proto::uint128_keeps_the_value(a.value);
    crate::proto::uint128_keeps_the_value(b.value);
    assert(receipt_message(a) == receipt_message(b));
}

/// No two receipts are alike: signing twice at two readings of the clock, less than 2^64
/// nanoseconds apart, gives two headers, whatever the keys, the domains and the parameters.
pub proof fn receipts_at_two_readings_differ(
    key: Seq<u8>,
    domain: crate::domain::DomainView,
    params: ParamsView,
    nanos: u128,
    header: String,
    other_key: Seq<u8>,
    other_domain: crate::domain::DomainView,
    other_params: ParamsView,
    other_nanos: u128,
    other_header: String,
)
    requires
        params.well_formed(),
        other_params.well_formed(),
        nanos < other_nanos < nanos + 0x1_0000_0000_0000_0000,
        signing_outcome(key, domain, params, Ok(nanos), Ok(header)),
        signing_outcome(other_key, other_domain, other_params, Ok(other_nanos), Ok(other_header)),
    ensures
        header@ != other_header@,
{
    let t = crate::clock::timestamp_of(nanos);
    let other_t = crate::clock::timestamp_of(other_nanos);
    crate::clock::timestamps_differ(nanos, other_nanos);
    if header@ == other_header@ {
        headers_are_unique(
            key,
            domain,
            params,
            t,
            other_key,
            other_domain,
            other_params,
            other_t,
            header@,
        );
    }
}

} // verus!
