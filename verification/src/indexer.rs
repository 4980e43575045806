//! The payee's reading of a `tap-receipt` header: base64, then protobuf, then the signer.
use vstd::prelude::*;

use crate::domain::Eip712Domain;
use crate::header::decode_header;
use crate::primitives::{Address, FixedBytes};
use crate::proto::{ReceiptProto, SignedReceiptProto};
use crate::receipt::{receipt_signing_hash, Receipt};
use crate::signer::recover_address;

verus! {

/// Why a header could not be read.
#[derive(Debug, Clone, Copy, PartialEq, Eq)]
pub enum HeaderError {
    /// The text is no base64.
    NotBase64,
    /// The bytes are no signed receipt.
    NotAReceipt,
}

/// Reads the message that a header carries.
pub fn read_header(header: &str) -> (r: Result<SignedReceiptProto, HeaderError>)
    ensures
        match r {
            Ok(m) => exists|bytes: Seq<u8>| #[trigger]
                crate::header::base64_text(bytes) == header@
                    && crate::proto::signed_receipt_read(bytes) == Some(m@),
            Err(HeaderError::NotBase64) => forall|bytes: Seq<u8>|
                #[trigger] crate::header::base64_text(bytes) != header@,
            Err(HeaderError::NotAReceipt) => exists|bytes: Seq<u8>| #[trigger]
                crate::header::base64_text(bytes) == header@
                    && crate::proto::signed_receipt_read(bytes) is None,
        },
{
    match decode_header(header) {
        Ok(bytes) => match SignedReceiptProto::decode(&bytes) {
            Ok(m) => Ok(m),
            Err(_) => Err(HeaderError::NotAReceipt),
        },
        Err(_) => Err(HeaderError::NotBase64),
    }
}

/// The receipt that a message carries: the fields have to be of their lengths, and the value has
/// to be there.
pub open spec fn carried_receipt(m: crate::proto::ReceiptProtoView) -> Option<
    crate::receipt::ReceiptView,
> {
    match m.value {
        Some(v) => {
            let receipt = crate::receipt::ReceiptView {
                collection_id: m.collection_id,
                payer: m.payer,
                data_service: m.data_service,
                service_provider: m.service_provider,
                timestamp_ns: m.timestamp_ns,
                nonce: m.nonce,
                value: v.value() as u128,
            };
            if receipt.well_formed() {
                Some(receipt)
            } else {
                None
            }
        },
        None => None,
    }
}

/// The address that the signature in a message recovers to under a domain.
pub open spec fn message_signer(
    domain: crate::domain::DomainView,
    m: crate::proto::SignedReceiptProtoView,
) -> Option<Seq<u8>> {
    match m.message {
        Some(r) => match carried_receipt(r) {
            Some(receipt) => crate::signer::recovered_address(
                m.signature,
                crate::receipt::receipt_hash(domain, receipt),
            ),
            None => None,
        },
        None => None,
    }
}

impl ReceiptProto {
    /// The receipt that this message carries.
    pub fn to_receipt(&self) -> (r: Option<Receipt>)
        ensures
            match r {
                Some(receipt) => carried_receipt(self@) == Some(receipt@),
                None => carried_receipt(self@) is None,
            },
    {
        let collection_id: FixedBytes<32> = match FixedBytes::from_bytes(&self.collection_id) {
            Some(id) => id,
            None => {
                return None;
            },
        };
        match (
            Address::from_bytes(&self.payer),
            Address::from_bytes(&self.data_service),
            Address::from_bytes(&self.service_provider),
            &self.value,
        ) {
            (Some(payer), Some(data_service), Some(service_provider), Some(value)) => Some(
                Receipt {
                    collection_id,
                    payer,
                    data_service,
                    service_provider,
                    timestamp_ns: self.timestamp_ns,
                    nonce: self.nonce,
                    value: value.to_u128(),
                },
            ),
            _ => None,
        }
    }
}

impl SignedReceiptProto {
    /// The address that the signature recovers to under a domain. An indexer looks up the escrow
    /// by this address.
    pub fn recover_signer(&self, domain: &Eip712Domain) -> (r: Option<Address>)
        ensures
            match r {
                Some(a) => message_signer(domain@, self@) == Some(a@),
                None => message_signer(domain@, self@) is None,
            },
    {
        match &self.message {
            Some(message) => match message.to_receipt() {
                Some(receipt) => recover_address(
                    &self.signature,
                    &receipt_signing_hash(domain, &receipt),
                ),
                None => None,
            },
            None => None,
        }
    }
}

/// A header that was signed recovers to its signer: an indexer that reads it under the same
/// domain finds the address of the key, wherever the signature kept the whole x-coordinate.
pub proof fn header_recovers_to_the_signer(
    key: Seq<u8>,
    domain: crate::domain::DomainView,
    params: crate::receipt::ParamsView,
    timestamp_ns: u64,
    header: Seq<char>,
    bytes: Seq<u8>,
)
    requires
        params.well_formed(),
        crate::receipt::signs_to(key, domain, params, timestamp_ns, header),
        crate::signer::ecdsa_signature(
            key,
            crate::receipt::receipt_hash(domain, crate::receipt::receipt_at(params, timestamp_ns)),
        ) matches Some((_, recovery_id)) && recovery_id < 2,
        crate::header::base64_text(bytes) == header,
    ensures
        crate::proto::signed_receipt_read(bytes) matches Some(m) && message_signer(domain, m)
            == Some(crate::signer::key_address(key)),
{
    let receipt = crate::receipt::receipt_at(params, timestamp_ns);
    let (rs, recovery_id) = crate::signer::ecdsa_signature(
        key,
        crate::receipt::receipt_hash(domain, receipt),
    )->0;
    let signature = crate::signer::signature_bytes(rs, recovery_id);
    crate::receipt::header_reads_back(receipt, signature, bytes);
    crate::proto::uint128_keeps_the_value(receipt.value);
    assert(carried_receipt(crate::receipt::receipt_message(receipt)) == Some(receipt));
}

/// A header that was signed recovers to its signer wherever the first 32 bytes of the signature
/// that is read from it are not below the field's excess over the group's order. All but about one
/// in 2^127 signatures are such, and a reader of the header can see whether this one is.
pub proof fn header_with_a_large_r_recovers(
    key: Seq<u8>,
    domain: crate::domain::DomainView,
    params: crate::receipt::ParamsView,
    timestamp_ns: u64,
    header: Seq<char>,
    bytes: Seq<u8>,
    m: crate::proto::SignedReceiptProtoView,
)
    requires
        params.well_formed(),
        crate::receipt::signs_to(key, domain, params, timestamp_ns, header),
        crate::header::base64_text(bytes) == header,
        crate::proto::signed_receipt_read(bytes) == Some(m),
        crate::signer::big_endian(m.signature.take(32)) >= crate::signer::field_excess(),
    ensures
        message_signer(domain, m) == Some(crate::signer::key_address(key)),
{
    let receipt = crate::receipt::receipt_at(params, timestamp_ns);
    let (rs, recovery_id) = crate::signer::ecdsa_signature(
        key,
        crate::receipt::receipt_hash(domain, receipt),
    )->0;
    let signature = crate::signer::signature_bytes(rs, recovery_id);
    crate::receipt::header_reads_back(receipt, signature, bytes);
    assert(signature.take(32) =~= rs.take(32));
    header_recovers_to_the_signer(key, domain, params, timestamp_ns, header, bytes);
}

/// Under another domain a signed header does not recover to its signer: wherever the signature
/// kept the whole x-coordinate, the receipt hashes to another scalar under that domain, and what
/// is recovered there is no second public key with the signer's address.
pub proof fn other_domain_recovers_to_another_signer(
    key: Seq<u8>,
    domain: crate::domain::DomainView,
    other_domain: crate::domain::DomainView,
    params: crate::receipt::ParamsView,
    timestamp_ns: u64,
    header: Seq<char>,
    bytes: Seq<u8>,
)
    requires
        params.well_formed(),
        crate::receipt::signs_to(key, domain, params, timestamp_ns, header),
        crate::header::base64_text(bytes) == header,
        ({
            let receipt = crate::receipt::receipt_at(params, timestamp_ns);
            let hash = crate::receipt::receipt_hash(domain, receipt);
            let other_hash = crate::receipt::receipt_hash(other_domain, receipt);
            &&& other_hash.len() == 32
            &&& crate::signer::hash_scalar(other_hash) != crate::signer::hash_scalar(hash)
            &&& crate::signer::ecdsa_signature(key, hash) matches Some((rs, recovery_id))
            &&& recovery_id < 2
            &&& crate::signer::recovered_key(
                crate::signer::signature_bytes(rs, recovery_id),
                other_hash,
            ) matches Some(k) ==> (crate::signer::public_key_address(k)
                == crate::signer::key_address(key) ==> k == crate::signer::public_key(key))
        }),
    ensures
        crate::proto::signed_receipt_read(bytes) matches Some(m) && message_signer(domain, m)
            == Some(crate::signer::key_address(key)) && message_signer(other_domain, m) != Some(
            crate::signer::key_address(key),
        ),
{
    let receipt = crate::receipt::receipt_at(params, timestamp_ns);
    let (rs, recovery_id) = crate::signer::ecdsa_signature(
        key,
        crate::receipt::receipt_hash(domain, receipt),
    )->0;
    let signature = crate::signer::signature_bytes(rs, recovery_id);
    header_recovers_to_the_signer(key, domain, params, timestamp_ns, header, bytes);
    crate::receipt::header_reads_back(receipt, signature, bytes);
    crate::proto::uint128_keeps_the_value(receipt.value);
    assert(carried_receipt(crate::receipt::receipt_message(receipt)) == Some(receipt));
}

} // verus!
