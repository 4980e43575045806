//! The key that signs receipts, and the address that a signature recovers to.
use thegraph_core::alloy::signers::SignerSync;
use vstd::prelude::*;

use crate::primitives::{Address, FixedBytes};

verus! {

/// The order of the group of the curve secp256k1.
pub open spec fn curve_order() -> nat {
    0xFFFF_FFFF_FFFF_FFFF_FFFF_FFFF_FFFF_FFFE_BAAE_DCE6_AF48_A03B_BFD2_5E8C_D036_4141nat
}

/// The integer that bytes stand for, the most significant byte first.
pub open spec fn big_endian(b: Seq<u8>) -> nat
    decreases b.len(),
{
    if b.len() == 0 {
        0
    } else {
        big_endian(b.drop_last()) * 256 + b.last() as nat
    }
}

/// Whether 32 bytes are a private key: neither zero nor as large as the order of the group.
pub open spec fn valid_key(key: Seq<u8>) -> bool {
    0 < big_endian(key) < curve_order()
}

/// The public key that belongs to a private key: the 64 bytes of its point.
pub uninterp spec fn public_key(key: Seq<u8>) -> Seq<u8>;

/// The address of a public key.
pub uninterp spec fn public_key_address(public_key: Seq<u8>) -> Seq<u8>;

/// The address of the public key that belongs to a private key.
pub open spec fn key_address(key: Seq<u8>) -> Seq<u8> {
    public_key_address(public_key(key))
}

/// The ECDSA signature of a hash under a private key: the 64 bytes of `r` and `s`, and the
/// recovery id, whose low bit says whether the point behind `r` has an odd y-coordinate and whose
/// high bit says whether its x-coordinate was reduced.
pub uninterp spec fn ecdsa_signature(key: Seq<u8>, hash: Seq<u8>) -> Option<(Seq<u8>, nat)>;

/// The error with which a hash is not signed under a private key.
pub uninterp spec fn signing_error(
    key: Seq<u8>,
    hash: Seq<u8>,
) -> thegraph_core::alloy::signers::Error;

/// The public key that a signature of 65 bytes over a hash recovers to.
pub uninterp spec fn recovered_key(signature: Seq<u8>, hash: Seq<u8>) -> Option<Seq<u8>>;

/// The address that a signature of 65 bytes over a hash recovers to.
pub open spec fn recovered_address(signature: Seq<u8>, hash: Seq<u8>) -> Option<Seq<u8>> {
    match recovered_key(signature, hash) {
        Some(k) => Some(public_key_address(k)),
        None => None,
    }
}

/// The scalar of the group that a hash stands for in a signature.
pub open spec fn hash_scalar(hash: Seq<u8>) -> nat {
    big_endian(hash) % curve_order()
}

/// Whether a signature recovers to the public key of `key` over a hash, and over no hash of 32
/// bytes that stands for another scalar.
pub open spec fn signed_by(key: Seq<u8>, signature: Seq<u8>, hash: Seq<u8>) -> bool {
    &&& recovered_key(signature, hash) == Some(public_key(key))
    &&& forall|other: Seq<u8>|
        other.len() == 32 && hash_scalar(other) != hash_scalar(hash) ==> #[trigger] recovered_key(
            signature,
            other,
        ) != Some(public_key(key))
}

/// The 65 bytes of a signature: `r`, `s`, and 27 or 28 by the parity of the recovery id.
pub open spec fn signature_bytes(rs: Seq<u8>, recovery_id: nat) -> Seq<u8> {
    rs.push((27 + recovery_id % 2) as u8)
}

/// How far the prime of the field lies above the order of the group. An x-coordinate that was
/// reduced is smaller than this.
pub open spec fn field_excess() -> nat {
    0x1_4551_2319_50B7_5FC4_402D_A172_2FC9_BAEEnat
}

/// What holds of the signature of a hash under a key.
///
/// It has 64 bytes, and a recovery id below four. An `r` that is not below the [`field_excess`] was
/// not reduced. Where it was not, the signature recovers to the key.
pub open spec fn well_signed(key: Seq<u8>, hash: Seq<u8>, rs: Seq<u8>, recovery_id: nat) -> bool {
    &&& rs.len() == 64
    &&& recovery_id < 4
    &&& big_endian(rs.take(32)) >= field_excess() ==> recovery_id < 2
    &&& recovery_id < 2 ==> signed_by(key, signature_bytes(rs, recovery_id), hash)
}

#[verifier::external_type_specification]
#[verifier::external_body]
pub struct ExKeyError(thegraph_core::alloy::signers::k256::ecdsa::Error);

#[verifier::external_type_specification]
#[verifier::external_body]
pub struct ExSignerError(thegraph_core::alloy::signers::Error);

#[verifier::external_type_specification]
#[verifier::external_body]
pub struct ExSignatureError(thegraph_core::alloy::primitives::SignatureError);

/// The address of a private key.
///
/// `PrivateKeySigner::from_bytes` of `alloy`, and `address` on what it returns: the bytes are
/// taken as a big-endian integer, which has to be a non-zero scalar of the group. The address is
/// the hash of the public key that belongs to it (`verifying_key` of the signing key), so that it
/// depends on the key alone.
#[verifier::external_body]
fn address_of_key(key: &[u8; 32]) -> (r: Result<
    Address,
    thegraph_core::alloy::signers::k256::ecdsa::Error,
>)
    ensures
        match r {
            Ok(a) => valid_key(key@) && a@ == public_key_address(public_key(key@)),
            Err(_) => !valid_key(key@),
        },
{
    let signer = thegraph_core::alloy::signers::local::PrivateKeySigner::from_bytes(
        &(*key).into(),
    )?;
    Ok(Address(signer.address().into_array()))
}

/// Signs a hash with a private key.
///
/// `sign_hash_sync` on `PrivateKeySigner` of `alloy`, and `as_bytes` on the signature. The nonce
/// of the signature is derived from the key and the hash (RFC 6979), so that one key and one hash
/// have one signature, or one error where there is none. `alloy` keeps of the recovery id the parity alone. The number `r` is the
/// x-coordinate of a point, less the order of the group where the coordinate is not below that
/// order; the coordinate itself is below the prime of the field, so that a reduced one is below the
/// difference of the two. Where the x-coordinate was not reduced, the signature recovers to the public key of the signer over the hash that was
/// signed. Over another hash it does not, unless the two stand for one scalar: with `R` the point
/// behind `r`, `G` the generator and `z` the hash as a scalar, recovery computes
/// `(s * R - z * G) / r`, and for one signature two scalars `z` give two points.
#[verifier::external_body]
fn sign_with_key(key: &[u8; 32], hash: &[u8; 32]) -> (r: Result<
    [u8; 65],
    thegraph_core::alloy::signers::Error,
>)
    ensures
        match r {
            Ok(signature) => ecdsa_signature(key@, hash@) matches Some((rs, recovery_id))
                && well_signed(key@, hash@, rs, recovery_id) && signature@ == signature_bytes(
                rs,
                recovery_id,
            ),
            Err(e) => ecdsa_signature(key@, hash@) is None && e == signing_error(key@, hash@),
        },
{
    let signer = thegraph_core::alloy::signers::local::PrivateKeySigner::from_bytes(
        &(*key).into(),
    )?;
    Ok(signer.sign_hash_sync(&(*hash).into())?.as_bytes())
}

/// Recovers the address behind a signature.
///
/// `Signature::from_raw` of `alloy`, and `recover_address_from_prehash` on what it returns: the
/// address of the public key that `recover_from_prehash` finds. It depends on the bytes and the
/// hash alone.
#[verifier::external_body]
fn recover_from_bytes(signature: &[u8], hash: &[u8; 32]) -> (r: Result<
    Address,
    thegraph_core::alloy::primitives::SignatureError,
>)
    ensures
        match r {
            Ok(a) => recovered_key(signature@, hash@) matches Some(k) && a@ == public_key_address(k),
            Err(_) => recovered_key(signature@, hash@) is None,
        },
{
    let signature = thegraph_core::alloy::signers::Signature::from_raw(signature)?;
    let address = signature.recover_address_from_prehash(&(*hash).into())?;
    Ok(Address(address.into_array()))
}

/// Bytes that are no private key.
#[derive(Clone, Copy, Debug, PartialEq, Eq)]
pub struct InvalidKey;

/// A private key together with its address.
pub struct PrivateKeySigner {
    key: [u8; 32],
    address: Address,
}

impl View for PrivateKeySigner {
    type V = Seq<u8>;

    /// The private key.
    closed spec fn view(&self) -> Seq<u8> {
        self.key@
    }
}

impl Clone for PrivateKeySigner {
    fn clone(&self) -> (r: Self)
        ensures
            r@ == self@,
    {
        proof {
            use_type_invariant(self);
        }
        PrivateKeySigner { key: self.key, address: self.address }
    }
}

impl PrivateKeySigner {
    #[verifier::type_invariant]
    spec fn well_formed(self) -> bool {
        valid_key(self.key@) && self.address@ == key_address(self.key@)
    }

    /// The signer of a private key.
    pub fn from_bytes(key: &[u8; 32]) -> (r: Result<Self, InvalidKey>)
        ensures
            match r {
                Ok(signer) => valid_key(key@) && signer@ == key@,
                Err(_) => !valid_key(key@),
            },
    {
        match address_of_key(key) {
            Ok(address) => Ok(PrivateKeySigner { key: *key, address }),
            Err(_) => Err(InvalidKey),
        }
    }

    /// The address of the key.
    pub fn address(&self) -> (r: Address)
        ensures
            valid_key(self@),
            r@ == key_address(self@),
            r@ == public_key_address(public_key(self@)),
    {
        proof {
            use_type_invariant(self);
        }
        self.address
    }

    /// The signature of a hash, in 65 bytes.
    pub fn sign_hash_sync(&self, hash: &FixedBytes<32>) -> (r: Result<
        [u8; 65],
        thegraph_core::alloy::signers::Error,
    >)
        ensures
            match r {
                Ok(signature) => ecdsa_signature(self@, hash@) matches Some((rs, recovery_id))
                    && well_signed(self@, hash@, rs, recovery_id) && signature@ == signature_bytes(
                    rs,
                    recovery_id,
                ),
                Err(e) => ecdsa_signature(self@, hash@) is None && e == signing_error(self@, hash@),
            },
    {
        sign_with_key(&self.key, &hash.0)
    }
}

/// The address that a signature over a hash recovers to.
pub fn recover_address(signature: &[u8], hash: &FixedBytes<32>) -> (r: Option<Address>)
    ensures
        match r {
            Some(a) => recovered_address(signature@, hash@) == Some(a@),
            None => recovered_address(signature@, hash@) is None,
        },
        match r {
            Some(a) => recovered_key(signature@, hash@) matches Some(k) && a@ == public_key_address(k),
            None => recovered_key(signature@, hash@) is None,
        },
{
    match recover_from_bytes(signature, &hash.0) {
        Ok(address) => Some(address),
        Err(_) => None,
    }
}

} // verus!
