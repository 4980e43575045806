//! The EIP-712 domain under which receipts are signed.
use vstd::prelude::*;

use crate::primitives::{Address, FixedBytes, U256};

verus! {

/// Arbitrum One.
pub const ARBITRUM_ONE_CHAIN_ID: u64 = 42161;

/// An EIP-712 domain. A field that is absent is no part of the domain's type.
#[derive(Clone, Debug, PartialEq, Eq)]
pub struct Eip712Domain {
    pub name: Option<String>,
    pub version: Option<String>,
    pub chain_id: Option<U256>,
    pub verifying_contract: Option<Address>,
    pub salt: Option<FixedBytes<32>>,
}

/// What an [`Eip712Domain`] holds.
pub struct DomainView {
    pub name: Option<Seq<char>>,
    pub version: Option<Seq<char>>,
    pub chain_id: Option<nat>,
    pub verifying_contract: Option<Seq<u8>>,
    pub salt: Option<Seq<u8>>,
}

impl View for Eip712Domain {
    type V = DomainView;

    open spec fn view(&self) -> DomainView {
        DomainView {
            name: match self.name {
                Some(s) => Some(s@),
                None => None,
            },
            version: match self.version {
                Some(s) => Some(s@),
                None => None,
            },
            chain_id: match self.chain_id {
                Some(n) => Some(n@),
                None => None,
            },
            verifying_contract: match self.verifying_contract {
                Some(a) => Some(a@),
                None => None,
            },
            salt: match self.salt {
                Some(b) => Some(b@),
                None => None,
            },
        }
    }
}

/// The domain of the `GraphTallyCollector` contract at `verifier` on chain `chain_id`.
pub open spec fn horizon_domain_view(chain_id: u64, verifier: Seq<u8>) -> DomainView {
    DomainView {
        name: Some("GraphTallyCollector"@),
        version: Some("1"@),
        chain_id: Some(chain_id as nat),
        verifying_contract: Some(verifier),
        salt: None,
    }
}

/// EIP-712 domain for Horizon (TAP v2) receipts.
///
/// The domain name is **`GraphTallyCollector`** for v2 (v1 used `"TAP"`). Signing under the wrong
/// name produces a well-formed receipt that recovers to the wrong address, which an indexer
/// rejects in a way indistinguishable from an unfunded escrow.
pub fn horizon_domain(chain_id: u64, verifier: Address) -> (r: Eip712Domain)
    ensures
        r@ == horizon_domain_view(chain_id, verifier@),
        r.name matches Some(name) && name@ == "GraphTallyCollector"@,
        r.version matches Some(version) && version@ == "1"@,
        r.chain_id matches Some(id) && id@ == chain_id,
        r.verifying_contract == Some(verifier),
        r.salt is None,
{
    Eip712Domain {
        name: Some("GraphTallyCollector".to_string()),
        version: Some("1".to_string()),
        chain_id: Some(U256::from_u64(chain_id)),
        verifying_contract: Some(verifier),
        salt: None,
    }
}

/// The domains of two contracts, or of two chains, are different domains.
pub proof fn horizon_domains_differ(
    chain_id: u64,
    verifier: Seq<u8>,
    other_chain_id: u64,
    other_verifier: Seq<u8>,
)
    requires
        chain_id != other_chain_id || verifier != other_verifier,
    ensures
        horizon_domain_view(chain_id, verifier) != horizon_domain_view(
            other_chain_id,
            other_verifier,
        ),
{
}

} // verus!
