//! Pay The Graph's indexers directly, without a gateway.
//!
//! Every indexer answers an unpaid query with `402 No Tap receipt was found in the request`. The
//! gateway normally handles payment, which means anyone measuring indexer quality has to route
//! through a gateway and accept whichever indexer it picks. That is fine for serving users and
//! useless for measurement: you cannot observe an indexer the gateway declines to route to, so
//! failures it already avoids are invisible and any success rate you compute is an upper bound.
//!
//! This crate removes the gateway from that path. Sign a TAP receipt, attach it, query the indexer
//! you actually want.
//!
//! ## Permissionless by design
//!
//! A receipt passes ten checks at an indexer, and the one governing *who may pay* is the balance
//! of the sender's escrow: it has to be greater than zero. There is a **denylist**, not an
//! allowlist. No relationship with any gateway operator is required: fund escrow and you may pay
//! any indexer.
//!
//! ## Scope
//!
//! Signing a receipt, building the request that carries it, and reading the answer. Escrow
//! funding, RAV aggregation and on-chain redemption are the payee's side of the protocol and
//! deliberately out of scope: a prober only needs to pay, never to collect.
//!
//! ## Modules
//!
//! - [`receipt`] signs a receipt and writes the header; [`client`] builds the request around it
//!   and reads the reply; [`probe`] judges the answer to a probe.
//! - [`indexer`] reads a header as the payee does, down to the address that signed it.
//! - [`proto`] and [`wire`] are the protobuf messages and their wire format, [`header`] is the
//!   base64 around them.
//! - [`fields`] walks the bytes of any message by its keys, and [`laws`] says what the operations
//!   are for.
//! - [`domain`], [`signer`], [`primitives`] and [`clock`] are what the others are made of.

pub mod client;
pub mod clock;
pub mod domain;
pub mod fields;
pub mod header;
pub mod indexer;
pub mod laws;
pub mod primitives;
pub mod probe;
pub mod proto;
pub mod receipt;
pub mod signer;
pub mod wire;

pub use client::{
    collection_id_from_allocation, has_balance, PaidQueryClient, PaidRequest, PaidResponse,
    PaymentContext,
};
pub use domain::{horizon_domain, Eip712Domain, ARBITRUM_ONE_CHAIN_ID};
pub use primitives::{Address, FixedBytes, U256};
pub use receipt::{sign_receipt, ReceiptParams};
pub use signer::PrivateKeySigner;
