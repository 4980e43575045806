use base64::engine::general_purpose::STANDARD;
use base64::Engine;
use tap_query::indexer::{read_header, HeaderError};
use tap_query::receipt::{
    receipt_nonce, receipt_signing_hash, sign_receipt_at, sign_receipt_by_clock, SignError,
    SignedReceiptProto, Uint128,
};
use tap_query::{
    collection_id_from_allocation, horizon_domain, sign_receipt, Address, Eip712Domain, FixedBytes,
    PrivateKeySigner, ReceiptParams, ARBITRUM_ONE_CHAIN_ID,
};
use thegraph_core::alloy::primitives as outside;
use thegraph_core::alloy::sol_types::SolStruct;

fn address(last: u8) -> Address {
    let mut bytes = [0u8; 20];
    bytes[19] = last;
    Address(bytes)
}

fn allocation() -> Address {
    Address([
        0x12, 0x34, 0x56, 0x78, 0x90, 0x12, 0x34, 0x56, 0x78, 0x90, 0x12, 0x34, 0x56, 0x78, 0x90,
        0x12, 0x34, 0x56, 0x78, 0x90,
    ])
}

fn outside_domain(chain_id: u64, verifier: Address) -> thegraph_core::alloy::sol_types::Eip712Domain {
    thegraph_core::alloy::sol_types::Eip712Domain::new(
        Some("GraphTallyCollector".into()),
        Some("1".into()),
        Some(outside::U256::from(chain_id)),
        Some(outside::Address::from(verifier.0)),
        None,
    )
}

fn ctx() -> (PrivateKeySigner, Eip712Domain) {
    let key = thegraph_core::alloy::signers::local::PrivateKeySigner::random().to_bytes();
    let signer = match PrivateKeySigner::from_bytes(&key.0) {
        Ok(signer) => signer,
        Err(_) => panic!("a random key is a key"),
    };
    let domain = horizon_domain(ARBITRUM_ONE_CHAIN_ID, address(1));
    (signer, domain)
}

fn fixed_signer(last: u8) -> PrivateKeySigner {
    let mut key = [0u8; 32];
    key[31] = last;
    match PrivateKeySigner::from_bytes(&key) {
        Ok(signer) => signer,
        Err(_) => panic!("a small number is a key"),
    }
}

fn clock_error() -> std::time::SystemTimeError {
    std::time::UNIX_EPOCH.duration_since(std::time::SystemTime::now()).unwrap_err()
}

fn params() -> ReceiptParams {
    ReceiptParams {
        collection_id: collection_id_from_allocation(allocation()),
        payer: address(0xaa),
        data_service: address(0xbb),
        service_provider: address(0xcc),
        value: 1_000_000_000_000_000u128,
    }
}

/// The header must be base64 of protobuf. If this ever becomes JSON, every probe silently reads
/// as unpaid and returns 402, indistinguishable from an empty escrow account.
#[test]
fn header_is_base64_protobuf_and_round_trips() {
    let (signer, domain) = ctx();
    let header = sign_receipt(&signer, &domain, params()).unwrap();

    let raw = STANDARD.decode(&header).expect("header must be valid base64");
    let decoded = SignedReceiptProto::decode(raw.as_ref()).expect("must protobuf-decode");

    let msg = decoded.message.expect("receipt message present");
    assert_eq!(msg.payer.len(), 20);
    assert_eq!(msg.service_provider.len(), 20);
    assert_eq!(msg.collection_id.len(), 32);
    assert_eq!(decoded.signature.len(), 65);
    let v = msg.value.expect("value present");
    assert_eq!(((v.high as u128) << 64) | v.low as u128, 1_000_000_000_000_000u128);
}

/// The signature must recover to the signer, because escrow is looked up by the RECOVERED address.
/// A domain or type-hash mismatch still yields a valid-looking signature that recovers to a
/// stranger with no escrow, and the resulting 402 says "insufficient balance".
#[test]
fn signature_recovers_to_the_signer() {
    let (signer, domain) = ctx();
    let p = params();
    let header = sign_receipt(&signer, &domain, p.clone()).unwrap();

    let raw = STANDARD.decode(&header).unwrap();
    let decoded = SignedReceiptProto::decode(raw.as_ref()).unwrap();
    let ours = decoded.recover_signer(&domain);
    let msg = decoded.message.unwrap();

    let reconstructed = tap_graph::v2::Receipt {
        collection_id: outside::FixedBytes::<32>::from_slice(&msg.collection_id),
        payer: outside::Address::from_slice(&msg.payer),
        data_service: outside::Address::from_slice(&msg.data_service),
        service_provider: outside::Address::from_slice(&msg.service_provider),
        timestamp_ns: msg.timestamp_ns,
        nonce: msg.nonce,
        value: p.value,
    };

    let sig = thegraph_core::alloy::signers::Signature::try_from(decoded.signature.as_slice())
        .expect("65-byte signature");
    let recovered = sig
        .recover_address_from_prehash(
            &reconstructed.eip712_signing_hash(&outside_domain(ARBITRUM_ONE_CHAIN_ID, address(1))),
        )
        .expect("recoverable");

    assert_eq!(recovered.0 .0, signer.address().0, "receipt must recover to its signer");
    assert_eq!(ours, Some(signer.address()));
}

/// Two receipts must never be identical, or an indexer may treat the second as a replay.
#[test]
fn receipts_are_unique() {
    let (signer, domain) = ctx();
    let a = sign_receipt(&signer, &domain, params()).unwrap();
    let b = sign_receipt(&signer, &domain, params()).unwrap();
    assert_ne!(a, b);
}

/// v2 signs under `GraphTallyCollector`; v1 used `TAP`. Signing under the wrong name recovers to a
/// different address, so this guards the single most expensive thing to get wrong.
#[test]
fn domain_name_is_graph_tally_collector() {
    let d = horizon_domain(42161, address(1));
    assert_eq!(d.name.as_deref(), Some("GraphTallyCollector"));
    assert_eq!(d.version.as_deref(), Some("1"));
}

#[test]
fn domain_has_chain_and_contract_and_no_salt() {
    let d = horizon_domain(42161, address(9));
    assert_eq!(d.chain_id.map(|n| n.limbs), Some([42161, 0, 0, 0]));
    assert_eq!(d.verifying_contract, Some(address(9)));
    assert_eq!(d.salt, None);
}

#[test]
fn domains_of_two_contracts_or_chains_differ() {
    assert_eq!(horizon_domain(1, address(1)), horizon_domain(1, address(1)));
    assert_ne!(horizon_domain(1, address(1)), horizon_domain(2, address(1)));
    assert_ne!(horizon_domain(1, address(1)), horizon_domain(1, address(2)));
}

#[test]
fn one_time_gives_one_header() {
    let signer = fixed_signer(1);
    let domain = horizon_domain(ARBITRUM_ONE_CHAIN_ID, address(1));
    let a = sign_receipt_at(&signer, &domain, &params(), 1_700_000_000_000_000_000).unwrap();
    let b = sign_receipt_at(&signer, &domain, &params(), 1_700_000_000_000_000_000).unwrap();
    let c = sign_receipt_at(&signer, &domain, &params(), 1_700_000_000_000_000_001).unwrap();
    assert_eq!(a, b);
    assert_ne!(a, c);
}

#[test]
fn header_agrees_with_the_outside_signer() {
    let timestamp_ns = 1_700_000_000_123_456_789u64;
    let mut key = [0x11u8; 32];
    key[0] = 0x01;
    let signer = match PrivateKeySigner::from_bytes(&key) {
        Ok(signer) => signer,
        Err(_) => panic!("a key"),
    };
    let p = params();
    let domain = horizon_domain(ARBITRUM_ONE_CHAIN_ID, address(1));
    let header = sign_receipt_at(&signer, &domain, &p, timestamp_ns).unwrap();
    let m = read_header(&header).unwrap();

    let nonce = timestamp_ns.rotate_left(17);
    let receipt = tap_graph::v2::Receipt {
        collection_id: p.collection_id.0.into(),
        payer: p.payer.0.into(),
        data_service: p.data_service.0.into(),
        service_provider: p.service_provider.0.into(),
        timestamp_ns,
        nonce,
        value: p.value,
    };
    let hash = receipt.eip712_signing_hash(&outside_domain(ARBITRUM_ONE_CHAIN_ID, address(1)));
    let outside_signer =
        thegraph_core::alloy::signers::local::PrivateKeySigner::from_bytes(&key.into()).unwrap();
    let signature =
        thegraph_core::alloy::signers::SignerSync::sign_hash_sync(&outside_signer, &hash).unwrap();
    assert_eq!(m.signature, signature.as_bytes().to_vec());
    let msg = m.message.unwrap();
    assert_eq!(msg.collection_id, p.collection_id.0.to_vec());
    assert_eq!(msg.payer, p.payer.0.to_vec());
    assert_eq!(msg.data_service, p.data_service.0.to_vec());
    assert_eq!(msg.service_provider, p.service_provider.0.to_vec());
    assert_eq!(msg.timestamp_ns, timestamp_ns);
    assert_eq!(msg.nonce, nonce);
    assert_eq!(msg.value, Some(Uint128 { high: 0, low: 1_000_000_000_000_000 }));
}

#[test]
fn signing_hash_reads_every_field_of_the_domain() {
    let signer = fixed_signer(7);
    let p = params();
    let plain = horizon_domain(1, address(1));
    let mut salted = horizon_domain(1, address(1));
    salted.salt = Some(FixedBytes([3u8; 32]));
    let mut unnamed = horizon_domain(1, address(1));
    unnamed.name = None;
    let mut first_version = horizon_domain(1, address(1));
    first_version.name = Some("TAP".to_string());
    let others = [
        first_version,
        salted,
        unnamed,
        horizon_domain(2, address(1)),
        horizon_domain(1, address(2)),
    ];
    let header = sign_receipt_at(&signer, &plain, &p, 5).unwrap();
    let m = read_header(&header).unwrap();
    assert_eq!(m.recover_signer(&plain), Some(signer.address()));
    for other in others {
        assert_ne!(m.recover_signer(&other), Some(signer.address()));
    }
}

#[test]
fn changed_receipt_recovers_to_another_address() {
    let signer = fixed_signer(3);
    let domain = horizon_domain(ARBITRUM_ONE_CHAIN_ID, address(1));
    let header = sign_receipt_at(&signer, &domain, &params(), 77).unwrap();
    let mut m = read_header(&header).unwrap();
    assert_eq!(m.recover_signer(&domain), Some(signer.address()));
    if let Some(receipt) = m.message.as_mut() {
        receipt.value = Some(Uint128 { high: 0, low: 1 });
    }
    assert_ne!(m.recover_signer(&domain), Some(signer.address()));
}

#[test]
fn signer_is_not_recovered_from_a_broken_message() {
    let signer = fixed_signer(3);
    let domain = horizon_domain(ARBITRUM_ONE_CHAIN_ID, address(1));
    let header = sign_receipt_at(&signer, &domain, &params(), 77).unwrap();
    let good = read_header(&header).unwrap();

    let mut m = good.clone();
    m.message = None;
    assert_eq!(m.recover_signer(&domain), None);

    let mut m = good.clone();
    m.signature.pop();
    assert_eq!(m.recover_signer(&domain), None);

    let mut m = good.clone();
    m.signature[64] = 2;
    assert_eq!(m.recover_signer(&domain), None);

    let mut m = good.clone();
    if let Some(receipt) = m.message.as_mut() {
        receipt.value = None;
    }
    assert_eq!(m.recover_signer(&domain), None);

    let mut m = good.clone();
    if let Some(receipt) = m.message.as_mut() {
        receipt.payer.push(0);
    }
    assert_eq!(m.recover_signer(&domain), None);

    let mut m = good;
    if let Some(receipt) = m.message.as_mut() {
        receipt.collection_id.pop();
    }
    assert_eq!(m.recover_signer(&domain), None);
}

#[test]
fn nonce_is_the_rotated_time_and_the_provider() {
    assert_eq!(receipt_nonce(1, &address(0xcc)), 0x2_0000);
    assert_eq!(receipt_nonce(0x8000_0000_0000_0000, &address(0)), 0x1_0000);
    let provider = Address([
        1, 2, 3, 4, 5, 6, 7, 8, 9, 10, 11, 12, 13, 14, 15, 16, 17, 18, 19, 20,
    ]);
    assert_eq!(receipt_nonce(0, &provider), 0x0807_0605_0403_0201);
    for t in [0u64, 1, 42, 1 << 46, 1 << 47, u64::MAX, 1_700_000_000_123_456_789] {
        let expected = t.rotate_left(17) ^ u64::from_le_bytes([1, 2, 3, 4, 5, 6, 7, 8]);
        assert_eq!(receipt_nonce(t, &provider), expected);
    }
}

#[test]
fn nonces_differ() {
    let a = Address([1u8; 20]);
    let b = Address([2u8; 20]);
    assert_ne!(receipt_nonce(10, &a), receipt_nonce(11, &a));
    assert_ne!(receipt_nonce(10, &a), receipt_nonce(10, &b));
}

#[test]
fn timestamps_keep_the_low_bits() {
    assert_eq!(tap_query::clock::timestamp_from_nanos(5), 5);
    assert_eq!(tap_query::clock::timestamp_from_nanos((1u128 << 64) + 9), 9);
    assert_eq!(tap_query::clock::timestamp_from_nanos(u128::MAX), u64::MAX);
}

#[test]
fn timestamp_is_the_present() {
    let (signer, domain) = ctx();
    let before = std::time::SystemTime::now()
        .duration_since(std::time::UNIX_EPOCH)
        .unwrap()
        .as_nanos() as u64;
    let header = sign_receipt(&signer, &domain, params()).unwrap();
    let after = std::time::SystemTime::now()
        .duration_since(std::time::UNIX_EPOCH)
        .unwrap()
        .as_nanos() as u64;
    let t = read_header(&header).unwrap().message.unwrap().timestamp_ns;
    assert!(before <= t && t <= after);
}

#[test]
fn clock_decides_the_timestamp() {
    let signer = fixed_signer(5);
    let domain = horizon_domain(ARBITRUM_ONE_CHAIN_ID, address(1));
    let p = params();
    let early = clock_error();
    let said = early.to_string();
    match sign_receipt_by_clock(&signer, &domain, &p, Err(early)) {
        Err(SignError::ClockBeforeEpoch { cause }) => assert_eq!(cause.to_string(), said),
        _ => panic!("a clock before the epoch signs nothing"),
    }
    assert_eq!(
        sign_receipt_by_clock(&signer, &domain, &p, Ok((1u128 << 64) + 77)).unwrap(),
        sign_receipt_at(&signer, &domain, &p, 77).unwrap()
    );
}

#[test]
fn two_readings_give_two_headers() {
    let signer = fixed_signer(5);
    let domain = horizon_domain(ARBITRUM_ONE_CHAIN_ID, address(1));
    let at = |n: u128| sign_receipt_by_clock(&signer, &domain, &params(), Ok(n)).unwrap();
    assert_ne!(at(1_700_000_000_000_000_000), at(1_700_000_000_000_000_001));
    assert_ne!(at(u64::MAX as u128), at(1u128 << 64));
    assert_eq!(at(3), at((1u128 << 64) + 3));
}

#[test]
fn reading_keeps_the_nanoseconds_or_the_error() {
    let since = std::time::Duration::new(3, 5);
    assert_eq!(tap_query::clock::reading(Ok(since)).unwrap(), 3_000_000_005);
    let early = clock_error();
    let said = early.duration();
    assert_eq!(tap_query::clock::reading(Err(early)).unwrap_err().duration(), said);
}

#[test]
fn signers_error_is_kept() {
    let receipt = params().at(9);
    let signature = [7u8; 65];
    assert_eq!(receipt.header_of(Ok(signature)).unwrap(), receipt.header(&signature));
    let error = thegraph_core::alloy::signers::Error::message("out of ink");
    match receipt.header_of(Err(error)) {
        Err(SignError::SigningFailed { cause }) => assert_eq!(cause.to_string(), "out of ink"),
        _ => panic!("no signature, no header"),
    }
}

#[test]
fn signing_hash_agrees_with_the_outside_hash() {
    let receipt = params().at(9);
    let outside_receipt = tap_graph::v2::Receipt {
        collection_id: receipt.collection_id.0.into(),
        payer: receipt.payer.0.into(),
        data_service: receipt.data_service.0.into(),
        service_provider: receipt.service_provider.0.into(),
        timestamp_ns: receipt.timestamp_ns,
        nonce: receipt.nonce,
        value: receipt.value,
    };
    let hash = receipt_signing_hash(&horizon_domain(5, address(6)), &receipt);
    assert_eq!(hash.0, outside_receipt.eip712_signing_hash(&outside_domain(5, address(6))).0);
}

#[test]
fn header_text_agrees_with_the_outside_encoder() {
    let receipt = params().at(12345);
    for last in [27u8, 28] {
        let mut signature = [0xffu8; 65];
        signature[64] = last;
        let bytes = receipt.signed(&signature).encode_to_vec();
        assert_eq!(receipt.header(&signature), STANDARD.encode(&bytes));
    }
    let mut signature = [0u8; 65];
    let header = receipt.header(&signature);
    signature[64] = 1;
    assert_ne!(receipt.header(&signature), header);
}

#[test]
fn headers_that_cannot_be_read() {
    assert_eq!(read_header("{\"receipt\":1}"), Err(HeaderError::NotBase64));
    assert_eq!(read_header("AA="), Err(HeaderError::NotBase64));
    assert_eq!(read_header("AB=="), Err(HeaderError::NotBase64));
    assert_eq!(read_header("AA"), Err(HeaderError::NotBase64));
    assert_eq!(read_header("AA=="), Err(HeaderError::NotAReceipt));
    assert_eq!(read_header("CgE="), Err(HeaderError::NotAReceipt));
    assert_eq!(read_header(""), Ok(SignedReceiptProto::default()));
}

#[test]
fn sign_errors_in_words() {
    let early = SignError::ClockBeforeEpoch { cause: clock_error() };
    assert_eq!(early.message(), "system clock is before the unix epoch");
    let cause = thegraph_core::alloy::signers::Error::message("");
    let failed = SignError::SigningFailed { cause };
    assert_eq!(failed.message(), "failed to sign the receipt hash");
}
