use std::time::Duration;

use tap_query::client::{
    collection_id_by_conversion, Header, QueryError, Reply, ZeroReceiptValue,
};
use tap_query::indexer::read_header;
use tap_query::receipt::SignError;
use tap_query::{
    collection_id_from_allocation, Address, PaidQueryClient, PaidRequest, PaidResponse,
    PaymentContext, PrivateKeySigner,
};

fn signer() -> PrivateKeySigner {
    PrivateKeySigner::from_bytes(&[0x42u8; 32]).ok().unwrap()
}

fn context() -> PaymentContext {
    PaymentContext {
        chain_id: 42161,
        verifier: Address([1u8; 20]),
        data_service: Address([2u8; 20]),
        payer: Address([3u8; 20]),
    }
}

fn clock_error() -> std::time::SystemTimeError {
    std::time::UNIX_EPOCH.duration_since(std::time::SystemTime::now()).unwrap_err()
}

fn client(value: u128) -> PaidQueryClient {
    PaidQueryClient::new(signer(), context(), Duration::from_secs(30), value).ok().unwrap()
}

#[test]
fn zero_value_is_refused() {
    let refused = PaidQueryClient::new(signer(), context(), Duration::from_secs(30), 0).err();
    assert_eq!(refused, Some(ZeroReceiptValue));
    assert_eq!(
        ZeroReceiptValue.message(),
        "receipt_value is 0 — every indexer with a cost model will refuse this as \
         'does not have the minimum value', which reads like an indexer fault and is not"
    );
}

#[test]
fn client_keeps_what_it_was_given() {
    let c = client(17);
    assert_eq!(c.receipt_value(), 17);
    assert_eq!(c.signer_address(), signer().address());
    assert_eq!(c.timeout(), Duration::from_secs(30));
    assert_eq!(client(u128::MAX).receipt_value(), u128::MAX);
}

#[test]
fn collection_id_is_the_padded_allocation() {
    let allocation = Address([0xabu8; 20]);
    let id = collection_id_from_allocation(allocation);
    assert_eq!(id.0[..12], [0u8; 12]);
    assert_eq!(id.0[12..], [0xabu8; 20]);
    assert_ne!(id, collection_id_from_allocation(Address([0xacu8; 20])));
}

#[test]
fn collection_id_agrees_with_the_outside_conversion() {
    for n in [0u8, 1, 0x7f, 0xff] {
        let mut bytes = [n; 20];
        bytes[0] = 0x3e;
        bytes[19] = 0x24;
        let allocation = thegraph_core::AllocationId::new(bytes.into());
        let outside = thegraph_core::CollectionId::from(allocation);
        assert_eq!(collection_id_from_allocation(Address(bytes)).0, outside.into_inner().0);
        assert_eq!(
            collection_id_by_conversion(Address(bytes)),
            collection_id_from_allocation(Address(bytes))
        );
    }
}

#[test]
fn receipt_parameters_come_from_the_context() {
    let p = client(5).receipt_params(Address([8u8; 20]), Address([9u8; 20]));
    assert_eq!(p.collection_id, collection_id_from_allocation(Address([9u8; 20])));
    assert_eq!(p.payer, Address([3u8; 20]));
    assert_eq!(p.data_service, Address([2u8; 20]));
    assert_eq!(p.service_provider, Address([8u8; 20]));
    assert_eq!(p.value, 5);
}

#[test]
fn request_carries_url_headers_and_body() {
    let r = PaidRequest::new(
        "https://indexer.example/",
        "QmDeployment",
        "{\"query\":\"{ _meta }\"}",
        "abc=".to_string(),
    );
    assert_eq!(r.method, "POST");
    assert_eq!(r.url, "https://indexer.example/subgraphs/id/QmDeployment");
    assert_eq!(
        r.headers,
        vec![
            Header { name: "tap-receipt".to_string(), value: "abc=".to_string() },
            Header { name: "content-type".to_string(), value: "application/json".to_string() },
        ]
    );
    assert_eq!(r.body, "{\"query\":\"{ _meta }\"}");
}

#[test]
fn trailing_slashes_are_cut() {
    for url in ["http://a", "http://a/", "http://a///"] {
        let r = PaidRequest::new(url, "Qm", "", String::new());
        assert_eq!(r.url, "http://a/subgraphs/id/Qm");
    }
    assert_eq!(PaidRequest::new("//", "Qm", "", String::new()).url, "/subgraphs/id/Qm");
    assert_eq!(PaidRequest::new("", "Qm", "", String::new()).url, "/subgraphs/id/Qm");
    assert_eq!(
        PaidRequest::new("http://ü/a/é/", "Qm", "", String::new()).url,
        "http://ü/a/é/subgraphs/id/Qm"
    );
}

#[test]
fn query_pays_with_the_clients_value() {
    let value = (7u128 << 64) + 11;
    let c = client(value);
    let request = c
        .query("http://a/", Address([8u8; 20]), Address([9u8; 20]), "Qm", "{}")
        .unwrap();
    assert_eq!(request.url, "http://a/subgraphs/id/Qm");
    assert_eq!(request.body, "{}");
    let m = read_header(&request.headers[0].value).unwrap();
    assert_eq!(m.recover_signer(&context().domain()), Some(c.signer_address()));
    let receipt = m.message.unwrap();
    assert_eq!(receipt.value.unwrap().to_u128(), value);
    assert_eq!(receipt.service_provider, vec![8u8; 20]);
    assert_eq!(receipt.payer, vec![3u8; 20]);
    assert_eq!(receipt.data_service, vec![2u8; 20]);
}

#[test]
fn query_at_a_time_is_repeatable() {
    let c = client(1);
    let at = |t: u64| {
        c.query_at("http://a", Address([8u8; 20]), Address([9u8; 20]), "Qm", "{}", t).unwrap()
    };
    assert_eq!(at(100), at(100));
    assert_ne!(at(100).headers[0], at(101).headers[0]);
    assert_eq!(at(100).headers[1], at(101).headers[1]);
}

#[test]
fn clock_decides_the_receipt_of_a_query() {
    let c = client(1);
    let by_clock = |reading: Result<u128, std::time::SystemTimeError>| {
        c.query_by_clock("http://a", Address([8u8; 20]), Address([9u8; 20]), "Qm", "{}", reading)
    };
    let early = clock_error();
    let said = early.duration();
    match by_clock(Err(early)) {
        Err(QueryError::Sign(SignError::ClockBeforeEpoch { cause })) => {
            assert_eq!(cause.duration(), said)
        }
        _ => panic!("a clock before the epoch gives no request"),
    }
    let first = by_clock(Ok((1u128 << 64) + 100)).unwrap();
    let second = by_clock(Ok((1u128 << 64) + 101)).unwrap();
    let at = c
        .query_at("http://a", Address([8u8; 20]), Address([9u8; 20]), "Qm", "{}", 100)
        .unwrap();
    assert_eq!(first, at);
    assert_ne!(first.headers[0], second.headers[0]);
    let a = read_header(&first.headers[0].value).unwrap().message.unwrap();
    let b = read_header(&second.headers[0].value).unwrap().message.unwrap();
    assert_eq!((a.timestamp_ns, b.timestamp_ns), (100, 101));
    assert_ne!(a.nonce, b.nonce);
}

#[test]
fn refusal_is_a_402() {
    let mut r = PaidResponse { status: 402, body: "no balance".to_string(), latency_ms: 1 };
    assert_eq!(r.payment_refused(), Some("no balance"));
    r.status = 200;
    assert_eq!(r.payment_refused(), None);
    r.status = 400;
    assert_eq!(r.payment_refused(), None);
}

#[test]
fn replies_become_responses() {
    let r = PaidResponse::from_reply(Reply::Received {
        status: 200,
        body: Some("{}".to_string()),
        elapsed_ms: 15,
    })
    .unwrap();
    assert_eq!((r.status, r.body.as_str(), r.latency_ms), (200, "{}", 15));

    let r = PaidResponse::from_reply(Reply::Received {
        status: 500,
        body: None,
        elapsed_ms: (1u128 << 64) + 3,
    })
    .unwrap();
    assert_eq!((r.status, r.body.as_str(), r.latency_ms), (500, "", 3));

    let cause = "connection refused".to_string();
    match PaidResponse::from_reply(Reply::Failed { cause: cause.clone() }) {
        Err(QueryError::RequestFailed { cause: kept }) => assert_eq!(kept, cause),
        _ => panic!("no reply, no response"),
    }
}

#[test]
fn query_errors_in_words() {
    let failed = QueryError::RequestFailed { cause: "timed out".to_string() };
    assert_eq!(failed.message(), "indexer request failed");
    assert_eq!(failed.cause(), "timed out");
    let cause = thegraph_core::alloy::signers::Error::message("");
    let unsigned = QueryError::Sign(SignError::SigningFailed { cause });
    assert_eq!(unsigned.message(), "failed to sign TAP receipt");
    assert_eq!(unsigned.cause(), "failed to sign the receipt hash");
    let early = QueryError::Sign(SignError::ClockBeforeEpoch { cause: clock_error() });
    assert_eq!(early.message(), "failed to sign TAP receipt");
    assert_eq!(early.cause(), "system clock is before the unix epoch");
}
