use tap_query::probe::{address_digits, classify, classify_lowercase, Verdict};
use tap_query::{Address, PaidResponse};

fn signer() -> Address {
    Address([
        0xb2, 0xbb, 0x92, 0xd0, 0xde, 0x61, 0x88, 0x78, 0xe4, 0x38, 0xb5, 0x5d, 0x58, 0x46, 0xcf,
        0xec, 0xd9, 0x30, 0x11, 0x05,
    ])
}

fn verdict(status: u16, body: &str) -> Verdict {
    let response = PaidResponse { status, body: body.to_string(), latency_ms: 0 };
    classify(&response, &signer())
}

#[test]
fn digits_of_an_address() {
    assert_eq!(address_digits(&signer()), "b2bb92d0de618878e438b55d5846cfecd9301105");
    assert_eq!(address_digits(&Address([0u8; 20])), "0".repeat(40));
}

#[test]
fn served_whatever_the_body() {
    assert_eq!(verdict(200, "{\"data\":{}}"), Verdict::Served);
    assert_eq!(verdict(200, "Insufficient balance"), Verdict::Served);
}

#[test]
fn escrow_complaints_are_told_apart_by_the_address() {
    let ours = "No sender found for signer 0xb2Bb92d0DE618878E438b55D5846cfecD9301105";
    assert_eq!(verdict(402, ours), Verdict::WireFormatVerified);
    let other = "No sender found for signer 0x7E5F4552091A69125d5DfCb7b8C2659029395Bdf";
    assert_eq!(verdict(402, other), Verdict::AddressMismatch);
    assert_eq!(verdict(402, "ESCROW is empty"), Verdict::AddressMismatch);
    assert_eq!(verdict(402, "Insufficient Balance"), Verdict::AddressMismatch);
}

#[test]
fn other_rejections() {
    assert_eq!(verdict(403, "sender is on the Denylist"), Verdict::Denylisted);
    assert_eq!(
        verdict(402, "No Tap receipt was found in the request"),
        Verdict::ReceiptNotSeen
    );
    assert_eq!(verdict(404, "Not Found"), Verdict::ReceiptNotSeen);
    assert_eq!(verdict(400, "Bad Signature"), Verdict::SignatureRejected);
    assert_eq!(verdict(400, "could not RECOVER"), Verdict::SignatureRejected);
    assert_eq!(verdict(400, "invalid receipt"), Verdict::SignatureRejected);
    assert_eq!(verdict(500, "oops"), Verdict::Unrecognised);
    assert_eq!(verdict(500, ""), Verdict::Unrecognised);
}

#[test]
fn first_match_wins() {
    assert_eq!(verdict(402, "denylist and invalid signature"), Verdict::Denylisted);
    assert_eq!(verdict(402, "denylist, balance"), Verdict::AddressMismatch);
    assert_eq!(verdict(402, "receipt not found, invalid"), Verdict::ReceiptNotSeen);
}

#[test]
fn lower_case_is_needed() {
    assert_eq!(classify_lowercase(402, "BALANCE", &signer()), Verdict::Unrecognised);
    assert_eq!(classify_lowercase(402, "balance", &signer()), Verdict::AddressMismatch);
}

#[test]
fn verdicts_in_words() {
    assert_eq!(Verdict::Served.explanation(), "SERVED. receipt accepted and paid for.");
    assert_eq!(
        Verdict::SignatureRejected.explanation(),
        "SIGNATURE REJECTED. Domain, type hash or encoding is wrong."
    );
    assert_eq!(
        Verdict::Unrecognised.explanation(),
        "Unrecognised rejection; read the body above."
    );
}
