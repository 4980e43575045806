//! What the answer to a probe says about the receipt.
//!
//! A probe with an unfunded key is worth sending. A rejection that names the signer's address and
//! complains about *balance* proves everything upstream of funding: the header decoded, the
//! protobuf parsed, the EIP-712 domain matched, and the signature recovered to the address that
//! signed. A rejection that says the receipt is missing or malformed means the opposite, and no
//! amount of funding would fix it.
use vstd::prelude::*;
use vstd::string::StringExecFns;

use crate::client::PaidResponse;
use crate::primitives::Address;

verus! {

/// What an answer says about the receipt that was sent.
#[derive(Debug, Clone, Copy, PartialEq, Eq)]
pub enum Verdict {
    /// The receipt was accepted and paid for.
    Served,
    /// The indexer recovered the signer's own address, and refused only for escrow.
    WireFormatVerified,
    /// The indexer recovered another address.
    AddressMismatch,
    /// The sender is on the indexer's denylist.
    Denylisted,
    /// The indexer did not see a receipt.
    ReceiptNotSeen,
    /// The indexer rejected the signature.
    SignatureRejected,
    /// The answer says nothing that is known.
    Unrecognised,
}

/// Whether a text stands somewhere in another.
pub open spec fn occurs_in(part: Seq<char>, text: Seq<char>) -> bool {
    exists|i: int|
        0 <= i <= text.len() - part.len() && #[trigger] text.subrange(i, i + part.len()) == part
}

/// The lower-case hexadecimal digit of a number below 16.
pub open spec fn hex_char(n: int) -> char {
    if n < 10 {
        ('0' as int + n) as char
    } else {
        ('a' as int + (n - 10)) as char
    }
}

/// Bytes in lower-case hexadecimal digits, two for each byte.
pub open spec fn hex_text(b: Seq<u8>) -> Seq<char> {
    Seq::new(
        2 * b.len(),
        |i: int|
            hex_char(
                if i % 2 == 0 {
                    b[i / 2] as int / 16
                } else {
                    b[i / 2] as int % 16
                },
            ),
    )
}

/// A text in lower case, as Unicode has it.
pub uninterp spec fn lowercase(text: Seq<char>) -> Seq<char>;

/// Whether a text complains about escrow.
pub open spec fn about_escrow(text: Seq<char>) -> bool {
    occurs_in("balance"@, text) || occurs_in("escrow"@, text) || occurs_in("no sender"@, text)
}

/// The verdict on a status and a body in lower case.
pub open spec fn verdict_on(status: u16, text: Seq<char>, signer: Seq<u8>) -> Verdict {
    if status == 200 {
        Verdict::Served
    } else if about_escrow(text) {
        if occurs_in(hex_text(signer), text) {
            Verdict::WireFormatVerified
        } else {
            Verdict::AddressMismatch
        }
    } else if occurs_in("denylist"@, text) {
        Verdict::Denylisted
    } else if occurs_in("no tap receipt"@, text) || occurs_in("not found"@, text) {
        Verdict::ReceiptNotSeen
    } else if occurs_in("signature"@, text) || occurs_in("recover"@, text) || occurs_in(
        "invalid"@,
        text,
    ) {
        Verdict::SignatureRejected
    } else {
        Verdict::Unrecognised
    }
}

/// Whether a text holds another: `str::contains` of the standard library.
#[verifier::external_body]
fn holds(text: &str, part: &str) -> (r: bool)
    ensures
        r == occurs_in(part@, text@),
{
    text.contains(part)
}

/// A text in lower case: `str::to_lowercase` of the standard library, which depends on the text
/// alone.
#[verifier::external_body]
fn to_lowercase(text: &str) -> (r: String)
    ensures
        r@ == lowercase(text@),
{
    text.to_lowercase()
}

/// The digit of a number below 16.
fn hex_digit(n: u8) -> (r: &'static str)
    requires
        n < 16,
    ensures
        r@ == seq![hex_char(n as int)],
{
    proof {
        reveal_strlit("0");
        reveal_strlit("1");
        reveal_strlit("2");
        reveal_strlit("3");
        reveal_strlit("4");
        reveal_strlit("5");
        reveal_strlit("6");
        reveal_strlit("7");
        reveal_strlit("8");
        reveal_strlit("9");
        reveal_strlit("a");
        reveal_strlit("b");
        reveal_strlit("c");
        reveal_strlit("d");
        reveal_strlit("e");
        reveal_strlit("f");
    }
    match n {
        0 => "0",
        1 => "1",
        2 => "2",
        3 => "3",
        4 => "4",
        5 => "5",
        6 => "6",
        7 => "7",
        8 => "8",
        9 => "9",
        10 => "a",
        11 => "b",
        12 => "c",
        13 => "d",
        14 => "e",
        _ => "f",
    }
}

/// An address in lower-case hexadecimal digits, without a prefix.
pub fn address_digits(address: &Address) -> (r: String)
    ensures
        r@ == hex_text(address@),
{
    let mut text: String = String::new();
    let mut i: usize = 0;
    while i < 20
        invariant
            i <= 20,
            text@ == hex_text(address@.take(i as int)),
        decreases 20 - i,
    {
        let byte: u8 = address.0[i];
        text.append(hex_digit(byte / 16));
        text.append(hex_digit(byte % 16));
        i = i + 1;
        assert(text@ =~= hex_text(address@.take(i as int)));
    }
    assert(address@.take(20) =~= address@);
    text
}

/// The verdict on a status and a body in lower case.
pub fn classify_lowercase(status: u16, text: &str, signer: &Address) -> (r: Verdict)
    ensures
        r == verdict_on(status, text@, signer@),
{
    if status == 200 {
        Verdict::Served
    } else if holds(text, "balance") || holds(text, "escrow") || holds(text, "no sender") {
        // The refusal usually quotes the address it recovered. Where that is not the signer's, the
        // problem is the domain or the encoding, not the funding.
        if holds(text, &address_digits(signer)) {
            Verdict::WireFormatVerified
        } else {
            Verdict::AddressMismatch
        }
    } else if holds(text, "denylist") {
        Verdict::Denylisted
    } else if holds(text, "no tap receipt") || holds(text, "not found") {
        Verdict::ReceiptNotSeen
    } else if holds(text, "signature") || holds(text, "recover") || holds(text, "invalid") {
        Verdict::SignatureRejected
    } else {
        Verdict::Unrecognised
    }
}

/// The verdict on an answer to a probe that was signed by the given address.
pub fn classify(response: &PaidResponse, signer: &Address) -> (r: Verdict)
    ensures
        r == verdict_on(response.status, lowercase(response.body@), signer@),
{
    classify_lowercase(response.status, &to_lowercase(&response.body), signer)
}

impl Verdict {
    /// The verdict in words.
    pub open spec fn words(self) -> Seq<char> {
        match self {
            Verdict::Served => "SERVED. receipt accepted and paid for."@,
            Verdict::WireFormatVerified => "WIRE FORMAT VERIFIED. It decoded our receipt and recovered OUR address,\n   refusing only for escrow. Authorise this signer and fund it."@,
            Verdict::AddressMismatch => "ADDRESS MISMATCH. It recovered someone else, so the domain or encoding is\n   wrong. Check TAP_VERIFIER - funding will not fix this."@,
            Verdict::Denylisted => "DENYLISTED. Their tap-agent has not seen the escrow deposit yet, or has\n   denylisted this sender. Usually transient after funding - retry later."@,
            Verdict::ReceiptNotSeen => "RECEIPT NOT SEEN. Header name or encoding is wrong; funding would not help."@,
            Verdict::SignatureRejected => "SIGNATURE REJECTED. Domain, type hash or encoding is wrong."@,
            Verdict::Unrecognised => "Unrecognised rejection; read the body above."@,
        }
    }

    /// The verdict in words.
    pub fn explanation(&self) -> (r: &'static str)
        ensures
            r@ == self.words(),
    {
        match self {
            Verdict::Served => "SERVED. receipt accepted and paid for.",
            Verdict::WireFormatVerified => "WIRE FORMAT VERIFIED. It decoded our receipt and recovered OUR address,\n   refusing only for escrow. Authorise this signer and fund it.",
            Verdict::AddressMismatch => "ADDRESS MISMATCH. It recovered someone else, so the domain or encoding is\n   wrong. Check TAP_VERIFIER - funding will not fix this.",
            Verdict::Denylisted => "DENYLISTED. Their tap-agent has not seen the escrow deposit yet, or has\n   denylisted this sender. Usually transient after funding - retry later.",
            Verdict::ReceiptNotSeen => "RECEIPT NOT SEEN. Header name or encoding is wrong; funding would not help.",
            Verdict::SignatureRejected => "SIGNATURE REJECTED. Domain, type hash or encoding is wrong.",
            Verdict::Unrecognised => "Unrecognised rejection; read the body above.",
        }
    }
}

/// The wire format counts as verified only where the answer complains about escrow and names the
/// signer's own address.
pub proof fn verified_only_by_the_signers_address(status: u16, text: Seq<char>, signer: Seq<u8>)
    ensures
        verdict_on(status, text, signer) == Verdict::WireFormatVerified <==> status != 200
            && about_escrow(text) && occurs_in(hex_text(signer), text),
{
}

} // verus!
