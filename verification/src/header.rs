//! The text form of the `tap-receipt` header: base64 over the bytes of a message.
use base64::engine::general_purpose::STANDARD;
use base64::Engine;
use vstd::prelude::*;

verus! {

/// The character that stands for six bits.
pub open spec fn base64_char(sextet: int) -> char {
    if sextet < 26 {
        ('A' as int + sextet) as char
    } else if sextet < 52 {
        ('a' as int + (sextet - 26)) as char
    } else if sextet < 62 {
        ('0' as int + (sextet - 52)) as char
    } else if sextet == 62 {
        '+'
    } else {
        '/'
    }
}

/// The byte at a place, or zero behind the end.
pub open spec fn byte_or_zero(b: Seq<u8>, k: int) -> int {
    if k < b.len() {
        b[k] as int
    } else {
        0
    }
}

/// The six bits at place `i`: each three bytes are cut into four sextets, from the left.
pub open spec fn sextet(b: Seq<u8>, i: int) -> int {
    let k = 3 * (i / 4);
    if i % 4 == 0 {
        byte_or_zero(b, k) / 4
    } else if i % 4 == 1 {
        byte_or_zero(b, k) % 4 * 16 + byte_or_zero(b, k + 1) / 16
    } else if i % 4 == 2 {
        byte_or_zero(b, k + 1) % 16 * 4 + byte_or_zero(b, k + 2) / 64
    } else {
        byte_or_zero(b, k + 2) % 64
    }
}

/// The number of characters in the base64 form of `n` bytes.
pub open spec fn base64_len(n: nat) -> nat {
    4 * ((n + 2) / 3)
}

/// The base64 form of bytes, in the standard alphabet, padded with `=` to whole groups of four.
pub open spec fn base64_text(b: Seq<u8>) -> Seq<char> {
    Seq::new(
        base64_len(b.len()),
        |i: int|
            if 6 * i < 8 * b.len() {
                base64_char(sextet(b, i))
            } else {
                '='
            },
    )
}

/// The base64 form of a message, which is what the `tap-receipt` header carries.
///
/// NOT JSON. An indexer base64-decodes the header and then protobuf-decodes it. A JSON receipt
/// decodes to nothing recognisable and the query is treated as unpaid.
///
/// `encode` of the engine `STANDARD` of `base64`: the standard alphabet, with padding. It panics
/// where the text would be longer than memory can be.
#[verifier::external_body]
pub(crate) fn encode_header(bytes: &[u8]) -> (r: String)
    requires
        base64_len(bytes@.len()) <= isize::MAX,
    ensures
        r@ == base64_text(bytes@),
{
    STANDARD.encode(bytes)
}

#[verifier::external_type_specification]
#[verifier::external_body]
pub struct ExBase64Error(base64::DecodeError);

/// The bytes whose base64 form is a text.
///
/// `decode` of the engine `STANDARD` of `base64`: it demands the canonical padding and refuses
/// bits that are left over in the last character, so that it accepts exactly the texts that
/// `encode` gives.
#[verifier::external_body]
pub(crate) fn decode_header(text: &str) -> (r: Result<Vec<u8>, base64::DecodeError>)
    ensures
        match r {
            Ok(b) => base64_text(b@) == text@,
            Err(_) => forall|b: Seq<u8>| #[trigger] base64_text(b) != text@,
        },
{
    STANDARD.decode(text)
}

proof fn lemma_base64_char_injective(x: int, y: int)
    requires
        0 <= x < 64,
        0 <= y < 64,
        base64_char(x) == base64_char(y),
    ensures
        x == y,
{
}

proof fn lemma_base64_same_len(a: Seq<u8>, b: Seq<u8>)
    requires
        base64_text(a) == base64_text(b),
        a.len() <= b.len(),
    ensures
        a.len() == b.len(),
{
    assert(base64_text(a).len() == base64_len(a.len()));
    assert(base64_text(b).len() == base64_len(b.len()));
    if a.len() < b.len() {
        let n: int = a.len() as int;
        let m: int = b.len() as int;
        assert((n + 2) / 3 == (m + 2) / 3);
        let g = n / 3;
        let i: int = 4 * g + 1 + n % 3;
        assert(n == 3 * g + n % 3);
        assert(n % 3 != 0);
        assert(i < 4 * ((n + 2) / 3));
        assert(base64_text(a)[i] == '=');
        assert(0 <= sextet(b, i) < 64);
        assert(base64_text(b)[i] == base64_char(sextet(b, i)));
    }
}

proof fn lemma_base64_same_sextet(a: Seq<u8>, b: Seq<u8>, i: int)
    requires
        base64_text(a) == base64_text(b),
        a.len() == b.len(),
        0 <= i,
        6 * i < 8 * a.len(),
    ensures
        sextet(a, i) == sextet(b, i),
{
    assert(base64_text(a)[i] == base64_char(sextet(a, i)));
    assert(base64_text(b)[i] == base64_char(sextet(b, i)));
    lemma_base64_char_injective(sextet(a, i), sextet(b, i));
}

/// Two byte strings with one base64 form are the same byte string.
pub proof fn base64_is_injective(a: Seq<u8>, b: Seq<u8>)
    requires
        base64_text(a) == base64_text(b),
    ensures
        a == b,
{
    if a.len() <= b.len() {
        lemma_base64_same_len(a, b);
    } else {
        lemma_base64_same_len(b, a);
    }
    assert forall|k: int| 0 <= k < a.len() implies a[k] == b[k] by {
        let g = k / 3;
        if k % 3 == 0 {
            lemma_base64_same_sextet(a, b, 4 * g);
            lemma_base64_same_sextet(a, b, 4 * g + 1);
        } else if k % 3 == 1 {
            lemma_base64_same_sextet(a, b, 4 * g + 1);
            lemma_base64_same_sextet(a, b, 4 * g + 2);
        } else {
            lemma_base64_same_sextet(a, b, 4 * g + 2);
            lemma_base64_same_sextet(a, b, 4 * g + 3);
        }
    }
    assert(a =~= b);
}

} // verus!
