//! SHA-512 digests rendered as lowercase hexadecimal, and digest comparison.
use vstd::prelude::*;

verus! {

/// What SHA-512 yields for a byte sequence.
pub uninterp spec fn sha512_of(bytes: Seq<u8>) -> Seq<u8>;

/// The sixteen lowercase hexadecimal digits, in order of value.
pub open spec fn hex_alphabet() -> Seq<char> {
    seq!['0', '1', '2', '3', '4', '5', '6', '7', '8', '9', 'a', 'b', 'c', 'd', 'e', 'f']
}

/// Two lowercase hex digits per byte, high nibble first.
pub open spec fn hex_lower(bytes: Seq<u8>) -> Seq<char>
    decreases bytes.len(),
{
    if bytes.len() == 0 {
        Seq::empty()
    } else {
        let b = bytes.last();
        hex_lower(bytes.drop_last()) + seq![
            hex_alphabet()[(b / 16) as int],
            hex_alphabet()[(b % 16) as int],
        ]
    }
}

/// The digest of a byte sequence as the pipeline compares it.
pub open spec fn digest_of(bytes: Seq<u8>) -> Seq<char> {
    hex_lower(sha512_of(bytes))
}

pub open spec fn is_lower_hex_digit(c: char) -> bool {
    ('0' <= c && c <= '9') || ('a' <= c && c <= 'f')
}

pub open spec fn is_ascii_upper(c: char) -> bool {
    'A' <= c && c <= 'Z'
}

/// Equal characters, or one an ASCII capital and the other its small letter.
pub open spec fn chars_match(a: char, b: char) -> bool {
    a == b || (is_ascii_upper(a) && a as u32 + 32 == b as u32) || (is_ascii_upper(b)
        && b as u32 + 32 == a as u32)
}

/// Digest equality, ignoring ASCII case and nothing else.
pub open spec fn digests_match(a: Seq<char>, b: Seq<char>) -> bool {
    a.len() == b.len() && forall|i: int| 0 <= i < a.len() ==> chars_match(#[trigger] a[i], b[i])
}

/// Relies on sha2's `Sha512::digest`: the 64-byte SHA-512 of the input.
#[verifier::external_body]
fn sha512(data: &[u8]) -> (r: Vec<u8>)
    ensures
        r@ == sha512_of(data@),
        r@.len() == 64,
{
    <sha2::Sha512 as sha2::Digest>::digest(data).to_vec()
}

/// The hex rendering has two characters per byte, each a lowercase hex digit.
pub proof fn lemma_hex_lower_shape(bytes: Seq<u8>)
    ensures
        hex_lower(bytes).len() == 2 * bytes.len(),
        forall|i: int| 0 <= i < hex_lower(bytes).len() ==> is_lower_hex_digit(#[trigger] hex_lower(bytes)[i]),
    decreases bytes.len(),
{
    if bytes.len() > 0 {
        lemma_hex_lower_shape(bytes.drop_last());
        let b = bytes.last();
        assert(0 <= b / 16 < 16 && 0 <= b % 16 < 16);
        let h = hex_lower(bytes);
        let p = hex_lower(bytes.drop_last());
        assert forall|i: int| 0 <= i < h.len() implies is_lower_hex_digit(#[trigger] h[i]) by {
            if i < p.len() {
                assert(h[i] == p[i]);
            } else {
                let d = if i == p.len() { b / 16 } else { b % 16 };
                assert(h[i] == hex_alphabet()[d as int]);
                assert(is_lower_hex_digit(hex_alphabet()[d as int])) by {
                    assert(0 <= d < 16);
                }
            }
        }
    }
}

/// Renders bytes as lowercase hexadecimal, two digits per byte.
pub fn hex_encode(bytes: &[u8]) -> (r: String)
    ensures
        r@ == hex_lower(bytes@),
{
    let alphabet = "0123456789abcdef";
    proof {
        reveal_strlit("0123456789abcdef");
        assert(alphabet@ =~= hex_alphabet());
    }
    let mut out = String::new();
    let mut i: usize = 0;
    while i < bytes.len()
        invariant
            i <= bytes@.len(),
            alphabet@ == hex_alphabet(),
            out@ == hex_lower(bytes@.subrange(0, i as int)),
        decreases bytes@.len() - i,
    {
        let b = bytes[i];
        let hi = (b / 16) as usize;
        let lo = (b % 16) as usize;
        out.append(alphabet.substring_char(hi, hi + 1));
        out.append(alphabet.substring_char(lo, lo + 1));
        proof {
            let prefix = bytes@.subrange(0, i as int + 1);
            assert(prefix.drop_last() =~= bytes@.subrange(0, i as int));
            assert(prefix.last() == b);
            assert(alphabet@.subrange(hi as int, hi + 1) =~= seq![hex_alphabet()[hi as int]]);
            assert(alphabet@.subrange(lo as int, lo + 1) =~= seq![hex_alphabet()[lo as int]]);
            assert(out@ =~= hex_lower(prefix));
        }
        i = i + 1;
    }
    proof {
        assert(bytes@.subrange(0, i as int) =~= bytes@);
    }
    out
}

/// The SHA-512 digest of `bytes` as 128 lowercase hex digits.
pub fn digest(bytes: &[u8]) -> (r: String)
    ensures
        r@ == digest_of(bytes@),
        r@.len() == 128,
        forall|i: int| 0 <= i < r@.len() ==> is_lower_hex_digit(#[trigger] r@[i]),
{
    let hash = sha512(bytes);
    proof {
        lemma_hex_lower_shape(hash@);
    }
    hex_encode(hash.as_slice())
}

/// Digests are a function of the bytes alone: equal inputs give equal digests.
pub proof fn lemma_digest_deterministic(x: Seq<u8>, y: Seq<u8>)
    requires
        x == y,
    ensures
        digest_of(x) == digest_of(y),
{
}

/// Compares a computed digest with an expected one, ignoring ASCII case only.
pub fn digest_matches(computed: &str, expected: &str) -> (r: bool)
    ensures
        r == digests_match(computed@, expected@),
{
    let n = computed.unicode_len();
    if n != expected.unicode_len() {
        return false;
    }
    let mut i: usize = 0;
    while i < n
        invariant
            n == computed@.len(),
            n == expected@.len(),
            i <= n,
            forall|j: int| 0 <= j < i ==> chars_match(#[trigger] computed@[j], expected@[j]),
        decreases n - i,
    {
        let a = computed.get_char(i);
        let b = expected.get_char(i);
        let ok = a == b || ('A' <= a && a <= 'Z' && a as u32 + 32 == b as u32) || ('A' <= b && b
            <= 'Z' && b as u32 + 32 == a as u32);
        if !ok {
            return false;
        }
        i = i + 1;
    }
    true
}

} // verus!
