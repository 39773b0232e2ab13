use vstd::prelude::*;

verus! {

/// The SHA-256 digest of the UTF-8 encoding of a text.
pub uninterp spec fn sha256_of(text: Seq<char>) -> Seq<u8>;

/// Relies on sha2's `Sha256::digest` (through the `Digest` trait): the
/// digest of the text's UTF-8 bytes, whose output size is 32 bytes.
#[verifier::external_body]
fn sha256_digest(text: &str) -> (r: Vec<u8>)
    ensures
        r@ == sha256_of(text@),
        r@.len() == 32,
{
    <sha2::Sha256 as sha2::Digest>::digest(text.as_bytes()).to_vec()
}

/// Relies on `String::push`: appends one character at the end.
#[verifier::external_body]
fn push_char(s: &mut String, c: char)
    ensures
        final(s)@ == old(s)@.push(c),
{
    s.push(c);
}

/// Lowercase hexadecimal digit of a value below 16.
pub open spec fn hex_digit(n: u8) -> char {
    match n {
        0 => '0',
        1 => '1',
        2 => '2',
        3 => '3',
        4 => '4',
        5 => '5',
        6 => '6',
        7 => '7',
        8 => '8',
        9 => '9',
        10 => 'a',
        11 => 'b',
        12 => 'c',
        13 => 'd',
        14 => 'e',
        _ => 'f',
    }
}

pub open spec fn is_lower_hex_char(c: char) -> bool {
    ('0' <= c && c <= '9') || ('a' <= c && c <= 'f')
}

/// Two lowercase hex digits per byte, high nibble first.
pub open spec fn lower_hex(bytes: Seq<u8>) -> Seq<char> {
    Seq::new(
        2 * bytes.len(),
        |i: int|
            if i % 2 == 0 {
                hex_digit(bytes[i / 2] / 16)
            } else {
                hex_digit(bytes[i / 2] % 16)
            },
    )
}

/// The fingerprint of a text: its SHA-256 digest in lowercase hex.
pub open spec fn fingerprint(text: Seq<char>) -> Seq<char> {
    lower_hex(sha256_of(text))
}

fn nibble_digit(n: u8) -> (r: char)
    requires
        n < 16,
    ensures
        r == hex_digit(n),
{
    match n {
        0 => '0',
        1 => '1',
        2 => '2',
        3 => '3',
        4 => '4',
        5 => '5',
        6 => '6',
        7 => '7',
        8 => '8',
        9 => '9',
        10 => 'a',
        11 => 'b',
        12 => 'c',
        13 => 'd',
        14 => 'e',
        _ => 'f',
    }
}

/// Every character of a hex encoding is a lowercase hex digit.
pub proof fn lemma_lower_hex_chars(bytes: Seq<u8>)
    ensures
        lower_hex(bytes).len() == 2 * bytes.len(),
        forall|i: int| 0 <= i < lower_hex(bytes).len() ==> is_lower_hex_char(#[trigger] lower_hex(bytes)[i]),
{
    assert forall|i: int| 0 <= i < lower_hex(bytes).len() implies is_lower_hex_char(#[trigger] lower_hex(bytes)[i]) by {
        let b = bytes[i / 2];
        assert(b / 16 < 16);
    }
}

/// Lowercase hexadecimal text of a byte sequence.
pub fn to_lower_hex(bytes: &Vec<u8>) -> (r: String)
    requires
        bytes@.len() <= usize::MAX / 2,
    ensures
        r@ == lower_hex(bytes@),
{
    let mut out = String::new();
    let mut k: usize = 0;
    while k < bytes.len()
        invariant
            k <= bytes@.len() <= usize::MAX / 2,
            out@ =~= lower_hex(bytes@.take(k as int)),
        decreases bytes@.len() - k,
    {
        let b = bytes[k];
        push_char(&mut out, nibble_digit(b / 16));
        push_char(&mut out, nibble_digit(b % 16));
        proof {
            assert(bytes@.take(k as int + 1) =~= bytes@.take(k as int).push(b));
        }
        assert(out@ =~= lower_hex(bytes@.take(k as int + 1)));
        k = k + 1;
    }
    assert(bytes@.take(k as int) =~= bytes@);
    out
}

/// Tamper-evident fingerprint of a payload: the SHA-256 digest of its
/// UTF-8 bytes as 64 lowercase hex digits.
pub fn generate_evidence_hash(data: &str) -> (r: String)
    ensures
        r@ == fingerprint(data@),
        r@.len() == 64,
        forall|i: int| 0 <= i < r@.len() ==> is_lower_hex_char(#[trigger] r@[i]),
{
    let digest = sha256_digest(data);
    let r = to_lower_hex(&digest);
    proof {
        lemma_lower_hex_chars(digest@);
    }
    r
}

/// Fingerprints are deterministic: the same text always gives the same
/// fingerprint, so two hashings of one payload agree character for character.
pub proof fn lemma_fingerprint_deterministic(a: Seq<char>, b: Seq<char>)
    requires
        a == b,
    ensures
        fingerprint(a) == fingerprint(b),
{
}

/// Caller-populated audit metadata around a fingerprint.
pub struct EvidenceHeader {
    pub hash: String,
    /// Bit pattern of the double-precision timestamp that the caller supplies.
    pub timestamp: u64,
    pub device_id: String,
}

} // verus!
