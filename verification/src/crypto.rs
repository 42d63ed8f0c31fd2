//! Digests, random tokens, hex encoding and constant-time comparison.
//!
//! The SHA-256 and HMAC-SHA-256 computations are performed by the `sha2` and
//! `hmac` crates behind trusted wrappers; their results are named by
//! uninterpreted spec functions, since the algorithms themselves are not
//! restated here. Hex encoding and the constant-time byte comparison are
//! implemented and verified in this module.

use vstd::prelude::*;
use vstd::string::StringSliceAdditionalSpecFns;

verus! {

/// The SHA-256 digest of a byte sequence, as computed by the `sha2` crate.
pub uninterp spec fn sha256_of(data: Seq<u8>) -> Seq<u8>;

/// The HMAC-SHA-256 tag for a key and a message, as computed by the `hmac`
/// crate over `sha2`.
pub uninterp spec fn hmac_sha256_of(key: Seq<u8>, msg: Seq<u8>) -> Seq<u8>;

/// Relies on sha2's `Sha256`: the digest is a function of the input alone
/// and is 32 bytes long.
#[verifier::external_body]
pub fn sha256(data: &[u8]) -> (r: Vec<u8>)
    ensures
        r@ == sha256_of(data@),
        r@.len() == 32,
{
    <sha2::Sha256 as sha2::Digest>::digest(data).to_vec()
}

/// Relies on hmac's `Hmac<Sha256>`: the tag is a function of the key and the
/// message alone and is 32 bytes long. Keys of any length are accepted, so
/// `new_from_slice` cannot fail.
#[verifier::external_body]
pub fn hmac_sha256(key: &[u8], msg: &[u8]) -> (r: Vec<u8>)
    ensures
        r@ == hmac_sha256_of(key@, msg@),
        r@.len() == 32,
{
    let mut mac = <hmac::Hmac<sha2::Sha256> as hmac::KeyInit>::new_from_slice(key)
        .expect("HMAC accepts keys of any length");
    hmac::Mac::update(&mut mac, msg);
    hmac::Mac::finalize(mac).into_bytes().to_vec()
}

/// Relies on rand's thread-local generator to fill a fresh buffer. Nothing
/// is assumed of the bytes beyond their count.
#[verifier::external_body]
fn random_bytes_32() -> (r: Vec<u8>)
    ensures
        r@.len() == 32,
{
    let mut bytes = vec![0u8; 32];
    rand::Rng::fill_bytes(&mut rand::rng(), &mut bytes);
    bytes
}

/// Relies on std's `String::push`: appends the given char to the end of the
/// string.
#[verifier::external_body]
pub(crate) fn push_char(s: &mut String, c: char)
    ensures
        final(s)@ == old(s)@.push(c),
{
    s.push(c)
}

/// The lowercase hex digit for a nibble value; values 16 and above all map
/// to `'f'` so that the function is total.
pub open spec fn hex_digit_lower(d: u8) -> char {
    if d == 0 {
        '0'
    } else if d == 1 {
        '1'
    } else if d == 2 {
        '2'
    } else if d == 3 {
        '3'
    } else if d == 4 {
        '4'
    } else if d == 5 {
        '5'
    } else if d == 6 {
        '6'
    } else if d == 7 {
        '7'
    } else if d == 8 {
        '8'
    } else if d == 9 {
        '9'
    } else if d == 10 {
        'a'
    } else if d == 11 {
        'b'
    } else if d == 12 {
        'c'
    } else if d == 13 {
        'd'
    } else if d == 14 {
        'e'
    } else {
        'f'
    }
}

/// Lowercase hex encoding of a byte sequence: two digits per byte, high
/// nibble first.
pub open spec fn hex_of(data: Seq<u8>) -> Seq<char>
    decreases data.len(),
{
    if data.len() == 0 {
        Seq::empty()
    } else {
        seq![hex_digit_lower(data.first() / 16), hex_digit_lower(data.first() % 16)] + hex_of(
            data.drop_first(),
        )
    }
}

/// Whether a char is a lowercase hex digit.
pub open spec fn is_lower_hex_char(c: char) -> bool {
    (48 <= c as u32 && c as u32 <= 57) || (97 <= c as u32 && c as u32 <= 102)
}

/// Every char of a hex encoding is a lowercase hex digit, and the encoding
/// is twice as long as its input.
pub proof fn lemma_hex_of_props(data: Seq<u8>)
    ensures
        hex_of(data).len() == 2 * data.len(),
        forall|i: int| 0 <= i < hex_of(data).len() ==> is_lower_hex_char(#[trigger] hex_of(data)[i]),
    decreases data.len(),
{
    if data.len() > 0 {
        lemma_hex_of_props(data.drop_first());
    }
}

fn hex_char_lower(d: u8) -> (c: char)
    requires
        d < 16,
    ensures
        c == hex_digit_lower(d),
{
    match d {
        0 => '0',
        1 => '1',
        2 => '2',
        3 => '3',
        4 => '4',
        5 => '5',
        6 => '6',
        7 => '7',
        8 => '8',
        9 => '9',
        10 => 'a',
        11 => 'b',
        12 => 'c',
        13 => 'd',
        14 => 'e',
        _ => 'f',
    }
}

/// Encode bytes as lowercase hex, two digits per byte.
pub fn to_hex_lower(data: &[u8]) -> (r: String)
    ensures
        r@ == hex_of(data@),
        r@.len() == 2 * data@.len(),
{
    let mut r = String::new();
    let n = data.len();
    assert(data@.skip(0) == data@);
    for i in 0..n
        invariant
            n == data@.len(),
            hex_of(data@) =~= r@ + hex_of(data@.skip(i as int)),
            r@.len() == 2 * i,
    {
        let b = data[i];
        push_char(&mut r, hex_char_lower(b / 16));
        push_char(&mut r, hex_char_lower(b % 16));
        assert(data@.skip(i as int).drop_first() == data@.skip(i + 1));
    }
    proof {
        lemma_hex_of_props(data@);
    }
    r
}

/// Compare two byte slices without an early exit on the first differing
/// byte, so that the comparison takes the same time for all unequal inputs
/// of a given length.
pub fn constant_time_eq(a: &[u8], b: &[u8]) -> (r: bool)
    ensures
        r == (a@ == b@),
{
    if a.len() != b.len() {
        assert(a@ != b@);
        return false;
    }
    let n = a.len();
    let mut acc: u8 = 0;
    for i in 0..n
        invariant
            n == a@.len() && n == b@.len(),
            (acc == 0) <==> (a@.subrange(0, i as int) =~= b@.subrange(0, i as int)),
    {
        let x = a[i];
        let y = b[i];
        let ghost old_acc = acc;
        acc = acc | (x ^ y);
        proof {
            assert((old_acc | (x ^ y)) == 0 <==> (old_acc == 0 && x == y)) by (bit_vector);
            if acc == 0 {
                assert(a@.subrange(0, i + 1) =~= b@.subrange(0, i + 1));
            } else if old_acc == 0 {
                assert(a@.subrange(0, i + 1)[i as int] != b@.subrange(0, i + 1)[i as int]);
            } else {
                let j = choose|j: int|
                    0 <= j < i && a@.subrange(0, i as int)[j] != b@.subrange(0, i as int)[j];
                assert(a@.subrange(0, i + 1)[j] != b@.subrange(0, i + 1)[j]);
            }
        }
    }
    proof {
        assert(a@.subrange(0, n as int) =~= a@);
        assert(b@.subrange(0, n as int) =~= b@);
    }
    acc == 0
}

/// A fresh random token: 32 random bytes, hex-encoded. Each call may return
/// a different value; only the shape of the result is stated.
pub fn generate_token() -> (t: String)
    ensures
        t@.len() == 64,
        forall|i: int| 0 <= i < t@.len() ==> is_lower_hex_char(#[trigger] t@[i]),
{
    let bytes = random_bytes_32();
    proof {
        lemma_hex_of_props(bytes@);
    }
    to_hex_lower(bytes.as_slice())
}

/// The lowercase hex SHA-256 digest of a string's UTF-8 bytes.
pub fn sha256_hash(value: &str) -> (h: String)
    ensures
        h@ == hex_of(sha256_of(value.spec_bytes())),
        h@.len() == 64,
{
    let digest = sha256(value.as_bytes());
    proof {
        lemma_hex_of_props(digest@);
    }
    to_hex_lower(digest.as_slice())
}

/// The hashed form under which a magic-link token is stored; identical to
/// `sha256_hash`.
pub fn hash_token(token: &str) -> (h: String)
    ensures
        h@ == hex_of(sha256_of(token.spec_bytes())),
        h@.len() == 64,
{
    sha256_hash(token)
}

} // verus!
