use blog_api::crypto::constant_time_eq;
use blog_api::crypto::generate_token;
use blog_api::crypto::hash_token;
use blog_api::crypto::sha256;
use blog_api::crypto::sha256_hash;
use blog_api::crypto::to_hex_lower;

#[test]
fn hex_encoding_matches_reference() {
    let data = [0x00u8, 0x01, 0x0f, 0x10, 0x7f, 0x80, 0xab, 0xcd, 0xef, 0xff];
    assert_eq!(to_hex_lower(&data), hex::encode(data));
    assert_eq!(to_hex_lower(&[]), "");
    assert_eq!(to_hex_lower(&[0xbe, 0xef]), "beef");
}

#[test]
fn sha256_digest_of_known_vectors() {
    assert_eq!(
        sha256_hash(""),
        "e3b0c44298fc1c149afbf4c8996fb92427ae41e4649b934ca495991b7852b855"
    );
    assert_eq!(
        sha256_hash("abc"),
        "ba7816bf8f01cfea414140de5dae2223b00361a396177a9cb410ff61f20015ad"
    );
}

#[test]
fn sha256_wrapper_matches_direct_use() {
    let digest = sha256(b"hello world");
    let direct = <sha2::Sha256 as sha2::Digest>::digest(b"hello world");
    assert_eq!(digest.as_slice(), direct.as_slice());
    assert_eq!(digest.len(), 32);
}

#[test]
fn hash_token_is_hex_sha256() {
    assert_eq!(hash_token("token"), sha256_hash("token"));
    assert_eq!(hash_token("token").len(), 64);
}

#[test]
fn constant_time_eq_decides_equality() {
    assert!(constant_time_eq(b"", b""));
    assert!(constant_time_eq(b"abc", b"abc"));
    assert!(!constant_time_eq(b"abc", b"abd"));
    assert!(!constant_time_eq(b"abc", b"ab"));
    assert!(!constant_time_eq(b"", b"x"));
    assert!(!constant_time_eq(b"\x00\x01", b"\x01\x00"));
}

#[test]
fn generated_tokens_are_64_hex_chars() {
    let t1 = generate_token();
    let t2 = generate_token();
    assert_eq!(t1.len(), 64);
    assert_eq!(t2.len(), 64);
    assert!(t1.chars().all(|c| c.is_ascii_hexdigit() && !c.is_uppercase()));
    assert_ne!(t1, t2);
}
