use server_updater::backend::BackendKind;
use server_updater::digest::{
    check_digest, compute_digest, digest_matches, same_hex, to_upper_hex, verify_contents,
    HashAlgorithm, IntegrityError,
};
use server_updater::paper;
use server_updater::purpur;

const SHA256_ABC: &str = "BA7816BF8F01CFEA414140DE5DAE2223B00361A396177A9CB410FF61F20015AD";
const SHA256_EMPTY: &str = "E3B0C44298FC1C149AFBF4C8996FB92427AE41E4649B934CA495991B7852B855";
const MD5_ABC: &str = "900150983CD24FB0D6963F7D28E17F72";
const MD5_EMPTY: &str = "D41D8CD98F00B204E9800998ECF8427E";

#[test]
fn sha256_of_known_data() {
    assert_eq!(to_upper_hex(&compute_digest(HashAlgorithm::Sha256, b"abc")), SHA256_ABC);
    assert_eq!(to_upper_hex(&compute_digest(HashAlgorithm::Sha256, b"")), SHA256_EMPTY);
    assert_eq!(compute_digest(HashAlgorithm::Sha256, b"abc").len(), 32);
}

#[test]
fn md5_of_known_data() {
    assert_eq!(to_upper_hex(&compute_digest(HashAlgorithm::Md5, b"abc")), MD5_ABC);
    assert_eq!(to_upper_hex(&compute_digest(HashAlgorithm::Md5, b"")), MD5_EMPTY);
    assert_eq!(compute_digest(HashAlgorithm::Md5, b"abc").len(), 16);
}

#[test]
fn bytes_in_upper_case_hexadecimal() {
    assert_eq!(to_upper_hex(&[]), "");
    assert_eq!(to_upper_hex(&[0]), "00");
    assert_eq!(to_upper_hex(&[0x0f, 0xf0, 0xff]), "0FF0FF");
    assert_eq!(
        to_upper_hex(&[0x01, 0x23, 0x45, 0x67, 0x89, 0xab, 0xcd, 0xef]),
        "0123456789ABCDEF"
    );
    let all: Vec<u8> = (0..=255).collect();
    let expected: String = all.iter().map(|b| format!("{:02X}", b)).collect();
    assert_eq!(to_upper_hex(&all), expected);
}

#[test]
fn hexadecimal_is_compared_in_either_case() {
    assert!(same_hex("", ""));
    assert!(same_hex("0a1B", "0A1b"));
    assert!(same_hex("abcdef", "ABCDEF"));
    assert!(!same_hex("ab", "abc"));
    assert!(!same_hex("ab", "ac"));
    assert!(!same_hex("g", "G"));
    assert!(!same_hex("x1", "X1"));
}

#[test]
fn digest_matches_its_hexadecimal_in_either_case() {
    let digest = [0xde, 0xad, 0xbe, 0xef];
    assert!(digest_matches(&digest, "DEADBEEF"));
    assert!(digest_matches(&digest, "deadbeef"));
    assert!(digest_matches(&digest, "DeadBeef"));
    assert!(!digest_matches(&digest, "DEADBEEE"));
    assert!(!digest_matches(&digest, "DEADBEE"));
    assert!(!digest_matches(&digest, "DEADBEEF0"));
    assert!(!digest_matches(&digest, "DEADBEEF00"));
    assert!(!digest_matches(&digest, ""));
    assert!(!digest_matches(&digest, " DEADBEEF"));
    assert!(!digest_matches(&digest, "DÉADBEEF"));
    assert!(digest_matches(&[], ""));
}

#[test]
fn checked_digest_reports_what_it_found() {
    assert_eq!(check_digest(&[0x12, 0xab], "12ab"), Ok(()));
    assert_eq!(
        check_digest(&[0x12, 0xab], "12ac"),
        Err(IntegrityError { actual: "12AB".to_string() })
    );
}

#[test]
fn artifact_with_the_published_sha256_is_accepted() {
    assert_eq!(paper::verify_binary(b"abc", SHA256_ABC), Ok(()));
    assert_eq!(paper::verify_binary(b"abc", &SHA256_ABC.to_lowercase()), Ok(()));
    assert_eq!(paper::verify_binary(b"", SHA256_EMPTY), Ok(()));
    assert_eq!(verify_contents(HashAlgorithm::Sha256, b"abc", SHA256_ABC), Ok(()));
    assert_eq!(BackendKind::Paper.verify(b"abc", SHA256_ABC), Ok(()));
}

#[test]
fn artifact_with_another_sha256_is_refused() {
    let refused = Err(IntegrityError { actual: SHA256_ABC.to_string() });
    assert_eq!(paper::verify_binary(b"abc", SHA256_EMPTY), refused);
    assert_eq!(paper::verify_binary(b"abc", MD5_ABC), refused);
    assert_eq!(paper::verify_binary(b"abc", ""), refused);
    assert_eq!(paper::verify_binary(b"abc", "abc"), refused);
    assert_eq!(
        paper::verify_binary(b"abd", SHA256_ABC).unwrap_err().actual,
        "A52D159F262B2C6DDB724A61840BEFC36EB30C88877A4030B65CBE86298449C9"
    );
}

#[test]
fn artifact_with_the_published_md5_is_accepted() {
    assert_eq!(purpur::verify_binary(b"abc", MD5_ABC), Ok(()));
    assert_eq!(purpur::verify_binary(b"abc", &MD5_ABC.to_lowercase()), Ok(()));
    assert_eq!(purpur::verify_binary(b"", MD5_EMPTY), Ok(()));
    assert_eq!(verify_contents(HashAlgorithm::Md5, b"abc", MD5_ABC), Ok(()));
    assert_eq!(BackendKind::Purpur.verify(b"abc", MD5_ABC), Ok(()));
}

#[test]
fn artifact_with_another_md5_is_refused() {
    let refused = Err(IntegrityError { actual: MD5_ABC.to_string() });
    assert_eq!(purpur::verify_binary(b"abc", MD5_EMPTY), refused);
    assert_eq!(purpur::verify_binary(b"abc", SHA256_ABC), refused);
    assert_eq!(purpur::verify_binary(b"abc", ""), refused);
}
