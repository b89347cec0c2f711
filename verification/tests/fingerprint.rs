use reporteer::fingerprint::fingerprint_of_text;
use reporteer::fingerprint::initial_fingerprint;

#[test]
fn test_known_digest_abc() {
    assert_eq!(
        fingerprint_of_text("abc"),
        "ba7816bf8f01cfea414140de5dae2223b00361a396177a9cb410ff61f20015ad"
    );
}

#[test]
fn test_known_digest_empty() {
    assert_eq!(
        fingerprint_of_text(""),
        "e3b0c44298fc1c149afbf4c8996fb92427ae41e4649b934ca495991b7852b855"
    );
}

#[test]
fn test_fingerprint_deterministic() {
    // Fetching the same text twice yields the identical fingerprint.
    let first = fingerprint_of_text("the same secret");
    let second = fingerprint_of_text("the same secret");
    assert_eq!(first, second);
    assert_eq!(first.len(), 64);
    assert!(first.chars().all(|c| c.is_ascii_hexdigit() && !c.is_ascii_uppercase()));
}

#[test]
fn test_fingerprint_from_fetched_body() {
    let fetched = Some("abc".to_string());
    assert_eq!(
        initial_fingerprint(fetched),
        "ba7816bf8f01cfea414140de5dae2223b00361a396177a9cb410ff61f20015ad"
    );
}

#[test]
fn test_failed_fetch_degrades_to_sentinel() {
    assert_eq!(initial_fingerprint(None), "ERROR_FETCHING_KEY");
}
