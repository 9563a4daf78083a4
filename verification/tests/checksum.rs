use campus_login::checksum::{download_digest_feed, download_digest_matches, download_digest_start};

const ABC_SHA256: &str = "ba7816bf8f01cfea414140de5dae2223b00361a396177a9cb410ff61f20015ad";

#[test]
fn streamed_digest_matches_known_value() {
    let mut s = download_digest_start();
    download_digest_feed(&mut s, b"a");
    download_digest_feed(&mut s, b"bc");
    assert!(download_digest_matches(s, ABC_SHA256));
}

#[test]
fn digest_check_tolerates_case_and_file_name() {
    let mut s = download_digest_start();
    download_digest_feed(&mut s, b"abc");
    let line = format!("{}  app.apk", ABC_SHA256.to_uppercase());
    assert!(download_digest_matches(s, &line));
}

#[test]
fn digest_mismatch_is_detected() {
    let mut s = download_digest_start();
    download_digest_feed(&mut s, b"abd");
    assert!(!download_digest_matches(s, ABC_SHA256));
}

#[test]
fn empty_input_digest() {
    let s = download_digest_start();
    assert!(download_digest_matches(s, "e3b0c44298fc1c149afbf4c8996fb92427ae41e4649b934ca495991b7852b855"));
}

#[test]
fn unusable_checksum_skips_the_check() {
    let mut s = download_digest_start();
    download_digest_feed(&mut s, b"anything");
    assert!(download_digest_matches(s, "not-hex"));
}
