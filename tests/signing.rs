use tieba_sign::session::{cookie_value, sign_body};
use tieba_sign::sign::{digest_hex, sign, signing_text};

#[test]
fn signing_text_wraps_forum_and_verifier() {
    assert_eq!(signing_text("alpha", "XYZ"), "kw=alphatbs=XYZtiebaclient!!!");
}

#[test]
fn digest_hex_two_lowercase_digits_per_byte() {
    assert_eq!(digest_hex(&[0x00, 0x0f, 0xa5, 0xff]), "000fa5ff");
    assert_eq!(digest_hex(&[]), "");
}

#[test]
fn digest_hex_of_known_digest() {
    let digest: [u8; 16] = [144, 1, 80, 152, 60, 210, 79, 176, 214, 150, 63, 125, 40, 225, 127, 114];
    assert_eq!(digest_hex(&digest), "900150983cd24fb0d6963f7d28e17f72");
}

#[test]
fn sign_is_md5_of_signing_text() {
    assert_eq!(sign("alpha", "XYZ"), "a927c27d7f74ab9265b0e74b4b304228");
    assert_eq!(sign("beta", "XYZ"), "67b608993ee3b63aaa8eba2c28147a10");
}

#[test]
fn sign_hashes_utf8_bytes() {
    assert_eq!(sign("贴吧", "abc"), "f538cfdf571b3362a83970d3f85360c3");
}

#[test]
fn sign_is_reproducible() {
    let a = sign("some forum", "tbs-value");
    let b = sign("some forum", "tbs-value");
    assert_eq!(a, b);
    assert_eq!(a.len(), 32);
    assert!(a.chars().all(|c| c.is_ascii_hexdigit() && !c.is_ascii_uppercase()));
    assert_ne!(a, sign("some forum", "other"));
}

#[test]
fn sign_body_carries_forum_verifier_and_signature() {
    assert_eq!(
        sign_body("alpha", "XYZ"),
        "kw=alpha&tbs=XYZ&sign=a927c27d7f74ab9265b0e74b4b304228"
    );
}

#[test]
fn cookie_value_prefixes_token() {
    assert_eq!(cookie_value("tokA"), "BDUSS=tokA");
    assert_eq!(cookie_value(""), "BDUSS=");
}
