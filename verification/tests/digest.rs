use nota::digest::{lower_hex_chars, sha256_hex, short_identifier, upload_checksum};

#[test]
fn digests_are_lower_hex_sha256() {
    assert_eq!(
        sha256_hex(b"abc"),
        "ba7816bf8f01cfea414140de5dae2223b00361a396177a9cb410ff61f20015ad"
    );
    assert_eq!(
        upload_checksum(b"abc"),
        "sha256=ba7816bf8f01cfea414140de5dae2223b00361a396177a9cb410ff61f20015ad"
    );
}

#[test]
fn identifiers_are_the_first_twelve_hex_digits() {
    assert_eq!(short_identifier("abc"), "ba7816bf8f01");
}

#[test]
fn hex_is_two_digits_per_byte() {
    let hex: String = lower_hex_chars(&[0x00, 0x0f, 0xab, 0xff]).into_iter().collect();
    assert_eq!(hex, "000fabff");
}
