use sendme::hex::short_hex;

#[test]
fn short_hex_shows_the_first_bytes() {
    assert_eq!(short_hex(&[0x00, 0x0f, 0xa5, 0xff], 3), "000fa5");
}
