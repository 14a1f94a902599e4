use wg_manager::qr::{qrcode_png, QR_MIN_SIZE};

#[test]
fn qr_code_is_a_png_image() {
    let png = qrcode_png("[Interface]\nPrivateKey = abc\n").unwrap();
    assert_eq!(&png[..8], &[0x89, b'P', b'N', b'G', 0x0d, 0x0a, 0x1a, 0x0a]);
    let width = u32::from_be_bytes([png[16], png[17], png[18], png[19]]);
    let height = u32::from_be_bytes([png[20], png[21], png[22], png[23]]);
    assert!(width >= QR_MIN_SIZE && height >= QR_MIN_SIZE);
    assert_ne!(png, b"[Interface]\nPrivateKey = abc\n".to_vec());
}

#[test]
fn too_much_data_is_an_error() {
    let big = "x".repeat(8000);
    assert!(qrcode_png(&big).is_err());
}
