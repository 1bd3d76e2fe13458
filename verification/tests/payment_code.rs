use mojom_parser::pix::{PixQrCodeType, ValidCodeKind};

#[test]
fn reported_kind_of_a_payment_code() {
    assert_eq!(PixQrCodeType::from(None), PixQrCodeType::Invalid);
    assert_eq!(PixQrCodeType::from(Some(ValidCodeKind::Dynamic)), PixQrCodeType::Dynamic);
    assert_eq!(PixQrCodeType::from(Some(ValidCodeKind::Static)), PixQrCodeType::Static);
}
