use hrs3300::{AdcResolution, EnableRegField, HgainRegField, PDriverRegField, Register, ResRegField};

#[test]
fn register_addresses_are_bit_exact() {
    assert_eq!(Register::ID.addr(), 0x00);
    assert_eq!(Register::ENABLE.addr(), 0x01);
    assert_eq!(Register::C1DATAM.addr(), 0x08);
    assert_eq!(Register::C0DATAM.addr(), 0x09);
    assert_eq!(Register::C0DATAH.addr(), 0x0A);
    assert_eq!(Register::PDRIVER.addr(), 0x0C);
    assert_eq!(Register::C1DATAH.addr(), 0x0D);
    assert_eq!(Register::C1DATAL.addr(), 0x0E);
    assert_eq!(Register::C0DATAL.addr(), 0x0F);
    assert_eq!(Register::RES.addr(), 0x16);
    assert_eq!(Register::HGAIN.addr(), 0x17);
}

#[test]
fn bit_field_masks_are_bit_exact() {
    assert_eq!(EnableRegField::HEN.mask(), 1 << 7);
    assert_eq!(EnableRegField::HWT.mask(), 0b111 << 4);
    assert_eq!(EnableRegField::PDRIVE1.mask(), 1 << 3);
    assert_eq!(PDriverRegField::PDRIVE0.mask(), 1 << 6);
    assert_eq!(PDriverRegField::PON.mask(), 1 << 5);
    assert_eq!(ResRegField::AlsRes.mask(), 0b1111);
    assert_eq!(HgainRegField::HGAIN.mask(), 0b111 << 2);
}

#[test]
fn resolution_codes_match_device_encoding() {
    let codes = [
        (AdcResolution::Bits8, 0u8),
        (AdcResolution::Bits9, 1),
        (AdcResolution::Bits10, 2),
        (AdcResolution::Bits11, 3),
        (AdcResolution::Bits12, 4),
        (AdcResolution::Bits13, 5),
        (AdcResolution::Bits14, 6),
        (AdcResolution::Bits15, 7),
        (AdcResolution::Bits16, 8),
        (AdcResolution::Bits17, 9),
        (AdcResolution::Bits18, 10),
    ];
    for (resolution, code) in codes {
        assert_eq!(resolution.code(), code);
    }
}
