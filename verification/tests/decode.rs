use hrs3300::decode_raw_sample;

#[test]
fn it_works() {
    assert_eq!(2 + 2, 4);
}

#[test]
fn decode_ambient_only_block() {
    let block = [0x02, 0x00, 0x00, 0x00, 0x00, 0x00, 0x00];
    let (reflectance, ambient) = decode_raw_sample(&block, 0x3FFF);
    assert_eq!(ambient, 0x02 << 3);
    assert_eq!(ambient, 16);
    assert_eq!(reflectance, 0);
}

#[test]
fn decode_packed_block_unmasked() {
    let block = [0x00, 0x01, 0x0F, 0x00, 0x3F, 0x07, 0x3F];
    let (reflectance, ambient) = decode_raw_sample(&block, 0xFFFF_FFFF);
    assert_eq!(ambient, (0x3F << 11) | 0x07);
    assert_eq!(ambient, 0x1F807);
    assert_eq!(
        reflectance,
        (0x01 << 8) | (0x0F << 4) | ((0x3F & 0x30) << 16) | (0x3F & 0x0F)
    );
    assert_eq!(reflectance, 0x3001FF);
}

#[test]
fn decode_packed_block_truncates_at_mask() {
    let block = [0x00, 0x01, 0x0F, 0x00, 0x3F, 0x07, 0x3F];
    let (reflectance, ambient) = decode_raw_sample(&block, 0x3FFFF);
    assert_eq!(ambient, 0x1F807);
    assert_eq!(reflectance, 0x1FF);
}

#[test]
fn decode_zero_block() {
    let block = [0x00; 7];
    let (reflectance, ambient) = decode_raw_sample(&block, 0x3FFFF);
    assert_eq!(ambient, 0);
    assert_eq!(reflectance, 0);
}

#[test]
fn decode_ignores_led_driver_byte() {
    // Byte 3 of the block is the LED-driver register's position in the data
    // window; its value must not reach either channel.
    let block = [0x00, 0x00, 0x00, 0xFF, 0x00, 0x00, 0x00];
    let (reflectance, ambient) = decode_raw_sample(&block, 0xFFFF_FFFF);
    assert_eq!(ambient, 0);
    assert_eq!(reflectance, 0);
}

#[test]
fn decode_all_ones_block() {
    let block = [0xFF; 7];
    let (reflectance, ambient) = decode_raw_sample(&block, 0x3FFFF);
    // Ambient: bits 10:3, 17:11 and 2:0 all set.
    assert_eq!(ambient, 0x3FFFF);
    // Reflectance: bits 15:8, 7:4, 3:0 set; bits 5:4 of the last byte land
    // above bit 17 and are truncated by the mask.
    assert_eq!(reflectance, 0xFFFF);
}
