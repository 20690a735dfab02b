use rldp::envelope::complement_id;

#[test]
fn complement_flips_every_byte() {
    let mut id = [0u8; 32];
    id[0] = 0x0F;
    id[31] = 0xFF;
    let paired = complement_id(&id);
    assert_eq!(paired[0], 0xF0);
    assert_eq!(paired[1], 0xFF);
    assert_eq!(paired[31], 0x00);
    assert_eq!(complement_id(&paired), id);
}
