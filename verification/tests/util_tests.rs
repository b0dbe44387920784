use nes6502::util::get_bit;
use nes6502::util::get_bits;

#[test]
fn test_get_bit() {
    assert_eq!(0x41, 0b01000001);
    let msb = get_bit(0x41, 0);
    assert_eq!(msb, 1);
    let lsb = get_bit(0x41, 7);
    assert_eq!(lsb, 0);
    let six_bit = get_bit(0x41, 6);
    assert_eq!(six_bit, 1);
}

#[test]
fn test_get_bits() {
    let bits = get_bits(0x41);
    assert_eq!(bits, [true, false, false, false, false, false, true, false]);
}
