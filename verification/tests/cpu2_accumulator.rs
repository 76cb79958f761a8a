use gbmu::cpu2::defines::Accumulator;

#[test]
fn test_accumulator_accumulate_u16() {
    let mut acc = Accumulator::new();
    acc.accumulate_u16(0x1234);
    acc.accumulate_u16(0x5678);
    assert_eq!(acc.get_u16_at(0), 0x1234);
    assert_eq!(acc.get_u16_at(1), 0x5678);
}

#[test]
fn test_accumulator_get_u16_at() {
    let mut acc = Accumulator::new();
    acc.accumulate_u8(0x12);
    acc.accumulate_u8(0x34);
    acc.accumulate_u8(0x56);
    acc.accumulate_u8(0x78);
    println!("Accumulated value: {:b}", acc.value);
    assert_eq!(acc.get_u16_at(0), 0x3412);
    assert_eq!(acc.get_u16_at(1), 0x7856);
}

#[test]
fn test_accumulator_get_u8_at() {
    let mut acc = Accumulator::new();
    acc.accumulate_u8(0x12);
    acc.accumulate_u8(0x34);
    acc.accumulate_u8(0x56);
    acc.accumulate_u8(0x78);
    println!("Accumulated value: {:b}", acc.value);
    assert_eq!(acc.get_u8_at(0), 0x12);
    assert_eq!(acc.get_u8_at(1), 0x34);
    assert_eq!(acc.get_u8_at(2), 0x56);
    assert_eq!(acc.get_u8_at(3), 0x78);
}
