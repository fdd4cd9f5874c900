use windwaker::memory::{Address, MemoryError, MemoryField, RamImage};

const START: usize = 0x80000000;

/// An image of 32 bytes from `START`: a pointer at offset 0 to offset 16, a
/// null pointer at offset 4, and values from offset 16 on.
fn image() -> RamImage {
    let mut bytes = vec![0u8; 32];
    bytes[0..4].copy_from_slice(&[0x80, 0x00, 0x00, 0x10]);
    bytes[16..20].copy_from_slice(&[0x12, 0x34, 0x56, 0x78]);
    bytes[20..24].copy_from_slice(&[0x80, 0x00, 0x00, 0x18]);
    RamImage::new(START, bytes)
}

#[test]
fn direct_reads_are_big_endian() {
    let ram = image();
    let at = Address::direct(START + 16);
    assert_eq!(ram.read_u8(&at), Ok(0x12));
    assert_eq!(ram.read_u16(&at), Ok(0x1234));
    assert_eq!(ram.read_u32(&at), Ok(0x12345678));
    assert_eq!(ram.read_bytes(&at, 3), Ok(vec![0x12, 0x34, 0x56]));
}

#[test]
fn pointer_chain_is_followed() {
    let ram = image();
    let one = Address::chain(START, vec![2]);
    assert_eq!(ram.resolve_address(&one), Ok(START + 18));
    assert_eq!(ram.read_u16(&one), Ok(0x5678));
    let two = Address::chain(START, vec![4, 0]);
    assert_eq!(ram.resolve_address(&two), Ok(START + 0x18));
}

#[test]
fn broken_chain_fails() {
    let ram = image();
    let through_null = Address::chain(START + 4, vec![0]);
    assert_eq!(ram.read_u8(&through_null), Err(MemoryError));
    let outside = Address::direct(START + 31);
    assert_eq!(ram.read_u16(&outside), Err(MemoryError));
    let below = Address::direct(START - 1);
    assert_eq!(ram.read_u8(&below), Err(MemoryError));
}

#[test]
fn failed_read_keeps_cached_value() {
    let ram = image();
    let mut field: MemoryField<u32> = MemoryField::new(Address::direct(START + 30), 7);
    assert_eq!(field.read(&ram), Err(MemoryError));
    assert_eq!(field.get(), 7);
    let mut settled: MemoryField<u32> = MemoryField::new(Address::direct(START), 9);
    assert_eq!(settled.settle_read(Err(MemoryError)), Err(MemoryError));
    assert_eq!(settled.get(), 9);
    assert_eq!(settled.settle_read(Ok(11)), Ok(11));
    assert_eq!(settled.get(), 11);
}

#[test]
fn successful_read_replaces_cached_value() {
    let ram = image();
    let mut field: MemoryField<u32> = MemoryField::new(Address::chain(START, vec![0]), 0);
    assert_eq!(field.read(&ram), Ok(0x12345678));
    assert_eq!(field.get(), 0x12345678);
}

#[test]
fn write_then_read_gives_value_back() {
    let mut ram = image();
    let mut wide: MemoryField<u32> = MemoryField::new(Address::chain(START, vec![8]), 0);
    assert_eq!(wide.write(0xDEADBEEF, &mut ram), Ok(0xDEADBEEF));
    assert_eq!(wide.get(), 0xDEADBEEF);
    wide.value = 0;
    assert_eq!(wide.read(&ram), Ok(0xDEADBEEF));
    assert_eq!(ram.read_bytes(&Address::direct(START + 24), 4), Ok(vec![0xDE, 0xAD, 0xBE, 0xEF]));

    let mut half: MemoryField<u16> = MemoryField::new(Address::direct(START + 12), 0);
    assert_eq!(half.write(0xABCD, &mut ram), Ok(0xABCD));
    assert_eq!(half.read(&ram), Ok(0xABCD));

    let mut byte: MemoryField<u8> = MemoryField::new(Address::direct(START + 31), 0);
    assert_eq!(byte.write(0x5A, &mut ram), Ok(0x5A));
    assert_eq!(byte.read(&ram), Ok(0x5A));
}

#[test]
fn failed_write_changes_nothing() {
    let mut ram = image();
    let mut field: MemoryField<u32> = MemoryField::new(Address::direct(START + 30), 3);
    assert_eq!(field.write(1, &mut ram), Err(MemoryError));
    assert_eq!(field.get(), 3);
    assert_eq!(ram.bytes, image().bytes);
    assert_eq!(field.settle_write(4, Err(MemoryError)), Err(MemoryError));
    assert_eq!(field.get(), 3);
    assert_eq!(field.settle_write(4, Ok(())), Ok(4));
    assert_eq!(field.get(), 4);
}
