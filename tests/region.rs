use contract_sandbox::memory::{Memory, SandboxMemory};
use contract_sandbox::region::{
    get_region, read_region, set_region, validate_region, write_region, InvalidRegion, Region,
    RegionError,
};

fn descriptor_bytes(offset: u32, capacity: u32, length: u32) -> Vec<u8> {
    let mut b = Vec::new();
    b.extend_from_slice(&offset.to_le_bytes());
    b.extend_from_slice(&capacity.to_le_bytes());
    b.extend_from_slice(&length.to_le_bytes());
    b
}

fn one_page() -> Memory {
    Memory::new(1, None).unwrap()
}

fn read_bytes(mem: &Memory, ptr: u32, len: usize) -> Vec<u8> {
    let mut buf = vec![0u8; len];
    mem.get(ptr, &mut buf).unwrap();
    buf
}

#[test]
fn validate_region_passes_for_valid_region() {
    // empty
    let region = Region { offset: 23, capacity: 500, length: 0 };
    validate_region(&region).unwrap();

    // half full
    let region = Region { offset: 23, capacity: 500, length: 250 };
    validate_region(&region).unwrap();

    // full
    let region = Region { offset: 23, capacity: 500, length: 500 };
    validate_region(&region).unwrap();

    // at end of linear memory (1)
    let region = Region { offset: u32::MAX, capacity: 0, length: 0 };
    validate_region(&region).unwrap();

    // at end of linear memory (2)
    let region = Region { offset: 1, capacity: u32::MAX - 1, length: 0 };
    validate_region(&region).unwrap();
}

#[test]
fn validate_region_fails_for_zero_offset() {
    for (capacity, length) in [(500, 250), (0, 0), (u32::MAX, u32::MAX), (1, 2)] {
        let region = Region { offset: 0, capacity, length };
        assert_eq!(
            validate_region(&region),
            Err(RegionError::RegionInvalid(InvalidRegion::ZeroOffset))
        );
    }
}

#[test]
fn validate_region_fails_for_length_exceeding_capacity() {
    let region = Region { offset: 23, capacity: 500, length: 501 };
    assert_eq!(
        validate_region(&region),
        Err(RegionError::RegionInvalid(InvalidRegion::LengthExceedsCapacity))
    );
}

#[test]
fn validate_region_fails_when_exceeding_address_space() {
    let region = Region { offset: 23, capacity: u32::MAX, length: 501 };
    assert_eq!(
        validate_region(&region),
        Err(RegionError::RegionInvalid(InvalidRegion::OutOfRange))
    );
    let region = Region { offset: u32::MAX, capacity: 1, length: 0 };
    assert_eq!(
        validate_region(&region),
        Err(RegionError::RegionInvalid(InvalidRegion::OutOfRange))
    );
    let region = Region { offset: 2, capacity: u32::MAX - 1, length: 0 };
    assert_eq!(
        validate_region(&region),
        Err(RegionError::RegionInvalid(InvalidRegion::OutOfRange))
    );
}

#[test]
fn get_region_decodes_little_endian_fields() {
    let mut mem = one_page();
    mem.set(100, &descriptor_bytes(0x0403_0201, 500, 7)).unwrap();
    assert_eq!(
        get_region(&mem, 100),
        Ok(Region { offset: 0x0403_0201, capacity: 500, length: 7 })
    );
    assert_eq!(get_region(&mem, 65530), Err(RegionError::CannotReadDescriptor));
}

#[test]
fn set_region_encodes_little_endian_fields() {
    let mut mem = one_page();
    set_region(&mut mem, 8, Region { offset: 0x0102_0304, capacity: 2, length: 1 }).unwrap();
    assert_eq!(read_bytes(&mem, 8, 12), vec![4, 3, 2, 1, 2, 0, 0, 0, 1, 0, 0, 0]);
    assert_eq!(
        set_region(&mut mem, 65527, Region { offset: 1, capacity: 0, length: 0 }),
        Err(RegionError::CannotReadDescriptor)
    );
}

#[test]
fn write_then_read_round_trip() {
    let mut mem = one_page();
    mem.set(16, &descriptor_bytes(1024, 64, 0)).unwrap();
    let data = b"hello, sandbox".to_vec();
    write_region(&mut mem, 16, &data).unwrap();
    assert_eq!(get_region(&mem, 16).unwrap().length, data.len() as u32);
    assert_eq!(read_bytes(&mem, 1024, data.len()), data);
    assert_eq!(read_region(&mem, 16, data.len()).unwrap(), data);
    assert_eq!(read_region(&mem, 16, 1000).unwrap(), data);
}

#[test]
fn write_and_read_empty_data() {
    let mut mem = one_page();
    mem.set(16, &descriptor_bytes(1024, 64, 9)).unwrap();
    write_region(&mut mem, 16, &[]).unwrap();
    assert_eq!(get_region(&mem, 16).unwrap(), Region { offset: 1024, capacity: 64, length: 0 });
    assert_eq!(read_region(&mem, 16, 0).unwrap(), Vec::<u8>::new());
}

#[test]
fn read_region_too_big() {
    let mut mem = one_page();
    mem.set(16, &descriptor_bytes(1024, 64, 10)).unwrap();
    assert_eq!(read_region(&mem, 16, 9), Err(RegionError::RegionTooBig));
    assert_eq!(read_region(&mem, 16, 10).unwrap(), vec![0u8; 10]);
}

#[test]
fn write_region_too_small_leaves_length() {
    let mut mem = one_page();
    mem.set(16, &descriptor_bytes(1024, 4, 3)).unwrap();
    assert_eq!(write_region(&mut mem, 16, &[1, 2, 3, 4, 5]), Err(RegionError::RegionTooSmall));
    assert_eq!(get_region(&mem, 16).unwrap().length, 3);
    assert_eq!(read_bytes(&mem, 1024, 5), vec![0u8; 5]);
}

#[test]
fn read_region_out_of_bounds() {
    let mut mem = one_page();
    mem.set(16, &descriptor_bytes(65530, 100, 10)).unwrap();
    assert_eq!(read_region(&mem, 16, 100), Err(RegionError::OutOfBoundsRead));
}

#[test]
fn write_region_out_of_bounds_changes_nothing() {
    let mut mem = one_page();
    mem.set(16, &descriptor_bytes(65530, 100, 0)).unwrap();
    assert_eq!(write_region(&mut mem, 16, &[7u8; 10]), Err(RegionError::OutOfBoundsWrite));
    assert_eq!(get_region(&mem, 16).unwrap().length, 0);
    assert_eq!(read_bytes(&mem, 65530, 6), vec![0u8; 6]);
}

#[test]
fn region_errors_for_bad_descriptors() {
    let mut mem = one_page();
    assert_eq!(read_region(&mem, 65535, 10), Err(RegionError::CannotReadDescriptor));
    assert_eq!(write_region(&mut mem, 65535, &[1]), Err(RegionError::CannotReadDescriptor));
    // all zero: offset zero
    assert_eq!(
        read_region(&mem, 0, 10),
        Err(RegionError::RegionInvalid(InvalidRegion::ZeroOffset))
    );
    mem.set(16, &descriptor_bytes(1024, 4, 5)).unwrap();
    assert_eq!(
        write_region(&mut mem, 16, &[1]),
        Err(RegionError::RegionInvalid(InvalidRegion::LengthExceedsCapacity))
    );
    assert_eq!(get_region(&mem, 16).unwrap().length, 5);
}

#[test]
fn data_overlapping_descriptor_is_overwritten_by_descriptor() {
    let mut mem = one_page();
    mem.set(16, &descriptor_bytes(12, 20, 0)).unwrap();
    write_region(&mut mem, 16, &[0xAA; 8]).unwrap();
    assert_eq!(get_region(&mem, 16).unwrap(), Region { offset: 12, capacity: 20, length: 8 });
    assert_eq!(read_bytes(&mem, 12, 4), vec![0xAA; 4]);
}
