use fastly_log_abi::memory::GuestMemoryView;
use fastly_log_abi::memory::MemoryFault;
use fastly_log_abi::memory::ReadMem;
use fastly_log_abi::memory::WriteMem;

#[test]
fn write_i32_stores_least_significant_byte_first() {
    let mut data = vec![0xaau8; 8];
    let mut memory = GuestMemoryView::new(&mut data);
    assert_eq!(memory.write_i32(2, 0x0102_0304), Ok(()));
    assert_eq!(data, vec![0xaa, 0xaa, 0x04, 0x03, 0x02, 0x01, 0xaa, 0xaa]);
}

#[test]
fn write_i32_stores_negative_value_in_twos_complement() {
    let mut data = vec![0u8; 4];
    let mut memory = GuestMemoryView::new(&mut data);
    assert_eq!(memory.write_i32(0, -2), Ok(()));
    assert_eq!(data, vec![0xfe, 0xff, 0xff, 0xff]);
}

#[test]
fn write_u32_stores_least_significant_byte_first() {
    let mut data = vec![0u8; 6];
    let mut memory = GuestMemoryView::new(&mut data);
    assert_eq!(memory.write_u32(1, 0xdead_beef), Ok(()));
    assert_eq!(data, vec![0, 0xef, 0xbe, 0xad, 0xde, 0]);
}

#[test]
fn write_u32_accepts_the_last_slot_and_refuses_the_next() {
    let mut data = vec![0u8; 8];
    let mut memory = GuestMemoryView::new(&mut data);
    assert_eq!(memory.write_u32(4, 1), Ok(()));
    assert_eq!(memory.write_u32(5, 2), Err(MemoryFault::OutOfRange));
    assert_eq!(memory.write_u32(8, 2), Err(MemoryFault::OutOfRange));
    assert_eq!(memory.write_u32(i32::MAX, 2), Err(MemoryFault::OutOfRange));
    assert_eq!(data, vec![0, 0, 0, 0, 1, 0, 0, 0]);
}

#[test]
fn write_i32_refuses_a_negative_offset_and_writes_nothing() {
    let mut data = vec![7u8; 8];
    let mut memory = GuestMemoryView::new(&mut data);
    assert_eq!(memory.write_i32(-1, 5), Err(MemoryFault::OutOfRange));
    assert_eq!(memory.write_i32(i32::MIN, 5), Err(MemoryFault::OutOfRange));
    assert_eq!(data, vec![7u8; 8]);
}

#[test]
fn write_i32_refuses_a_memory_shorter_than_a_slot() {
    let mut data = vec![9u8; 3];
    let mut memory = GuestMemoryView::new(&mut data);
    assert_eq!(memory.write_i32(0, 5), Err(MemoryFault::OutOfRange));
    assert_eq!(data, vec![9u8; 3]);
}

#[test]
fn write_copies_all_bytes_and_returns_their_count() {
    let mut data = vec![0u8; 6];
    let mut memory = GuestMemoryView::new(&mut data);
    assert_eq!(memory.write(2, &[1, 2, 3]), Ok(3));
    assert_eq!(data, vec![0, 0, 1, 2, 3, 0]);
}

#[test]
fn write_of_no_bytes_at_the_end_writes_nothing() {
    let mut data = vec![4u8; 2];
    let mut memory = GuestMemoryView::new(&mut data);
    assert_eq!(memory.write(2, &[]), Ok(0));
    assert_eq!(memory.write(3, &[]), Err(MemoryFault::OutOfRange));
    assert_eq!(data, vec![4u8; 2]);
}

#[test]
fn write_refuses_bytes_that_do_not_fit_and_writes_none() {
    let mut data = vec![0u8; 4];
    let mut memory = GuestMemoryView::new(&mut data);
    assert_eq!(memory.write(2, &[1, 2, 3]), Err(MemoryFault::OutOfRange));
    assert_eq!(memory.write(-1, &[1]), Err(MemoryFault::OutOfRange));
    assert_eq!(data, vec![0u8; 4]);
}

#[test]
fn read_returns_exactly_the_bytes_asked_for() {
    let mut data = vec![10u8, 11, 12, 13, 14];
    let mut memory = GuestMemoryView::new(&mut data);
    assert_eq!(memory.read(1, 3), Ok((3, vec![11u8, 12, 13])));
    assert_eq!(memory.read(0, 5), Ok((5, vec![10u8, 11, 12, 13, 14])));
    assert_eq!(memory.read(5, 0), Ok((0, vec![])));
    assert_eq!(data, vec![10u8, 11, 12, 13, 14]);
}

#[test]
fn read_refuses_a_range_beyond_the_extent() {
    let mut data = vec![1u8, 2, 3];
    let mut memory = GuestMemoryView::new(&mut data);
    assert_eq!(memory.read(1, 3), Err(MemoryFault::OutOfRange));
    assert_eq!(memory.read(4, 0), Err(MemoryFault::OutOfRange));
    assert_eq!(memory.read(0, i32::MAX), Err(MemoryFault::OutOfRange));
    assert_eq!(memory.read(i32::MAX, i32::MAX), Err(MemoryFault::OutOfRange));
}

#[test]
fn read_refuses_negative_offset_or_amount() {
    let mut data = vec![1u8, 2, 3];
    let mut memory = GuestMemoryView::new(&mut data);
    assert_eq!(memory.read(-1, 1), Err(MemoryFault::OutOfRange));
    assert_eq!(memory.read(0, -1), Err(MemoryFault::OutOfRange));
}

#[test]
fn view_reports_extent_and_ranges() {
    let mut data = vec![0u8; 16];
    let memory = GuestMemoryView::new(&mut data);
    assert_eq!(memory.len(), 16);
    assert!(memory.holds(0, 16));
    assert!(memory.holds(16, 0));
    assert!(memory.holds(12, 4));
    assert!(!memory.holds(13, 4));
    assert!(!memory.holds(-1, 0));
    assert!(!memory.holds(0, usize::MAX));
}

#[test]
fn view_over_empty_memory_holds_only_the_empty_range() {
    let mut data: Vec<u8> = Vec::new();
    let mut memory = GuestMemoryView::new(&mut data);
    assert_eq!(memory.len(), 0);
    assert_eq!(memory.read(0, 0), Ok((0, vec![])));
    assert_eq!(memory.read(0, 1), Err(MemoryFault::OutOfRange));
    assert_eq!(memory.write_i32(0, 1), Err(MemoryFault::OutOfRange));
}
