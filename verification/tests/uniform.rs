use blackhole::uniform::{
    LayoutError, ObjectRecord, UniformBlock, CAMERA_BINDING, CAMERA_BLOCK_BYTES, DISK_BINDING,
    DISK_BLOCK_BYTES, MAX_OBJECTS, OBJECTS_BINDING, OBJECTS_BLOCK_BYTES, OBJECTS_HEADER_BYTES,
    OBJECTS_MASS_OFFSET, OBJECT_RECORD_BYTES, VECTOR_BYTES, WORD_BYTES,
};

fn record(seed: f32) -> ObjectRecord {
    ObjectRecord {
        x: (seed + 0.25).to_bits(),
        y: (seed + 0.5).to_bits(),
        z: (seed + 0.75).to_bits(),
        radius: (seed + 1.0).to_bits(),
        red: (seed + 2.0).to_bits(),
        green: (seed + 3.0).to_bits(),
        blue: (seed + 4.0).to_bits(),
        alpha: (seed + 5.0).to_bits(),
        mass: (seed * 1.0e30).to_bits(),
    }
}

fn float_at(bytes: &[u8], offset: usize) -> f32 {
    f32::from_le_bytes([bytes[offset], bytes[offset + 1], bytes[offset + 2], bytes[offset + 3]])
}

#[test]
fn layout_constants_match_the_binding_contract() {
    assert_eq!(CAMERA_BINDING, 1);
    assert_eq!(DISK_BINDING, 2);
    assert_eq!(OBJECTS_BINDING, 3);
    assert_eq!(WORD_BYTES, 4);
    assert_eq!(VECTOR_BYTES, 16);
    assert_eq!(CAMERA_BLOCK_BYTES, 128);
    assert_eq!(DISK_BLOCK_BYTES, 16);
    assert_eq!(MAX_OBJECTS, 16);
    assert_eq!(OBJECTS_HEADER_BYTES, 16);
    assert_eq!(OBJECT_RECORD_BYTES, 32);
    assert_eq!(OBJECTS_MASS_OFFSET, 528);
    assert_eq!(OBJECTS_BLOCK_BYTES, 592);
    assert_eq!(OBJECTS_BLOCK_BYTES, 4 + 3 * 4 + 16 * (4 * 4 + 4 * 4) + 16 * 4);
}

#[test]
fn allocate_gives_a_zeroed_block() {
    let block = UniformBlock::allocate(2, 16);
    assert_eq!(block.binding(), 2);
    assert_eq!(block.capacity(), 16);
    assert_eq!(block.bytes(), &vec![0u8; 16]);
    let empty = UniformBlock::allocate(9, 0);
    assert_eq!(empty.capacity(), 0);
    assert!(empty.bytes().is_empty());
}

#[test]
fn write_overwrites_a_sub_range() {
    let mut block = UniformBlock::allocate(1, 12);
    block.write(4, &[1, 2, 3, 4, 5]);
    assert_eq!(block.bytes(), &vec![0, 0, 0, 0, 1, 2, 3, 4, 5, 0, 0, 0]);
    block.write(8, &[9, 9, 9, 9]);
    assert_eq!(block.bytes(), &vec![0, 0, 0, 0, 1, 2, 3, 4, 9, 9, 9, 9]);
    block.write(0, &[]);
    assert_eq!(block.bytes(), &vec![0, 0, 0, 0, 1, 2, 3, 4, 9, 9, 9, 9]);
    assert_eq!(block.capacity(), 12);
    assert_eq!(block.binding(), 1);
}

#[test]
fn try_write_accepts_what_fits() {
    let mut block = UniformBlock::allocate(2, 16);
    assert_eq!(block.try_write(12, &[7, 8, 9, 10]), Ok(()));
    assert_eq!(block.bytes()[12..], [7, 8, 9, 10]);
    assert_eq!(block.try_write(16, &[]), Ok(()));
    assert_eq!(block.try_write(0, &[1u8; 16]), Ok(()));
    assert_eq!(block.bytes(), &vec![1u8; 16]);
}

#[test]
fn try_write_refuses_what_runs_over() {
    let mut block = UniformBlock::allocate(2, 16);
    assert_eq!(block.try_write(12, &[1, 2, 3, 4, 5]), Err(LayoutError::OutOfBounds));
    assert_eq!(block.try_write(16, &[1]), Err(LayoutError::OutOfBounds));
    assert_eq!(block.try_write(20, &[]), Err(LayoutError::OutOfBounds));
    assert_eq!(block.try_write(0, &[0u8; 17]), Err(LayoutError::OutOfBounds));
    assert_eq!(block.try_write(usize::MAX - 3, &[1, 2, 3, 4]), Err(LayoutError::OutOfBounds));
    assert_eq!(block.bytes(), &vec![0u8; 16]);
}

#[test]
fn try_write_refuses_a_misaligned_offset() {
    let mut block = UniformBlock::allocate(2, 16);
    assert_eq!(block.try_write(1, &[1]), Err(LayoutError::Misaligned));
    assert_eq!(block.try_write(6, &[1, 2]), Err(LayoutError::Misaligned));
    assert_eq!(block.try_write(17, &[1]), Err(LayoutError::Misaligned));
    assert_eq!(block.try_write(usize::MAX, &[1]), Err(LayoutError::Misaligned));
    assert_eq!(block.bytes(), &vec![0u8; 16]);
}

#[test]
fn write_word_stores_the_low_byte_first() {
    let mut block = UniformBlock::allocate(2, 16);
    block.write_word(4, 0x0403_0201);
    assert_eq!(block.bytes()[..8], [0, 0, 0, 0, 1, 2, 3, 4]);
    block.write_word(0, u32::MAX);
    assert_eq!(block.bytes()[..8], [255, 255, 255, 255, 1, 2, 3, 4]);
    block.write_word(12, 1.5f32.to_bits());
    assert_eq!(float_at(block.bytes(), 12), 1.5);
    assert_eq!(block.bytes()[12..], 1.5f32.to_le_bytes());
}

#[test]
fn write_objects_lays_out_count_records_and_masses() {
    let mut block = UniformBlock::allocate(OBJECTS_BINDING, OBJECTS_BLOCK_BYTES);
    let records = [record(1.0), record(2.0), record(3.0)];
    assert_eq!(block.write_objects(3, &records), Ok(()));
    let bytes = block.bytes();
    assert_eq!(bytes.len(), 592);
    assert_eq!(bytes[..4], [3, 0, 0, 0]);
    assert_eq!(bytes[4..16], [0u8; 12]);
    for (slot, seed) in [(0usize, 1.0f32), (1, 2.0), (2, 3.0)] {
        let at = 16 + 32 * slot;
        assert_eq!(float_at(bytes, at), seed + 0.25);
        assert_eq!(float_at(bytes, at + 4), seed + 0.5);
        assert_eq!(float_at(bytes, at + 8), seed + 0.75);
        assert_eq!(float_at(bytes, at + 12), seed + 1.0);
        assert_eq!(float_at(bytes, at + 16), seed + 2.0);
        assert_eq!(float_at(bytes, at + 20), seed + 3.0);
        assert_eq!(float_at(bytes, at + 24), seed + 4.0);
        assert_eq!(float_at(bytes, at + 28), seed + 5.0);
        assert_eq!(float_at(bytes, 528 + 4 * slot), seed * 1.0e30);
    }
    assert!(bytes[16 + 32 * 3..528].iter().all(|byte| *byte == 0));
    assert!(bytes[528 + 4 * 3..].iter().all(|byte| *byte == 0));
    assert_eq!(block.binding(), 3);
}

#[test]
fn write_objects_fills_all_sixteen_slots() {
    let mut block = UniformBlock::allocate(OBJECTS_BINDING, OBJECTS_BLOCK_BYTES);
    let records: Vec<ObjectRecord> = (0..16).map(|slot| record(slot as f32)).collect();
    assert_eq!(block.write_objects(16, &records), Ok(()));
    let bytes = block.bytes();
    assert_eq!(bytes[..4], [16, 0, 0, 0]);
    assert_eq!(float_at(bytes, 16 + 32 * 15 + 28), 15.0 + 5.0);
    assert_eq!(float_at(bytes, 528 + 4 * 15), 15.0e30);
    assert_eq!(float_at(bytes, 588), 15.0e30);
}

#[test]
fn write_objects_keeps_slots_it_was_not_given() {
    let mut block = UniformBlock::allocate(OBJECTS_BINDING, OBJECTS_BLOCK_BYTES);
    let records = [record(1.0), record(2.0)];
    assert_eq!(block.write_objects(2, &records), Ok(()));
    let full = block.bytes().clone();
    assert_eq!(block.write_objects(1, &[record(9.0)]), Ok(()));
    let bytes = block.bytes();
    assert_eq!(bytes[..4], [1, 0, 0, 0]);
    assert_eq!(float_at(bytes, 16), 9.25);
    assert_eq!(float_at(bytes, 528), 9.0e30);
    assert_eq!(bytes[48..528], full[48..528]);
    assert_eq!(bytes[532..], full[532..]);
    assert_eq!(block.write_objects(0, &[]), Ok(()));
    assert_eq!(block.bytes()[..4], [0, 0, 0, 0]);
    assert_eq!(block.bytes()[4..], bytes_after_count(&full, 9.0));
}

fn bytes_after_count(full: &[u8], seed: f32) -> Vec<u8> {
    let mut block = UniformBlock::allocate(OBJECTS_BINDING, OBJECTS_BLOCK_BYTES);
    block.write(0, full);
    block.write_objects(1, &[record(seed)]).unwrap();
    block.bytes()[4..].to_vec()
}

#[test]
fn write_objects_takes_a_count_apart_from_the_records() {
    let mut block = UniformBlock::allocate(OBJECTS_BINDING, OBJECTS_BLOCK_BYTES);
    assert_eq!(block.write_objects(16, &[record(1.0)]), Ok(()));
    assert_eq!(block.bytes()[..4], [16, 0, 0, 0]);
    assert_eq!(float_at(block.bytes(), 16), 1.25);
    assert_eq!(block.write_objects(0, &[record(2.0)]), Ok(()));
    assert_eq!(block.bytes()[..4], [0, 0, 0, 0]);
    assert_eq!(float_at(block.bytes(), 16), 2.25);
}

#[test]
fn write_objects_refuses_too_many() {
    let mut block = UniformBlock::allocate(OBJECTS_BINDING, OBJECTS_BLOCK_BYTES);
    let records: Vec<ObjectRecord> = (0..17).map(|slot| record(slot as f32)).collect();
    assert_eq!(block.write_objects(16, &records), Err(LayoutError::TooManyObjects));
    assert_eq!(block.write_objects(17, &records[..16]), Err(LayoutError::TooManyObjects));
    assert_eq!(block.write_objects(u32::MAX, &[]), Err(LayoutError::TooManyObjects));
    assert_eq!(block.bytes(), &vec![0u8; 592]);
}

#[test]
fn write_objects_refuses_a_block_of_another_size() {
    let mut small = UniformBlock::allocate(OBJECTS_BINDING, 591);
    assert_eq!(small.write_objects(1, &[record(1.0)]), Err(LayoutError::LayoutMismatch));
    assert_eq!(small.bytes(), &vec![0u8; 591]);
    let mut large = UniformBlock::allocate(OBJECTS_BINDING, 593);
    assert_eq!(large.write_objects(0, &[]), Err(LayoutError::LayoutMismatch));
    let mut disk = UniformBlock::allocate(DISK_BINDING, DISK_BLOCK_BYTES);
    let records: Vec<ObjectRecord> = (0..17).map(|slot| record(slot as f32)).collect();
    assert_eq!(disk.write_objects(17, &records), Err(LayoutError::LayoutMismatch));
}
