use lc3_vm::loader::{read_image, ImageError};
use lc3_vm::memory::Memory;

#[test]
fn image_round_trip() {
    let mut memory = Memory::new();
    let image: Vec<u8> = vec![0x30, 0x00, 0x12, 0x34, 0xAB, 0xCD, 0x00, 0x01];
    let r = read_image(&mut memory, &image);
    assert_eq!(r, Ok(0x3000));
    assert_eq!(memory.cells[0x3000], 0x1234);
    assert_eq!(memory.cells[0x3001], 0xABCD);
    assert_eq!(memory.cells[0x3002], 0x0001);
    assert_eq!(memory.cells[0x2FFF], 0);
    assert_eq!(memory.cells[0x3003], 0);
}

#[test]
fn image_with_no_words_loads_nothing() {
    let mut memory = Memory::new();
    let image: Vec<u8> = vec![0x40, 0x00];
    assert_eq!(read_image(&mut memory, &image), Ok(0x4000));
    assert_eq!(memory.cells[0x4000], 0);
}

#[test]
fn image_missing_origin_is_rejected() {
    let mut memory = Memory::new();
    assert_eq!(read_image(&mut memory, &[]), Err(ImageError::MissingOrigin));
    assert_eq!(read_image(&mut memory, &[0x30]), Err(ImageError::MissingOrigin));
}

#[test]
fn image_with_odd_trailing_byte_is_rejected() {
    let mut memory = Memory::new();
    let image: Vec<u8> = vec![0x30, 0x00, 0x12, 0x34, 0xAB];
    assert_eq!(read_image(&mut memory, &image), Err(ImageError::TruncatedWord));
    assert_eq!(memory.cells[0x3000], 0);
}

#[test]
fn image_past_end_of_memory_stops_cleanly() {
    let mut memory = Memory::new();
    let image: Vec<u8> = vec![0xFF, 0xFE, 0x11, 0x11, 0x22, 0x22, 0x33, 0x33, 0x44, 0x44];
    assert_eq!(read_image(&mut memory, &image), Ok(0xFFFE));
    assert_eq!(memory.cells[0xFFFE], 0x1111);
    assert_eq!(memory.cells[0xFFFF], 0x2222);
    assert_eq!(memory.cells[0x0000], 0);
    assert_eq!(memory.cells[0x0001], 0);
}

#[test]
fn overfull_image_ignores_its_trailing_odd_byte() {
    let mut memory = Memory::new();
    let image: Vec<u8> = vec![0xFF, 0xFF, 0x12, 0x34, 0x56, 0x78, 0x9A];
    assert_eq!(read_image(&mut memory, &image), Ok(0xFFFF));
    assert_eq!(memory.cells[0xFFFF], 0x1234);
    assert_eq!(memory.cells[0x0000], 0);
}
