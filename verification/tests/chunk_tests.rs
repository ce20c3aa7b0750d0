//! The byte-level helpers: chunk extraction from the scratch buffer
//! and concatenation on the consumer side.

use germ::chunk::{append_bytes, concat_chunks, read};

#[test]
fn read_of_zero_bytes_is_nothing() {
    let buffer = [7u8; 64];
    assert_eq!(read(&buffer, 0), None);
}

#[test]
fn read_takes_the_filled_prefix() {
    let mut buffer = [0u8; 64];
    buffer[0] = b'h';
    buffer[1] = b'i';
    buffer[2] = b'!';
    assert_eq!(read(&buffer, 2), Some(b"hi".to_vec()));
    assert_eq!(read(&buffer, 3), Some(b"hi!".to_vec()));
}

#[test]
fn read_of_the_whole_buffer() {
    let buffer = [9u8; 4];
    assert_eq!(read(&buffer, 4), Some(vec![9, 9, 9, 9]));
}

#[test]
fn append_keeps_the_prefix() {
    let mut display = b"abc".to_vec();
    append_bytes(&mut display, &b"def".to_vec());
    assert_eq!(display, b"abcdef".to_vec());
    append_bytes(&mut display, &Vec::new());
    assert_eq!(display, b"abcdef".to_vec());
}

#[test]
fn concat_joins_in_order() {
    let chunks = vec![b"one ".to_vec(), Vec::new(), b"two ".to_vec(), b"three".to_vec()];
    assert_eq!(concat_chunks(&chunks), b"one two three".to_vec());
    let none: Vec<Vec<u8>> = Vec::new();
    assert_eq!(concat_chunks(&none), Vec::<u8>::new());
}
