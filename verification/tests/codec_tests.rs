use spirv_codegen::codec::decode;
use spirv_codegen::codec::encode;
use spirv_codegen::SpirvModuleBuffer;
use spirv_codegen::SpirvThinBuffer;

#[test]
fn empty_word_sequence_round_trips() {
    let words: Vec<u32> = vec![];
    let bytes = encode(&words);
    assert!(bytes.is_empty());
    assert_eq!(decode(&bytes), Some(vec![]));
}

#[test]
fn magic_word_encodes_least_significant_byte_first() {
    let words: Vec<u32> = vec![0x07230203];
    let bytes = encode(&words);
    assert_eq!(bytes, vec![0x03, 0x02, 0x23, 0x07]);
}

#[test]
fn arbitrary_words_round_trip() {
    let words: Vec<u32> = vec![0, 1, 0xffff_ffff, 0x07230203, 0x0001_0300, 42];
    let bytes = encode(&words);
    assert_eq!(bytes.len(), 4 * words.len());
    assert_eq!(decode(&bytes), Some(words));
}

#[test]
fn ragged_byte_stream_is_rejected() {
    assert_eq!(decode(&vec![1, 2, 3]), None);
    assert_eq!(decode(&vec![1]), None);
    assert_eq!(decode(&vec![1, 2, 3, 4, 5]), None);
}

#[test]
fn module_buffer_data_is_the_encoding() {
    let buffer = SpirvModuleBuffer::new(vec![0x07230203, 7]);
    let data = buffer.data();
    assert_eq!(data, encode(&vec![0x07230203, 7]));
    assert_eq!(decode(&data), Some(vec![0x07230203, 7]));
}

#[test]
fn thin_buffer_data_is_the_encoding() {
    let buffer = SpirvThinBuffer::new(vec![5, 6]);
    assert_eq!(buffer.data(), encode(&vec![5, 6]));
}

#[test]
fn long_word_sequence_round_trips() {
    let words: Vec<u32> = (0..1000u32).map(|i| i.wrapping_mul(0x9e3779b9)).collect();
    let bytes = encode(&words);
    assert_eq!(bytes.len(), 4000);
    assert_eq!(decode(&bytes), Some(words));
}

#[test]
fn well_formed_byte_stream_round_trips() {
    let bytes: Vec<u8> = (0..16u8).collect();
    let words = decode(&bytes).unwrap();
    assert_eq!(encode(&words), bytes);
}
