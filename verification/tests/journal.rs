use proof_publisher::bytes::{le_bytes_to_words, words_to_le_bytes};
use proof_publisher::error::PipelineError;
use proof_publisher::journal::{decode_journal, encode_input, ProgramInput};

fn le_triple(n: u64, e: u64, x: u64) -> Vec<u8> {
    let mut bytes = Vec::new();
    bytes.extend_from_slice(&n.to_le_bytes());
    bytes.extend_from_slice(&e.to_le_bytes());
    bytes.extend_from_slice(&x.to_le_bytes());
    bytes
}

#[test]
fn input_is_three_little_endian_numbers() {
    let bytes = encode_input(&ProgramInput::new(3, 5, 2)).unwrap();
    assert_eq!(
        bytes,
        vec![3, 0, 0, 0, 0, 0, 0, 0, 5, 0, 0, 0, 0, 0, 0, 0, 2, 0, 0, 0, 0, 0, 0, 0]
    );
}

#[test]
fn input_keeps_every_byte_of_wide_numbers() {
    let bytes = encode_input(&ProgramInput::new(0x0102030405060708, u64::MAX, 1 << 32)).unwrap();
    assert_eq!(
        bytes,
        vec![
            8, 7, 6, 5, 4, 3, 2, 1, 255, 255, 255, 255, 255, 255, 255, 255, 0, 0, 0, 0, 1, 0, 0,
            0
        ]
    );
}

#[test]
fn input_is_what_the_engine_serializes() {
    let cases = [(3u64, 5u64, 2u64), (0, 0, 0), (u64::MAX, 1, 0x8000_0000_0000_0000)];
    for (n, e, x) in cases {
        let words = risc0_zkvm::serde::to_vec(&(n, e, x)).unwrap();
        let mut expected = Vec::new();
        for w in &words {
            expected.extend_from_slice(&w.to_le_bytes());
        }
        assert_eq!(encode_input(&ProgramInput::new(n, e, x)).unwrap(), expected);
    }
}

#[test]
fn words_are_laid_out_low_byte_first() {
    assert_eq!(
        words_to_le_bytes(&vec![0x04030201, 0xfffefdfc]),
        vec![1, 2, 3, 4, 0xfc, 0xfd, 0xfe, 0xff]
    );
    assert_eq!(words_to_le_bytes(&Vec::new()), Vec::<u8>::new());
}

#[test]
fn journal_decodes_to_its_triple() {
    assert_eq!(decode_journal(&le_triple(3, 5, 2)), Ok((3, 5, 2)));
    assert_eq!(
        decode_journal(&le_triple(u64::MAX, 0, 0x0102030405060708)),
        Ok((u64::MAX, 0, 0x0102030405060708))
    );
}

#[test]
fn journal_round_trip() {
    let cases = [
        (3u64, 5u64, 2u64),
        (0, 0, 0),
        (u64::MAX, u64::MAX, u64::MAX),
        (1 << 32, (1 << 32) - 1, 0xdead_beef_0000_0001),
    ];
    for (n, e, x) in cases {
        let bytes = encode_input(&ProgramInput::new(n, e, x)).unwrap();
        assert_eq!(decode_journal(&bytes), Ok((n, e, x)));
    }
}

#[test]
fn journal_agrees_with_the_engine_deserializer() {
    let bytes = le_triple(0x1122334455667788, 42, u64::MAX - 1);
    let theirs: (u64, u64, u64) = risc0_zkvm::serde::from_slice(&bytes).unwrap();
    assert_eq!(decode_journal(&bytes), Ok(theirs));
}

#[test]
fn journal_with_too_few_words_is_refused() {
    assert_eq!(decode_journal(&[]), Err(PipelineError::JournalDecodeError));
    assert_eq!(decode_journal(&[0u8; 20]), Err(PipelineError::JournalDecodeError));
    assert_eq!(decode_journal(&le_triple(3, 5, 2)[..16]), Err(PipelineError::JournalDecodeError));
}

#[test]
fn journal_of_ragged_length_is_refused() {
    for len in [1usize, 23, 25, 26, 27, 29] {
        assert_eq!(decode_journal(&vec![0u8; len]), Err(PipelineError::JournalDecodeError));
    }
}

#[test]
fn journal_words_after_the_triple_are_not_read() {
    let mut bytes = le_triple(3, 5, 2);
    bytes.extend_from_slice(&[9, 9, 9, 9]);
    assert_eq!(decode_journal(&bytes), Ok((3, 5, 2)));
}

#[test]
fn journal_decodes_wherever_it_lies_in_memory() {
    let mut buffer = vec![0u8; 1];
    buffer.extend_from_slice(&le_triple(7, 8, 9));
    buffer.push(0);
    assert_eq!(decode_journal(&buffer[1..25]), Ok((7, 8, 9)));
    assert_eq!(decode_journal(&buffer[2..26]), Ok((8 << 56, 9 << 56, 0)));
}

#[test]
fn bytes_are_read_as_words_low_byte_first() {
    assert_eq!(
        le_bytes_to_words(&[1, 2, 3, 4, 0xfc, 0xfd, 0xfe, 0xff]),
        Some(vec![0x04030201, 0xfffefdfc])
    );
    assert_eq!(le_bytes_to_words(&[]), Some(Vec::new()));
    assert_eq!(le_bytes_to_words(&[0xff; 4]), Some(vec![u32::MAX]));
}

#[test]
fn bytes_that_make_no_whole_words_are_not_read() {
    assert_eq!(le_bytes_to_words(&[1]), None);
    assert_eq!(le_bytes_to_words(&[1, 2, 3, 4, 5]), None);
    assert_eq!(le_bytes_to_words(&[0; 7]), None);
}

#[test]
fn words_and_bytes_round_trip() {
    let words = vec![0, 1, 0xdead_beef, u32::MAX, 0x0102_0304];
    assert_eq!(le_bytes_to_words(&words_to_le_bytes(&words)), Some(words));
}
