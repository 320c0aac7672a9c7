use candev::canid::{join_word, split_word};

#[test]
fn split_word_gives_the_low_byte_first() {
    assert_eq!(split_word(0x1234_5678), [0x78, 0x56, 0x34, 0x12]);
    assert_eq!(split_word(0), [0, 0, 0, 0]);
    assert_eq!(split_word(u32::MAX), [0xFF, 0xFF, 0xFF, 0xFF]);
    assert_eq!(split_word(0x8000_0001), [0x01, 0x00, 0x00, 0x80]);
}

#[test]
fn join_word_takes_the_low_byte_first() {
    assert_eq!(join_word(0x78, 0x56, 0x34, 0x12), 0x1234_5678);
    assert_eq!(join_word(0, 0, 0, 0), 0);
    assert_eq!(join_word(0xFF, 0xFF, 0xFF, 0xFF), u32::MAX);
    assert_eq!(join_word(0x01, 0x00, 0x00, 0x80), 0x8000_0001);
}

#[test]
fn words_survive_splitting_and_joining() {
    let mut word: u32 = 0x2545_F491;
    for _ in 0..10_000 {
        let bytes = split_word(word);
        assert_eq!(bytes, word.to_le_bytes());
        assert_eq!(join_word(bytes[0], bytes[1], bytes[2], bytes[3]), word);
        word = word.wrapping_mul(1_664_525).wrapping_add(1_013_904_223);
    }
}
