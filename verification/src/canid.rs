//! The 32-bit identifier word of a frame: an 11-bit or 29-bit identifier in
//! the low bits and three flag bits at the top.
use vstd::prelude::*;

verus! {

/// Flag bit 31: the identifier is in the 29-bit extended format.
pub const CAN_EFF_FLAG: u32 = 0x8000_0000;

/// Flag bit 30: the frame is a remote transmission request.
pub const CAN_RTR_FLAG: u32 = 0x4000_0000;

/// Flag bit 29: the frame reports an error condition.
pub const CAN_ERR_FLAG: u32 = 0x2000_0000;

/// The identifier bits of a standard frame.
pub const CAN_SFF_MASK: u32 = 0x0000_07FF;

/// The identifier bits of an extended frame.
pub const CAN_EFF_MASK: u32 = 0x1FFF_FFFF;

/// The error class bits of an error frame.
pub const CAN_ERR_MASK: u32 = 0x1FFF_FFFF;

/// Whether the extended-format flag is set in `word`.
pub open spec fn word_is_extended(word: u32) -> bool {
    word & CAN_EFF_FLAG != 0
}

/// Whether the remote-request flag is set in `word`.
pub open spec fn word_is_remote(word: u32) -> bool {
    word & CAN_RTR_FLAG != 0
}

/// Whether the error flag is set in `word`.
pub open spec fn word_is_error(word: u32) -> bool {
    word & CAN_ERR_FLAG != 0
}

/// The identifier held in `word`, with the flag bits masked off: 29 bits of
/// an extended word, 11 bits of a standard one.
pub open spec fn word_id(word: u32) -> u32 {
    if word_is_extended(word) {
        word & CAN_EFF_MASK
    } else {
        word & CAN_SFF_MASK
    }
}

/// The identifier word for identifier `id` with the requested flags. The
/// extended-format flag is set exactly when `id` does not fit in 11 bits.
pub open spec fn compose_word(id: u32, rtr: bool, err: bool) -> u32 {
    id | (if id > CAN_SFF_MASK { CAN_EFF_FLAG } else { 0u32 })
       | (if rtr { CAN_RTR_FLAG } else { 0u32 })
       | (if err { CAN_ERR_FLAG } else { 0u32 })
}

/// Composing a word from an identifier of at most 29 bits loses nothing: the
/// identifier and both requested flags read back unchanged, the low 29 bits
/// are the identifier itself, and the format is extended exactly when the
/// identifier exceeds the standard range.
pub proof fn lemma_compose_word(id: u32, rtr: bool, err: bool)
    requires
        id <= CAN_EFF_MASK,
    ensures
        word_id(compose_word(id, rtr, err)) == id,
        word_is_extended(compose_word(id, rtr, err)) == (id > CAN_SFF_MASK),
        word_is_remote(compose_word(id, rtr, err)) == rtr,
        word_is_error(compose_word(id, rtr, err)) == err,
        compose_word(id, rtr, err) & CAN_EFF_MASK == id,
{
    let e: u32 = if id > CAN_SFF_MASK { CAN_EFF_FLAG } else { 0u32 };
    let r: u32 = if rtr { CAN_RTR_FLAG } else { 0u32 };
    let x: u32 = if err { CAN_ERR_FLAG } else { 0u32 };
    let w: u32 = id | e | r | x;
    assert(w & 0x8000_0000u32 == e && w & 0x4000_0000u32 == r && w & 0x2000_0000u32 == x
        && w & 0x1FFF_FFFFu32 == id && (id <= 0x7FFu32 ==> w & 0x7FFu32 == id)) by (bit_vector)
        requires
            w == id | e | r | x,
            id <= 0x1FFF_FFFFu32,
            e == 0x8000_0000u32 || e == 0u32,
            r == 0x4000_0000u32 || r == 0u32,
            x == 0x2000_0000u32 || x == 0u32,
    ;
}

/// Setting the remote flag in a word changes neither its identifier nor its
/// other two flags.
pub proof fn lemma_set_remote(word: u32)
    ensures
        word_is_remote(word | CAN_RTR_FLAG),
        word_id(word | CAN_RTR_FLAG) == word_id(word),
        word_is_extended(word | CAN_RTR_FLAG) == word_is_extended(word),
        word_is_error(word | CAN_RTR_FLAG) == word_is_error(word),
{
    let w: u32 = word | 0x4000_0000u32;
    assert(w & 0x4000_0000u32 != 0 && w & 0x8000_0000u32 == word & 0x8000_0000u32 && w
        & 0x2000_0000u32 == word & 0x2000_0000u32 && w & 0x1FFF_FFFFu32 == word & 0x1FFF_FFFFu32
        && w & 0x7FFu32 == word & 0x7FFu32) by (bit_vector)
        requires
            w == word | 0x4000_0000u32,
    ;
}

/// The identifier read from any word fits the format the word declares.
pub proof fn lemma_word_id_range(word: u32)
    ensures
        word_id(word) <= CAN_EFF_MASK,
        !word_is_extended(word) ==> word_id(word) <= CAN_SFF_MASK,
{
    assert(word & 0x1FFF_FFFFu32 <= 0x1FFF_FFFFu32 && word & 0x7FFu32 <= 0x7FFu32) by (bit_vector);
}

/// The four bytes of `word`, least significant first: the order in which a
/// little-endian host keeps the word in memory.
pub open spec fn word_bytes(word: u32) -> Seq<u8> {
    seq![
        (word & 0xff) as u8,
        ((word >> 8) & 0xff) as u8,
        ((word >> 16) & 0xff) as u8,
        ((word >> 24) & 0xff) as u8,
    ]
}

/// The word whose bytes, least significant first, are the first four of
/// `bytes`.
pub open spec fn bytes_word(bytes: Seq<u8>) -> u32 {
    (bytes[0] as u32) | ((bytes[1] as u32) << 8) | ((bytes[2] as u32) << 16) | ((bytes[3] as u32)
        << 24)
}

/// Splitting a word into bytes and joining them again gives the word back.
pub proof fn lemma_word_bytes_round_trip(word: u32)
    ensures
        word_bytes(word).len() == 4,
        bytes_word(word_bytes(word)) == word,
{
    let b0: u8 = (word & 0xff) as u8;
    let b1: u8 = ((word >> 8) & 0xff) as u8;
    let b2: u8 = ((word >> 16) & 0xff) as u8;
    let b3: u8 = ((word >> 24) & 0xff) as u8;
    assert((b0 as u32) | ((b1 as u32) << 8) | ((b2 as u32) << 16) | ((b3 as u32) << 24) == word)
        by (bit_vector)
        requires
            b0 == (word & 0xff) as u8,
            b1 == ((word >> 8) & 0xff) as u8,
            b2 == ((word >> 16) & 0xff) as u8,
            b3 == ((word >> 24) & 0xff) as u8,
    ;
}

/// The bytes of a word are its base-256 digits, least significant first.
pub proof fn lemma_word_bytes_value(word: u32)
    ensures
        word == word_bytes(word)[0] + 0x100 * word_bytes(word)[1] + 0x1_0000 * word_bytes(word)[2]
            + 0x100_0000 * word_bytes(word)[3],
{
    let b0: u8 = (word & 0xff) as u8;
    let b1: u8 = ((word >> 8) & 0xff) as u8;
    let b2: u8 = ((word >> 16) & 0xff) as u8;
    let b3: u8 = ((word >> 24) & 0xff) as u8;
    assert(word == b0 + 0x100 * b1 + 0x1_0000 * b2 + 0x100_0000 * b3) by (bit_vector)
        requires
            b0 == (word & 0xff) as u8,
            b1 == ((word >> 8) & 0xff) as u8,
            b2 == ((word >> 16) & 0xff) as u8,
            b3 == ((word >> 24) & 0xff) as u8,
    ;
}

/// Joining four bytes into a word and splitting it again gives the bytes
/// back.
pub proof fn lemma_bytes_word_round_trip(bytes: Seq<u8>)
    requires
        bytes.len() == 4,
    ensures
        word_bytes(bytes_word(bytes)) == bytes,
{
    let b0: u8 = bytes[0];
    let b1: u8 = bytes[1];
    let b2: u8 = bytes[2];
    let b3: u8 = bytes[3];
    let w: u32 = (b0 as u32) | ((b1 as u32) << 8) | ((b2 as u32) << 16) | ((b3 as u32) << 24);
    assert((w & 0xff) as u8 == b0 && ((w >> 8) & 0xff) as u8 == b1 && ((w >> 16) & 0xff) as u8
        == b2 && ((w >> 24) & 0xff) as u8 == b3) by (bit_vector)
        requires
            w == (b0 as u32) | ((b1 as u32) << 8) | ((b2 as u32) << 16) | ((b3 as u32) << 24),
    ;
    assert(word_bytes(bytes_word(bytes)) =~= bytes);
}

/// The four bytes of `word`, least significant first.
pub fn split_word(word: u32) -> (r: [u8; 4])
    ensures
        r@ == word_bytes(word),
{
    let b0: u8 = (word & 0xff) as u8;
    let b1: u8 = ((word >> 8) & 0xff) as u8;
    let b2: u8 = ((word >> 16) & 0xff) as u8;
    let b3: u8 = ((word >> 24) & 0xff) as u8;
    let r: [u8; 4] = [b0, b1, b2, b3];
    assert(r@ =~= word_bytes(word));
    r
}

/// The word whose bytes, least significant first, are `b0` to `b3`.
pub fn join_word(b0: u8, b1: u8, b2: u8, b3: u8) -> (r: u32)
    ensures
        r == bytes_word(seq![b0, b1, b2, b3]),
{
    (b0 as u32) | ((b1 as u32) << 8) | ((b2 as u32) << 16) | ((b3 as u32) << 24)
}

} // verus!
