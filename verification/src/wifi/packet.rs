//! Layout of one datagram and its decoding.
//!
//! A frame is eleven little-endian 32-bit words. Word 1 carries the
//! lead-off bitmask, words 4 to 9 carry one 24-bit two's-complement sample
//! per channel in their low three bytes, and byte 40 carries the event mark.

use vstd::prelude::*;
use crate::wave::WAVE_BUFFS_NUM;
use crate::wifi::NapseError;

verus! {

/// Length of a frame in bytes.
pub const FRAME_LEN: usize = 44;

/// Index of the word that holds the channel-health bitmask.
pub const STATUS_WORD: usize = 1;

/// Index of the word that holds the sample of channel 0.
pub const FIRST_SAMPLE_WORD: usize = 4;

/// Offset of the byte that holds the event mark.
pub const MARK_OFFSET: usize = 40;

/// Bit of the bitmask that reports channel 0.
pub const STATUS_FIRST_BIT: u32 = 12;

/// Smallest raw sample value.
pub const RAW_MIN: i32 = -8388608;

/// Largest raw sample value.
pub const RAW_MAX: i32 = 8388607;

/// Denominator of a normalised sample: `RAW_MAX - RAW_MIN`.
pub const NORM_DENOM: i64 = 16777215;

/// The little-endian 32-bit word number `w` of `bytes`, as a number in
/// `0 .. 2^32`.
pub open spec fn le_word(bytes: Seq<u8>, w: int) -> int
    recommends
        0 <= w,
        4 * w + 4 <= bytes.len(),
{
    bytes[4 * w] as int + 256 * (bytes[4 * w + 1] as int) + 65536 * (bytes[4 * w + 2] as int)
        + 16777216 * (bytes[4 * w + 3] as int)
}

/// The low 24 bits of `word` read as a two's-complement number: bit 23 is
/// the sign, the upper eight bits of the word are ignored.
pub open spec fn sign_extend_24(word: int) -> int {
    let low = word % 16777216;
    if low >= 8388608 {
        low - 16777216
    } else {
        low
    }
}

/// Whether bit `k` of `word` is set.
pub open spec fn bit_set(word: u32, k: u32) -> bool
    recommends
        k < 32,
{
    (word >> k) & 1 == 1
}

/// Health of channel `i` according to the bitmask `word`: a set bit
/// `12 + i` reports the channel as unhealthy. The word has no bit for a
/// channel from 20 on, so it reports nothing against one.
pub open spec fn channel_healthy(word: u32, i: int) -> bool {
    !(0 <= i < 32 - STATUS_FIRST_BIT && bit_set(word, (STATUS_FIRST_BIT + i) as u32))
}

/// Numerator of the normalised value of `raw` over [`NORM_DENOM`]:
/// `2 * ((raw - min) / (max - min)) - 1` brought over the common
/// denominator `max - min`.
pub open spec fn norm_numer(raw: int) -> int {
    2 * (raw - RAW_MIN) - (RAW_MAX - RAW_MIN)
}

/// The raw value whose normalised numerator is `numer`.
pub open spec fn raw_of_numer(numer: int) -> int {
    (numer + (RAW_MAX - RAW_MIN)) / 2 + RAW_MIN
}

/// What one frame carries.
pub struct Packet {
    /// Sign-extended raw sample of each channel.
    pub samples: Vec<i32>,
    /// The channel-health bitmask.
    pub status: u32,
    /// Event mark, 0 for none.
    pub mark: u8,
}

impl Packet {
    /// `self` is the content of the frame `bytes`.
    pub open spec fn decodes(&self, bytes: Seq<u8>) -> bool {
        &&& self.samples@.len() == WAVE_BUFFS_NUM
        &&& forall|i: int|
            0 <= i < WAVE_BUFFS_NUM ==> #[trigger] self.samples@[i] == sign_extend_24(
                le_word(bytes, FIRST_SAMPLE_WORD + i),
            )
        &&& self.status == le_word(bytes, STATUS_WORD as int)
        &&& self.mark == bytes[MARK_OFFSET as int]
    }
}

/// Reads word `w` of `bytes`; `None` where `bytes` ends before the end of
/// that word.
pub fn read_word(bytes: &[u8], w: usize) -> (word: Option<u32>)
    ensures
        word is Some <==> 4 * w + 4 <= bytes@.len(),
        word matches Some(value) ==> value == le_word(bytes@, w as int),
{
    if w < bytes.len() / 4 {
        let b0: u32 = bytes[4 * w] as u32;
        let b1: u32 = bytes[4 * w + 1] as u32;
        let b2: u32 = bytes[4 * w + 2] as u32;
        let b3: u32 = bytes[4 * w + 3] as u32;
        Some(b0 + 256 * b1 + 65536 * b2 + 16777216 * b3)
    } else {
        None
    }
}

/// Reads the low 24 bits of `word` as a signed sample.
pub fn sign_extend(word: u32) -> (raw: i32)
    ensures
        raw == sign_extend_24(word as int),
        RAW_MIN <= raw <= RAW_MAX,
{
    let low: u32 = word % 16777216;
    if low >= 8388608 {
        (low as i32) - 16777216
    } else {
        low as i32
    }
}

/// Health of channel `i` as the bitmask `word` reports it.
pub fn healthy_bit(word: u32, i: usize) -> (healthy: bool)
    ensures
        healthy == channel_healthy(word, i as int),
{
    if i < 20 {
        let k: u32 = STATUS_FIRST_BIT + i as u32;
        (word >> k) & 1 != 1
    } else {
        true
    }
}

/// Numerator of the normalised value of a raw sample; the denominator is
/// [`NORM_DENOM`].
pub fn normalized_numerator(raw: i32) -> (numer: i64)
    ensures
        numer == norm_numer(raw as int),
{
    2 * (raw as i64 - RAW_MIN as i64) - NORM_DENOM
}

/// Decodes one datagram. A datagram that is not exactly one frame long
/// does not hold a word for every channel and is refused.
pub fn decode_packet(bytes: &[u8]) -> (decoded: Result<Packet, NapseError>)
    ensures
        decoded is Ok <==> bytes@.len() == FRAME_LEN,
        decoded matches Ok(packet) ==> packet.decodes(bytes@),
        decoded matches Err(e) ==> e == NapseError::FailedToReadAllChannels,
{
    if bytes.len() != FRAME_LEN {
        return Err(NapseError::FailedToReadAllChannels);
    }
    let status: u32 = match read_word(bytes, STATUS_WORD) {
        Some(word) => word,
        None => {
            return Err(NapseError::FailedToReadAllChannels);
        },
    };
    let mut samples: Vec<i32> = Vec::new();
    let mut i: usize = 0;
    while i < WAVE_BUFFS_NUM
        invariant
            i <= WAVE_BUFFS_NUM,
            bytes@.len() == FRAME_LEN,
            samples@.len() == i,
            forall|j: int|
                0 <= j < i ==> #[trigger] samples@[j] == sign_extend_24(
                    le_word(bytes@, FIRST_SAMPLE_WORD + j),
                ),
        decreases WAVE_BUFFS_NUM - i,
    {
        match read_word(bytes, FIRST_SAMPLE_WORD + i) {
            Some(word) => samples.push(sign_extend(word)),
            None => {
                return Err(NapseError::FailedToReadAllChannels);
            },
        }
        i += 1;
    }
    Ok(Packet { samples, status, mark: bytes[MARK_OFFSET] })
}

/// Normalisation is affine: equal steps of the raw value give equal steps
/// of the normalised value, two numerator units per raw unit.
pub proof fn lemma_normalize_affine(a: int, b: int)
    ensures
        norm_numer(a) - norm_numer(b) == 2 * (a - b),
{
}

/// Normalisation keeps the order of raw values.
pub proof fn lemma_normalize_monotonic(a: int, b: int)
    requires
        a < b,
    ensures
        norm_numer(a) < norm_numer(b),
{
}

/// Normalisation loses nothing: the raw value is recovered from the
/// numerator, so distinct raw values have distinct normalised values.
pub proof fn lemma_normalize_invertible(raw: int)
    ensures
        raw_of_numer(norm_numer(raw)) == raw,
{
}

/// Normalisation maps the 24-bit range onto [-1, 1]: the numerator of a raw
/// value in range is between minus and plus the denominator, and the two
/// ends of the range reach the two ends exactly.
pub proof fn lemma_normalize_range(raw: int)
    requires
        RAW_MIN <= raw <= RAW_MAX,
    ensures
        -NORM_DENOM <= norm_numer(raw) <= NORM_DENOM,
        norm_numer(raw) == -NORM_DENOM <==> raw == RAW_MIN,
        norm_numer(raw) == NORM_DENOM <==> raw == RAW_MAX,
        NORM_DENOM == RAW_MAX - RAW_MIN,
{
}

} // verus!
