use nigui::wifi::packet::{
    decode_packet, healthy_bit, normalized_numerator, read_word, sign_extend, FRAME_LEN, NORM_DENOM,
};
use nigui::wifi::NapseError;

fn frame_with(status: u32, samples: [u32; 6], mark: u8) -> Vec<u8> {
    let mut bytes = vec![0u8; FRAME_LEN];
    bytes[4..8].copy_from_slice(&status.to_le_bytes());
    for (i, s) in samples.iter().enumerate() {
        bytes[16 + 4 * i..20 + 4 * i].copy_from_slice(&s.to_le_bytes());
    }
    bytes[40] = mark;
    bytes
}

#[test]
fn decode_reads_samples_status_and_mark() {
    let samples = [1, 0x00ff_ffff, 0x0080_0000, 0x007f_ffff, 0, 0xab00_0002];
    let bytes = frame_with(0x0000_5000, samples, 7);
    let packet = decode_packet(&bytes).unwrap();
    assert_eq!(packet.samples, vec![1, -1, -8388608, 8388607, 0, 2]);
    assert_eq!(packet.status, 0x0000_5000);
    assert_eq!(packet.mark, 7);
}

#[test]
fn decode_refuses_other_lengths() {
    for len in [0usize, 1, 40, 43, 45, 88] {
        let bytes = vec![0u8; len];
        assert!(matches!(decode_packet(&bytes), Err(NapseError::FailedToReadAllChannels)));
    }
}

#[test]
fn sign_extension_ignores_the_top_byte() {
    assert_eq!(sign_extend(0xff00_0000), 0);
    assert_eq!(sign_extend(0x1280_0001), -8388607);
    assert_eq!(sign_extend(0x0000_0001), 1);
}

#[test]
fn normalisation_endpoints() {
    assert_eq!(normalized_numerator(-8388608), -16777215);
    assert_eq!(normalized_numerator(8388607), 16777215);
    assert_eq!(normalized_numerator(0), 1);
}

fn to_float(raw: i32) -> f32 {
    let min = -8388608.0_f64;
    let max = 8388607.0_f64;
    let v = ((raw as f64 - min) / (max - min)) as f32;
    2.0 * v - 1.0
}

#[test]
fn normalisation_agrees_with_the_formula() {
    for raw in [-8388608i32, -4194304, -1, 0, 1, 1234567, 8388607] {
        let exact = normalized_numerator(raw) as f64 / NORM_DENOM as f64;
        assert!((to_float(raw) as f64 - exact).abs() < 1e-6);
    }
    assert_eq!(to_float(-8388608), -1.0);
    assert_eq!(to_float(8388607), 1.0);
}

#[test]
fn normalisation_is_affine_and_monotonic() {
    let mut previous = normalized_numerator(-8388608);
    for raw in -8388607i32..-8388000 {
        let n = normalized_numerator(raw);
        assert_eq!(n - previous, 2);
        previous = n;
    }
    assert!(normalized_numerator(-5) < normalized_numerator(-4));
    assert_eq!(normalized_numerator(100) - normalized_numerator(40), 120);
}

#[test]
fn sign_extension_stays_in_range() {
    for word in [0u32, 0x7f_ffff, 0x80_0000, 0xff_ffff, 0xffff_ffff, 0x8000_0000, 0x1234_5678] {
        let raw = sign_extend(word);
        assert!((-8388608..=8388607).contains(&raw));
        assert_eq!((raw as u32) & 0x00ff_ffff, word & 0x00ff_ffff);
    }
}

#[test]
fn read_word_is_little_endian() {
    let bytes = [0x78u8, 0x56, 0x34, 0x12, 0xff, 0xff, 0xff, 0xff];
    assert_eq!(read_word(&bytes, 0), Some(0x1234_5678));
    assert_eq!(read_word(&bytes, 1), Some(0xffff_ffff));
    assert_eq!(read_word(&bytes, 2), None);
    assert_eq!(read_word(&bytes[..7], 1), None);
    assert_eq!(read_word(&bytes, usize::MAX), None);
}

#[test]
fn healthy_bit_reads_bit_twelve_onwards() {
    assert!(healthy_bit(0, 0));
    assert!(!healthy_bit(1 << 12, 0));
    assert!(healthy_bit(1 << 12, 1));
    assert!(!healthy_bit(1 << 17, 5));
    assert!(!healthy_bit(0x8000_0000, 19));
    assert!(healthy_bit(0xffff_ffff, 20));
    assert!(healthy_bit(0x0000_0fff, 0));
}
