use sony_headphones_linux::packet::{PACKET_LEN, END_MARKER, START_MARKER};
use sony_headphones_linux::{checksum, encode, get_packet, try_get_packet, CommandError, Settings};

fn payload_sum(bytes: &[u8]) -> u8 {
    (bytes.iter().map(|b| *b as u32).sum::<u32>() % 256) as u8
}

#[test]
fn disable_packet_golden() {
    let p = get_packet(false, 0, 0, 0);
    let expected_sum = payload_sum(&[12, 0, 0, 0, 0, 8, 104, 2, 0, 2, 0, 1, 0, 0]);
    assert_eq!(expected_sum, 129);
    assert_eq!(p, [62, 12, 0, 0, 0, 0, 8, 104, 2, 0, 2, 0, 1, 0, 0, 129, 60]);
}

#[test]
fn noise_cancelling_checksum_is_payload_sum() {
    let p = get_packet(true, 2, 0, 0);
    let expected = (12 + 0 + 0 + 0 + 0 + 8 + 104 + 2 + 16 + 2 + 2 + 1 + 0 + 0) % 256;
    assert_eq!(p[15] as u32, expected);
    assert_eq!(p[15], 147);
    assert_eq!(p[15], checksum(&p[1..15]));
}

#[test]
fn checksum_of_empty_is_zero() {
    assert_eq!(checksum(&[]), 0);
}

#[test]
fn checksum_wraps_modulo_256() {
    assert_eq!(checksum(&[200, 100]), 44);
    assert_eq!(checksum(&[255, 1]), 0);
    assert_eq!(checksum(&[255; 14]), ((255u32 * 14) % 256) as u8);
}

#[test]
fn frame_shape_for_all_valid_settings() {
    for enabled in [false, true] {
        for nc in 0..=2u8 {
            for volume in 0..=19u8 {
                for voice in 0..=1u8 {
                    let p = get_packet(enabled, nc, volume, voice);
                    assert_eq!(p.len(), PACKET_LEN);
                    assert_eq!(p[0], START_MARKER);
                    assert_eq!(p[16], END_MARKER);
                    assert_eq!(p[0], 62);
                    assert_eq!(p[16], 60);
                    assert_eq!(p[9], if enabled { 16 } else { 0 });
                    assert_eq!(p[11], nc);
                    assert_eq!(p[13], voice);
                    assert_eq!(p[14], volume);
                    assert_eq!(p[15], payload_sum(&p[1..15]));
                }
            }
        }
    }
}

#[test]
fn encode_twice_is_identical() {
    let s = Settings::new(true, 0, 19, 0).unwrap();
    let a = encode(&s);
    let b = encode(&s);
    assert_eq!(a, b);
    assert_eq!(a, [62, 12, 0, 0, 0, 0, 8, 104, 2, 16, 2, 0, 1, 0, 19, 164, 60]);
}

#[test]
fn volume_bounds_encode() {
    let high = try_get_packet(true, 0, 19, 0).unwrap();
    assert_eq!(high[14], 19);
    let low = try_get_packet(true, 0, 0, 0).unwrap();
    assert_eq!(low[14], 0);
}

#[test]
fn volume_out_of_range_rejected() {
    assert_eq!(try_get_packet(true, 0, 20, 0), Err(CommandError::InvalidSettings));
    assert_eq!(try_get_packet(true, 0, 255, 0), Err(CommandError::InvalidSettings));
    assert_eq!(Settings::new(true, 0, 20, 0), Err(CommandError::InvalidSettings));
}

#[test]
fn noise_level_and_voice_out_of_range_rejected() {
    assert_eq!(Settings::new(true, 3, 0, 0), Err(CommandError::InvalidSettings));
    assert_eq!(Settings::new(true, 0, 0, 2), Err(CommandError::InvalidSettings));
    assert_eq!(try_get_packet(false, 3, 0, 0), Err(CommandError::InvalidSettings));
}

#[test]
fn settings_new_keeps_fields() {
    let s = Settings::new(true, 1, 7, 1).unwrap();
    assert_eq!(
        s,
        Settings { enabled: true, noise_cancelling_level: 1, volume: 7, voice_passthrough: 1 }
    );
    assert_eq!(encode(&s), [62, 12, 0, 0, 0, 0, 8, 104, 2, 16, 2, 1, 1, 1, 7, 154, 60]);
}
