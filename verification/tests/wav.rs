//! The byte-level audio container codec.

use natural_tts::models::{did_save, SampleFormat, Spec};
use natural_tts::utils::{decode_wav, encode_wav};
use natural_tts::TtsError;

#[test]
fn encode_header_bytes_exact() {
    let data: Vec<i32> = vec![1];
    let bytes = encode_wav(&data, 16000);
    let expected: Vec<u8> = vec![
        0x52, 0x49, 0x46, 0x46, // RIFF
        40, 0, 0, 0, // total size minus eight: 36 + 4
        0x57, 0x41, 0x56, 0x45, // WAVE
        0x66, 0x6d, 0x74, 0x20, // fmt
        16, 0, 0, 0, // format block size
        1, 0, // PCM
        1, 0, // one channel
        0x80, 0x3e, 0, 0, // 16000
        0x00, 0xfa, 0, 0, // 64000 bytes per second
        4, 0, // block alignment
        32, 0, // bits per sample
        0x64, 0x61, 0x74, 0x61, // data
        4, 0, 0, 0, // four data bytes
        1, 0, 0, 0, // the sample
    ];
    assert_eq!(bytes, expected);
}

#[test]
fn encode_sizes_use_all_four_bytes() {
    // A payload over 255 bytes: the size fields must not be truncated to
    // their low byte.
    let data: Vec<i32> = vec![0; 100];
    let bytes = encode_wav(&data, 8000);
    assert_eq!(bytes.len(), 44 + 400);
    // 36 + 400 = 436 = 0x01b4, little endian
    assert_eq!(&bytes[4..8], &[0xb4, 0x01, 0x00, 0x00]);
    // 400 = 0x0190
    assert_eq!(&bytes[40..44], &[0x90, 0x01, 0x00, 0x00]);
}

#[test]
fn round_trip_preserves_samples_and_rate() {
    let data: Vec<i32> = vec![0, 1, -1, i32::MAX, i32::MIN, 123456789];
    let rate = 24000;
    let bytes = encode_wav(&data, rate);
    let audio = decode_wav(&bytes).unwrap();
    assert_eq!(audio.data, data);
    match audio.spec {
        Spec::Wav(spec) => {
            assert_eq!(spec.channels, 1);
            assert_eq!(spec.sample_rate, rate);
            assert_eq!(spec.bits_per_sample, 32);
            assert_eq!(spec.sample_format, SampleFormat::Int);
        }
        _ => panic!("expected a PCM descriptor"),
    }
    assert_eq!(audio.duration, Some(6));
}

#[test]
fn round_trip_empty_payload() {
    let data: Vec<i32> = vec![];
    let bytes = encode_wav(&data, 44100);
    let audio = decode_wav(&bytes).unwrap();
    assert_eq!(audio.data, data);
    assert_eq!(audio.duration, Some(0));
}

fn header(
    total_data: u32,
    channels: u16,
    rate: u32,
    block: u16,
    bits: u16,
) -> Vec<u8> {
    let mut bytes: Vec<u8> = Vec::new();
    bytes.extend_from_slice(b"RIFF");
    bytes.extend_from_slice(&(36 + total_data).to_le_bytes());
    bytes.extend_from_slice(b"WAVE");
    bytes.extend_from_slice(b"fmt ");
    bytes.extend_from_slice(&16u32.to_le_bytes());
    bytes.extend_from_slice(&1u16.to_le_bytes());
    bytes.extend_from_slice(&channels.to_le_bytes());
    bytes.extend_from_slice(&rate.to_le_bytes());
    bytes.extend_from_slice(&(rate * block as u32).to_le_bytes());
    bytes.extend_from_slice(&block.to_le_bytes());
    bytes.extend_from_slice(&bits.to_le_bytes());
    bytes.extend_from_slice(b"data");
    bytes.extend_from_slice(&total_data.to_le_bytes());
    bytes
}

#[test]
fn decode_16_bit_mono() {
    let mut bytes = header(4, 1, 8000, 2, 16);
    bytes.extend_from_slice(&1i16.to_le_bytes());
    bytes.extend_from_slice(&(-2i16).to_le_bytes());
    let audio = decode_wav(&bytes).unwrap();
    assert_eq!(audio.data, vec![1, -2]);
    assert_eq!(audio.duration, Some(2));
    match audio.spec {
        Spec::Wav(spec) => {
            assert_eq!(spec.channels, 1);
            assert_eq!(spec.sample_rate, 8000);
            assert_eq!(spec.bits_per_sample, 16);
            assert_eq!(spec.sample_format, SampleFormat::Int);
        }
        _ => panic!("expected a PCM descriptor"),
    }
}

#[test]
fn decode_32_bit_stereo() {
    let mut bytes = header(8, 2, 1000, 8, 32);
    bytes.extend_from_slice(&5i32.to_le_bytes());
    bytes.extend_from_slice(&(-5i32).to_le_bytes());
    let audio = decode_wav(&bytes).unwrap();
    assert_eq!(audio.data, vec![5, -5]);
    // two interleaved samples over two channels: one frame
    assert_eq!(audio.duration, Some(1));
    match audio.spec {
        Spec::Wav(spec) => {
            assert_eq!(spec.channels, 2);
            assert_eq!(spec.bits_per_sample, 32);
        }
        _ => panic!("expected a PCM descriptor"),
    }
}

#[test]
fn decode_rejects_unknown_sample_width() {
    let bytes = header(0, 1, 8000, 1, 8);
    assert_eq!(decode_wav(&bytes).unwrap_err(), TtsError::OperationFailed);
}

#[test]
fn decode_rejects_ragged_payload() {
    // three data bytes cannot hold whole two-byte frames
    let mut bytes = header(3, 1, 8000, 2, 16);
    bytes.extend_from_slice(&[1, 2, 3]);
    assert_eq!(decode_wav(&bytes).unwrap_err(), TtsError::OperationFailed);
}

#[test]
fn decode_rejects_short_input() {
    let bytes: Vec<u8> = vec![0x52, 0x49, 0x46, 0x46];
    assert_eq!(decode_wav(&bytes).unwrap_err(), TtsError::OperationFailed);
}

#[test]
fn decode_rejects_wrong_tag() {
    let data: Vec<i32> = vec![7];
    let mut bytes = encode_wav(&data, 16000);
    bytes[8] = 0x58; // damage the WAVE tag
    assert_eq!(decode_wav(&bytes).unwrap_err(), TtsError::OperationFailed);
}

#[test]
fn decode_rejects_inconsistent_size() {
    let data: Vec<i32> = vec![7, 8];
    let mut bytes = encode_wav(&data, 16000);
    bytes[40] = 12; // data length no longer matches the payload
    assert_eq!(decode_wav(&bytes).unwrap_err(), TtsError::OperationFailed);
}

#[test]
fn save_confirmation() {
    // After a successful save the file must be readable; a backend that
    // reports success but leaves no readable file surfaces the error.
    assert_eq!(did_save(true), Ok(()));
    assert_eq!(did_save(false), Err(TtsError::NotSaved));
}
