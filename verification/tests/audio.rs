use cloud_transcription::pcm::{pcm16_to_s16le, samples_to_wav, WAV_HEADER_LEN};
use cloud_transcription::text::trim_white_space_str;

#[test]
fn s16le_bytes_are_little_endian_twos_complement() {
    let bytes = pcm16_to_s16le(&[0, 1, -1, 256, -32768, 32767]);
    assert_eq!(bytes, vec![0, 0, 1, 0, 255, 255, 0, 1, 0, 128, 255, 127]);
}

#[test]
fn s16le_of_no_samples_is_empty() {
    assert!(pcm16_to_s16le(&[]).is_empty());
}

#[test]
fn s16le_bytes_decode_to_the_samples() {
    let samples: Vec<i16> = vec![-32768, -12345, -1, 0, 1, 12345, 32767];
    let bytes = pcm16_to_s16le(&samples);
    let decoded: Vec<i16> = bytes
        .chunks(2)
        .map(|pair| i16::from_le_bytes([pair[0], pair[1]]))
        .collect();
    assert_eq!(decoded, samples);
}

#[test]
fn wav_header_and_data_are_exact() {
    let wav = samples_to_wav(&[1, -2]);
    let mut expected: Vec<u8> = Vec::new();
    expected.extend_from_slice(b"RIFF");
    expected.extend_from_slice(&[40, 0, 0, 0]);
    expected.extend_from_slice(b"WAVE");
    expected.extend_from_slice(b"fmt ");
    expected.extend_from_slice(&[16, 0, 0, 0]);
    expected.extend_from_slice(&[1, 0]);
    expected.extend_from_slice(&[1, 0]);
    expected.extend_from_slice(&[0x80, 0x3e, 0, 0]);
    expected.extend_from_slice(&[0x00, 0x7d, 0, 0]);
    expected.extend_from_slice(&[2, 0]);
    expected.extend_from_slice(&[16, 0]);
    expected.extend_from_slice(b"data");
    expected.extend_from_slice(&[4, 0, 0, 0]);
    expected.extend_from_slice(&[1, 0, 0xfe, 0xff]);
    assert_eq!(wav, expected);
}

#[test]
fn wav_data_is_the_s16le_bytes() {
    let samples: Vec<i16> = (0..1000).map(|i| (i * 37 - 18000) as i16).collect();
    let wav = samples_to_wav(&samples);
    assert_eq!(wav.len(), WAV_HEADER_LEN + 2 * samples.len());
    assert_eq!(&wav[WAV_HEADER_LEN..], pcm16_to_s16le(&samples).as_slice());
}

#[test]
fn wav_reads_back_with_hound() {
    let samples: Vec<i16> = vec![0, 100, -100, 32767, -32768];
    let wav = samples_to_wav(&samples);
    let reader = hound::WavReader::new(std::io::Cursor::new(wav)).unwrap();
    let spec = reader.spec();
    assert_eq!(spec.channels, 1);
    assert_eq!(spec.sample_rate, 16000);
    assert_eq!(spec.bits_per_sample, 16);
    let read: Vec<i16> = reader.into_samples::<i16>().map(|s| s.unwrap()).collect();
    assert_eq!(read, samples);
}

#[test]
fn empty_wav_is_only_the_header() {
    let wav = samples_to_wav(&[]);
    assert_eq!(wav.len(), WAV_HEADER_LEN);
    assert_eq!(&wav[4..8], &[36, 0, 0, 0]);
    assert_eq!(&wav[40..44], &[0, 0, 0, 0]);
}

#[test]
fn trim_removes_ascii_white_space_at_both_ends() {
    assert_eq!(trim_white_space_str("  hello world \n\t"), "hello world");
}

#[test]
fn trim_removes_unicode_white_space() {
    assert_eq!(trim_white_space_str("\u{3000}\u{a0}x y\u{2028}\u{85}"), "x y");
}

#[test]
fn trim_keeps_inner_white_space_and_other_characters() {
    assert_eq!(trim_white_space_str("a \n b"), "a \n b");
    assert_eq!(trim_white_space_str("\u{200b}x"), "\u{200b}x");
}

#[test]
fn trim_of_blank_text_is_empty() {
    assert_eq!(trim_white_space_str(" \r\n\u{2003} "), "");
    assert_eq!(trim_white_space_str(""), "");
}

#[test]
fn trim_agrees_with_str_trim() {
    let cases = ["", " ", "x", " x ", "\u{1680}a\u{205f}", "\u{feff}a", "a\u{180e}"];
    for case in cases {
        assert_eq!(trim_white_space_str(case), case.trim());
    }
}

#[test]
fn trim_twice_is_trim_once() {
    let once = trim_white_space_str("\t  spaced out  \u{3000}");
    assert_eq!(trim_white_space_str(&once), once);
}

#[test]
fn s16le_distributes_over_joining() {
    let a: Vec<i16> = vec![1, -300, 32767];
    let b: Vec<i16> = vec![-32768, 42];
    let joined: Vec<i16> = [a.clone(), b.clone()].concat();
    let expected = [pcm16_to_s16le(&a), pcm16_to_s16le(&b)].concat();
    assert_eq!(pcm16_to_s16le(&joined), expected);
}
