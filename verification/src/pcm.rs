//! 16-bit PCM audio: little-endian sample bytes and WAV files.
use vstd::prelude::*;

verus! {

/// Sample rate of the audio that the services receive, in hertz.
pub const SAMPLE_RATE_HZ: u32 = 16000;

/// Number of channels of the audio that the services receive.
pub const CHANNELS: u16 = 1;

/// Length of the RIFF/WAVE header that precedes 16-bit PCM data.
pub const WAV_HEADER_LEN: usize = 44;

/// Largest number of samples whose WAV file sizes fit the 32-bit fields of
/// the header.
pub const MAX_WAV_SAMPLES: usize = 2147483629;

/// The two's-complement bit pattern of `v`, as a number from 0 to 65535.
pub open spec fn u16_pattern(v: i16) -> int {
    if v < 0 {
        v + 65536
    } else {
        v as int
    }
}

/// The sample whose two's-complement bit pattern is `u` (from 0 to 65535).
pub open spec fn i16_of_pattern(u: int) -> int {
    if u >= 32768 {
        u - 65536
    } else {
        u
    }
}

/// Byte `i` of the little-endian encoding of `samples`, two bytes a sample.
pub open spec fn s16le_byte(samples: Seq<i16>, i: int) -> u8 {
    let x = u16_pattern(samples[i / 2]);
    if i % 2 == 0 {
        (x % 256) as u8
    } else {
        (x / 256) as u8
    }
}

/// The samples as signed 16-bit little-endian bytes.
pub open spec fn s16le_bytes(samples: Seq<i16>) -> Seq<u8> {
    Seq::new(2 * samples.len(), |i: int| s16le_byte(samples, i))
}

/// The samples that signed 16-bit little-endian `bytes` encode (a trailing
/// odd byte is not a sample).
pub open spec fn s16le_samples(bytes: Seq<u8>) -> Seq<i16> {
    Seq::new(
        bytes.len() / 2,
        |k: int| i16_of_pattern(bytes[2 * k] as int + 256 * (bytes[2 * k + 1] as int)) as i16,
    )
}

/// Two little-endian bytes of `x`.
pub open spec fn le16(x: u16) -> Seq<u8> {
    seq![(x % 256) as u8, (x / 256) as u8]
}

/// Four little-endian bytes of `x`.
pub open spec fn le32(x: u32) -> Seq<u8> {
    seq![
        (x % 256) as u8,
        ((x / 256) % 256) as u8,
        ((x / 65536) % 256) as u8,
        (x / 16777216) as u8,
    ]
}

/// The 44-byte header of a WAV file holding `data_len` bytes of 16-bit
/// integer PCM in `channels` channels at `rate` samples a second.
pub open spec fn wav_pcm16_header(channels: u16, rate: u32, data_len: nat) -> Seq<u8> {
    seq![0x52u8, 0x49, 0x46, 0x46] + le32((36 + data_len) as u32) + seq![0x57u8, 0x41, 0x56, 0x45]
        + seq![0x66u8, 0x6d, 0x74, 0x20] + le32(16) + le16(1) + le16(channels) + le32(rate) + le32(
        (rate * 2 * channels) as u32,
    ) + le16((2 * channels) as u16) + le16(16) + seq![0x64u8, 0x61, 0x74, 0x61] + le32(
        data_len as u32,
    )
}

/// A WAV file of the samples as 16-bit integer PCM.
pub open spec fn wav_pcm16(channels: u16, rate: u32, samples: Seq<i16>) -> Seq<u8> {
    wav_pcm16_header(channels, rate, 2 * samples.len()) + s16le_bytes(samples)
}

/// Encodes each sample as two little-endian bytes.
pub fn pcm16_to_s16le(samples: &[i16]) -> (res: Vec<u8>)
    requires
        2 * samples@.len() <= usize::MAX,
    ensures
        res@ == s16le_bytes(samples@),
{
    let n = samples.len();
    let mut out: Vec<u8> = Vec::with_capacity(2 * n);
    let mut k: usize = 0;
    while k < n
        invariant
            n == samples@.len(),
            k <= n,
            2 * n <= usize::MAX,
            out@ =~= s16le_bytes(samples@.take(k as int)),
        decreases n - k,
    {
        let v = samples[k];
        let x = v as u16;
        let lo = (x & 0xff) as u8;
        let hi = (x >> 8) as u8;
        assert(x & 0xff == x % 256 && x >> 8 == x / 256) by (bit_vector);
        assert(x == (if v < 0 {
            v + 65536
        } else {
            v as int
        })) by (bit_vector)
            requires
                x == v as u16,
        ;
        out.push(lo);
        out.push(hi);
        k = k + 1;
        assert(out@ =~= s16le_bytes(samples@.take(k as int)));
    }
    assert(samples@.take(n as int) =~= samples@);
    out
}

/// Decoding the little-endian bytes of samples gives the samples back.
pub proof fn lemma_s16le_round_trip(samples: Seq<i16>)
    ensures
        s16le_samples(s16le_bytes(samples)) == samples,
{
    let bytes = s16le_bytes(samples);
    assert forall|k: int| 0 <= k < samples.len() implies #[trigger] s16le_samples(bytes)[k]
        == samples[k] by {
        let v = samples[k];
        let x = u16_pattern(v);
        assert((2 * k) / 2 == k && (2 * k + 1) / 2 == k && (2 * k) % 2 == 0 && (2 * k + 1) % 2
            == 1);
        assert(bytes[2 * k] == (x % 256) as u8);
        assert(bytes[2 * k + 1] == (x / 256) as u8);
    }
    assert(s16le_samples(bytes) =~= samples);
}

/// Encoding distributes over joining: the bytes of `a` followed by `b` are
/// the bytes of `a` followed by the bytes of `b`, and no samples give no
/// bytes.
pub proof fn lemma_s16le_concat(a: Seq<i16>, b: Seq<i16>)
    ensures
        s16le_bytes(a + b) == s16le_bytes(a) + s16le_bytes(b),
        s16le_bytes(Seq::<i16>::empty()) == Seq::<u8>::empty(),
{
    let ab = a + b;
    assert forall|i: int| 0 <= i < 2 * ab.len() implies #[trigger] s16le_bytes(ab)[i] == (
    s16le_bytes(a) + s16le_bytes(b))[i] by {
        if i >= 2 * a.len() {
            let j = i - 2 * a.len();
            assert(i / 2 == a.len() + j / 2 && i % 2 == j % 2);
            assert(ab[i / 2] == b[j / 2]);
        } else {
            assert(ab[i / 2] == a[i / 2]);
        }
    }
    assert(s16le_bytes(ab) =~= s16le_bytes(a) + s16le_bytes(b));
    assert(s16le_bytes(Seq::<i16>::empty()) =~= Seq::<u8>::empty());
}

/// A WAV file of samples is the 44-byte header followed by exactly the
/// little-endian bytes of the samples, and its two size fields hold the data
/// length and the data length plus 36.
pub proof fn lemma_wav_layout(channels: u16, rate: u32, samples: Seq<i16>)
    requires
        36 + 2 * samples.len() <= u32::MAX,
    ensures
        wav_pcm16(channels, rate, samples).len() == WAV_HEADER_LEN + 2 * samples.len(),
        wav_pcm16(channels, rate, samples).subrange(WAV_HEADER_LEN as int, wav_pcm16(channels, rate, samples).len() as int)
            == s16le_bytes(samples),
        wav_pcm16(channels, rate, samples).subrange(4, 8) == le32((36 + 2 * samples.len()) as u32),
        wav_pcm16(channels, rate, samples).subrange(40, 44) == le32((2 * samples.len()) as u32),
{
    let w = wav_pcm16(channels, rate, samples);
    let h = wav_pcm16_header(channels, rate, 2 * samples.len());
    assert(h.len() == 44);
    assert(w.subrange(44, w.len() as int) =~= s16le_bytes(samples));
    assert(w.subrange(4, 8) =~= le32((36 + 2 * samples.len()) as u32));
    assert(w.subrange(40, 44) =~= le32((2 * samples.len()) as u32));
}

#[verifier::external_type_specification]
#[verifier::external_body]
pub struct ExWavError(hound::Error);

/// Runs `hound::WavWriter` (`new` with a 16-bit integer `WavSpec`,
/// `write_sample` for each sample, `finalize`) over an in-memory cursor.
/// Its source writes the 44-byte PCMWAVEFORMAT header for one or two
/// channels at 16 bits, then the samples little-endian, then patches the two
/// size fields; with a cursor no write fails, so the result is `Ok`. The
/// `requires` keep out the inputs on which it divides by zero, overflows a
/// 32-bit size, or reports an unfinished frame.
#[verifier::external_body]
fn write_wav_pcm16(channels: u16, sample_rate: u32, samples: &[i16]) -> (res: Result<
    Vec<u8>,
    hound::Error,
>)
    requires
        1 <= channels <= 2,
        1 <= sample_rate,
        sample_rate * 2 * channels <= u32::MAX,
        samples@.len() % (channels as nat) == 0,
        36 + 2 * samples@.len() <= u32::MAX,
    ensures
        res is Ok,
        res->Ok_0@ == wav_pcm16(channels, sample_rate, samples@),
{
    let spec = hound::WavSpec {
        channels,
        sample_rate,
        bits_per_sample: 16,
        sample_format: hound::SampleFormat::Int,
    };
    let mut cursor = std::io::Cursor::new(Vec::new());
    let mut writer = hound::WavWriter::new(&mut cursor, spec)?;
    for &sample in samples {
        writer.write_sample(sample)?;
    }
    writer.finalize()?;
    Ok(cursor.into_inner())
}

/// A mono 16 kHz WAV file of 16-bit integer samples.
pub fn samples_to_wav(samples: &[i16]) -> (res: Vec<u8>)
    requires
        samples@.len() <= MAX_WAV_SAMPLES,
    ensures
        res@ == wav_pcm16(CHANNELS, SAMPLE_RATE_HZ, samples@),
{
    match write_wav_pcm16(CHANNELS, SAMPLE_RATE_HZ, samples) {
        Ok(bytes) => bytes,
        Err(_) => {
            proof {
                assert(false);
            }
            Vec::new()
        },
    }
}

} // verus!
