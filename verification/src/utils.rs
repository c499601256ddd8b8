//! Byte-level audio container codec and small string helpers.
//!
//! The codec renders and parses a minimal uncompressed PCM container:
//! single channel, 32-bit integer samples, little-endian header fields with
//! sizes derived from the sample count.  Rendering and parsing are exact
//! inverses, which is what the generic save-then-decode synthesis fallback
//! relies on.

use vstd::prelude::*;
use vstd::arithmetic::div_mod::lemma_div_is_ordered_by_denominator;
use vstd::arithmetic::mul::lemma_mul_upper_bound;
use vstd::string::StringExecFns;
use crate::TtsError;
use crate::models::{SampleFormat, Spec, SynthesizedAudio, WavSpec};

verus! {

/// The four little-endian bytes of a 32-bit value.
pub open spec fn le32(x: u32) -> Seq<u8> {
    seq![
        (x & 0xff) as u8,
        ((x >> 8) & 0xff) as u8,
        ((x >> 16) & 0xff) as u8,
        ((x >> 24) & 0xff) as u8,
    ]
}

/// The two little-endian bytes of a 16-bit value.
pub open spec fn le16(x: u16) -> Seq<u8> {
    seq![(x & 0xff) as u8, ((x >> 8) & 0xff) as u8]
}

/// The 32-bit value read from four little-endian bytes.
pub open spec fn le32_val(b0: u8, b1: u8, b2: u8, b3: u8) -> u32 {
    (b0 as u32) | ((b1 as u32) << 8) | ((b2 as u32) << 16) | ((b3 as u32) << 24)
}

/// The 16-bit value read from two little-endian bytes.
pub open spec fn le16_val(b0: u8, b1: u8) -> u16 {
    (b0 as u16) | ((b1 as u16) << 8)
}

proof fn lemma_le32_roundtrip(x: u32)
    ensures
        le32_val(
            (x & 0xff) as u8,
            ((x >> 8) & 0xff) as u8,
            ((x >> 16) & 0xff) as u8,
            ((x >> 24) & 0xff) as u8,
        ) == x,
{
    assert(((x & 0xff) as u8) as u32 | ((((x >> 8) & 0xff) as u8) as u32) << 8 | ((((x >> 16)
        & 0xff) as u8) as u32) << 16 | ((((x >> 24) & 0xff) as u8) as u32) << 24 == x)
        by (bit_vector);
}

proof fn lemma_le16_roundtrip(x: u16)
    ensures
        le16_val((x & 0xff) as u8, ((x >> 8) & 0xff) as u8) == x,
{
    assert(((x & 0xff) as u8) as u16 | ((((x >> 8) & 0xff) as u8) as u16) << 8 == x)
        by (bit_vector);
}

proof fn lemma_i32_u32_roundtrip(x: i32)
    ensures
        ((x as u32) as i32) == x,
{
    assert(((x as u32) as i32) == x) by (bit_vector);
}

/// The interleaved little-endian bytes of a sample sequence.
pub open spec fn sample_bytes(s: Seq<i32>) -> Seq<u8>
    decreases s.len(),
{
    if s.len() == 0 {
        Seq::<u8>::empty()
    } else {
        le32(s[0] as u32) + sample_bytes(s.skip(1))
    }
}

proof fn lemma_sample_bytes_len(s: Seq<i32>)
    ensures
        sample_bytes(s).len() == 4 * s.len(),
    decreases s.len(),
{
    if s.len() > 0 {
        lemma_sample_bytes_len(s.skip(1));
    }
}

proof fn lemma_sample_bytes_push(s: Seq<i32>, x: i32)
    ensures
        sample_bytes(s.push(x)) == sample_bytes(s) + le32(x as u32),
    decreases s.len(),
{
    let s2 = s.push(x);
    if s.len() == 0 {
        assert(s2.skip(1) =~= Seq::<i32>::empty());
        assert(sample_bytes(s2.skip(1)) == Seq::<u8>::empty());
        assert(s2[0] == x);
        assert(sample_bytes(s2) == le32(x as u32) + Seq::<u8>::empty());
        assert(sample_bytes(s2) =~= sample_bytes(s) + le32(x as u32));
    } else {
        assert(s2.skip(1) =~= s.skip(1).push(x));
        lemma_sample_bytes_push(s.skip(1), x);
        assert(sample_bytes(s2.skip(1)) == sample_bytes(s.skip(1)) + le32(x as u32));
        assert(s2[0] == s[0]);
        assert(sample_bytes(s2) == le32(s[0] as u32) + sample_bytes(s2.skip(1)));
        assert(sample_bytes(s) == le32(s[0] as u32) + sample_bytes(s.skip(1)));
        assert(sample_bytes(s2) =~= sample_bytes(s) + le32(x as u32));
    }
}

proof fn lemma_sample_bytes_index(s: Seq<i32>, i: int)
    requires
        0 <= i < s.len(),
    ensures
        sample_bytes(s).len() == 4 * s.len(),
        sample_bytes(s).subrange(4 * i, 4 * i + 4) =~= le32(s[i] as u32),
    decreases i,
{
    lemma_sample_bytes_len(s);
    lemma_sample_bytes_len(s.skip(1));
    if i == 0 {
        assert(sample_bytes(s).subrange(0, 4) =~= le32(s[0] as u32));
    } else {
        lemma_sample_bytes_index(s.skip(1), i - 1);
        assert(sample_bytes(s).subrange(4 * i, 4 * i + 4) =~= sample_bytes(s.skip(1)).subrange(
            4 * (i - 1),
            4 * (i - 1) + 4,
        ));
        assert(s.skip(1)[i - 1] == s[i]);
    }
}

/// The 44-byte container header for a single-channel, 32-bit PCM file
/// holding `n` samples at the given rate.  All multi-byte fields are full
/// little-endian values derived from the sample count.
pub open spec fn wav_header(n: int, sample_rate: u32) -> Seq<u8>
    recommends
        0 <= n,
        36 + 4 * n <= u32::MAX,
        4 * sample_rate <= u32::MAX,
{
    seq![0x52u8, 0x49u8, 0x46u8, 0x46u8]  // "RIFF"
    + le32((36 + 4 * n) as u32)
    + seq![0x57u8, 0x41u8, 0x56u8, 0x45u8]  // "WAVE"
    + seq![0x66u8, 0x6du8, 0x74u8, 0x20u8]  // "fmt "
    + le32(16)  // PCM format-block size
    + le16(1)  // PCM, uncompressed
    + le16(1)  // single channel
    + le32(sample_rate)
    + le32((4 * sample_rate) as u32)  // bytes per second
    + le16(4)  // block alignment: one 32-bit mono frame
    + le16(32)  // bits per sample
    + seq![0x64u8, 0x61u8, 0x74u8, 0x61u8]  // "data"
    + le32((4 * n) as u32)
}

/// The complete container: header followed by the interleaved samples.
pub open spec fn wav_bytes(s: Seq<i32>, sample_rate: u32) -> Seq<u8>
    recommends
        36 + 4 * s.len() <= u32::MAX,
        4 * sample_rate <= u32::MAX,
{
    wav_header(s.len() as int, sample_rate) + sample_bytes(s)
}

/// Appends the four little-endian bytes of a 32-bit value.
fn push_le32(out: &mut Vec<u8>, x: u32)
    ensures
        final(out)@ == old(out)@ + le32(x),
{
    out.push((x & 0xff) as u8);
    out.push(((x >> 8) & 0xff) as u8);
    out.push(((x >> 16) & 0xff) as u8);
    out.push(((x >> 24) & 0xff) as u8);
    assert(out@ =~= old(out)@ + le32(x));
}

/// Appends the two little-endian bytes of a 16-bit value.
fn push_le16(out: &mut Vec<u8>, x: u16)
    ensures
        final(out)@ == old(out)@ + le16(x),
{
    out.push((x & 0xff) as u8);
    out.push(((x >> 8) & 0xff) as u8);
    assert(out@ =~= old(out)@ + le16(x));
}

/// Renders samples as a single-channel, 32-bit PCM container at the given
/// rate.  The caller writes the returned bytes to a file unchanged.
#[verifier::rlimit(60)]
pub fn encode_wav(data: &Vec<i32>, sample_rate: u32) -> (out: Vec<u8>)
    requires
        36 + 4 * data@.len() <= u32::MAX,
        4 * sample_rate <= u32::MAX,
    ensures
        out@ == wav_bytes(data@, sample_rate),
        out@.len() == 44 + 4 * data@.len(),
{
    let n_bytes: u32 = (data.len() * 4) as u32;
    let mut out: Vec<u8> = Vec::new();
    out.push(0x52);
    out.push(0x49);
    out.push(0x46);
    out.push(0x46);
    push_le32(&mut out, 36 + n_bytes);
    out.push(0x57);
    out.push(0x41);
    out.push(0x56);
    out.push(0x45);
    out.push(0x66);
    out.push(0x6d);
    out.push(0x74);
    out.push(0x20);
    push_le32(&mut out, 16);
    push_le16(&mut out, 1);
    push_le16(&mut out, 1);
    push_le32(&mut out, sample_rate);
    push_le32(&mut out, 4 * sample_rate);
    push_le16(&mut out, 4);
    push_le16(&mut out, 32);
    out.push(0x64);
    out.push(0x61);
    out.push(0x74);
    out.push(0x61);
    push_le32(&mut out, n_bytes);
    assert(out@ =~= wav_header(data@.len() as int, sample_rate));

    let ghost header = out@;
    let mut idx: usize = 0;
    while idx < data.len()
        invariant
            idx <= data@.len(),
            36 + 4 * data@.len() <= u32::MAX,
            out@ == header + sample_bytes(data@.take(idx as int)),
            out@.len() == 44 + 4 * idx,
            header == wav_header(data@.len() as int, sample_rate),
        decreases data@.len() - idx,
    {
        proof {
            lemma_sample_bytes_len(data@.take(idx as int));
        }
        push_le32(&mut out, data[idx] as u32);
        proof {
            lemma_sample_bytes_push(data@.take(idx as int), data@[idx as int]);
            assert(data@.take(idx as int).push(data@[idx as int]) =~= data@.take(idx + 1));
        }
        idx = idx + 1;
    }
    proof {
        assert(data@.take(data@.len() as int) =~= data@);
        lemma_sample_bytes_len(data@);
    }
    out
}

/// Whether a byte sequence is a well-formed uncompressed PCM container:
/// the fixed tags, integer PCM with a known sample width, and sizes
/// consistent with the payload.
pub open spec fn wav_parse_ok(b: Seq<u8>) -> bool {
    &&& b.len() >= 44
    &&& b.subrange(0, 4) == seq![0x52u8, 0x49u8, 0x46u8, 0x46u8]
    &&& le32_val(b[4], b[5], b[6], b[7]) == b.len() - 8
    &&& b.subrange(8, 12) == seq![0x57u8, 0x41u8, 0x56u8, 0x45u8]
    &&& b.subrange(12, 16) == seq![0x66u8, 0x6du8, 0x74u8, 0x20u8]
    &&& le32_val(b[16], b[17], b[18], b[19]) == 16
    &&& le16_val(b[20], b[21]) == 1
    &&& wav_parse_channels(b) >= 1
    &&& (wav_parse_bits(b) == 16 || wav_parse_bits(b) == 32)
    &&& le16_val(b[32], b[33]) == wav_block_align(b)
    &&& le32_val(b[28], b[29], b[30], b[31]) == wav_parse_rate(b) * wav_block_align(b)
    &&& b.subrange(36, 40) == seq![0x64u8, 0x61u8, 0x74u8, 0x61u8]
    &&& le32_val(b[40], b[41], b[42], b[43]) == b.len() - 44
    &&& (b.len() - 44) % wav_block_align(b) == 0
}

/// The sample rate named by a container.
pub open spec fn wav_parse_rate(b: Seq<u8>) -> u32 {
    le32_val(b[24], b[25], b[26], b[27])
}

/// The channel count named by a container.
pub open spec fn wav_parse_channels(b: Seq<u8>) -> u16 {
    le16_val(b[22], b[23])
}

/// The sample width named by a container, in bits.
pub open spec fn wav_parse_bits(b: Seq<u8>) -> u16 {
    le16_val(b[34], b[35])
}

/// The bytes one frame takes: all channels of one sample point.
pub open spec fn wav_block_align(b: Seq<u8>) -> int {
    wav_parse_channels(b) * (wav_parse_bits(b) / 8)
}

/// The interleaved samples held by a well-formed container, each widened
/// to a 32-bit value; 16-bit samples keep their sign.
pub open spec fn wav_parse_samples(b: Seq<u8>) -> Seq<i32> {
    if wav_parse_bits(b) == 32 {
        Seq::new(
            ((b.len() - 44) / 4) as nat,
            |i: int| le32_val(b[44 + 4 * i], b[45 + 4 * i], b[46 + 4 * i], b[47 + 4 * i]) as i32,
        )
    } else {
        Seq::new(
            ((b.len() - 44) / 2) as nat,
            |i: int| (le16_val(b[44 + 2 * i], b[45 + 2 * i]) as i16) as i32,
        )
    }
}

/// The frame count of a well-formed container: sample points per channel.
pub open spec fn wav_parse_frames(b: Seq<u8>) -> int {
    (b.len() - 44) / wav_block_align(b)
}

/// Reads the 32-bit little-endian value at the offset.
fn read_le32(bytes: &Vec<u8>, off: usize) -> (r: u32)
    requires
        off + 4 <= bytes.len(),
    ensures
        r == le32_val(
            bytes@[off as int],
            bytes@[off as int + 1],
            bytes@[off as int + 2],
            bytes@[off as int + 3],
        ),
{
    let b0 = bytes[off];
    let b1 = bytes[off + 1];
    let b2 = bytes[off + 2];
    let b3 = bytes[off + 3];
    (b0 as u32) | ((b1 as u32) << 8) | ((b2 as u32) << 16) | ((b3 as u32) << 24)
}

/// Reads the 16-bit little-endian value at the offset.
fn read_le16(bytes: &Vec<u8>, off: usize) -> (r: u16)
    requires
        off + 2 <= bytes.len(),
    ensures
        r == le16_val(bytes@[off as int], bytes@[off as int + 1]),
{
    let b0 = bytes[off];
    let b1 = bytes[off + 1];
    (b0 as u16) | ((b1 as u16) << 8)
}

/// Parses an uncompressed integer PCM container — any channel count,
/// 16- or 32-bit samples, as [`encode_wav`] or an engine writes them —
/// into an audio payload: the interleaved samples, the format descriptor,
/// and the frame count as the duration.  Malformed bytes are rejected as
/// a failed operation.
pub fn decode_wav(bytes: &Vec<u8>) -> (r: Result<SynthesizedAudio<i32>, TtsError>)
    ensures
        r is Ok <==> wav_parse_ok(bytes@),
        !wav_parse_ok(bytes@) ==> r == Result::<SynthesizedAudio<i32>, TtsError>::Err(
            TtsError::OperationFailed,
        ),
        r matches Ok(audio) ==> {
            &&& audio.data@ == wav_parse_samples(bytes@)
            &&& audio.spec == Spec::Wav(
                WavSpec {
                    channels: wav_parse_channels(bytes@),
                    sample_rate: wav_parse_rate(bytes@),
                    bits_per_sample: wav_parse_bits(bytes@),
                    sample_format: SampleFormat::Int,
                },
            )
            &&& audio.duration == Some(wav_parse_frames(bytes@) as i32)
        },
{
    if bytes.len() < 44 {
        return Err(TtsError::OperationFailed);
    }
    if !(bytes[0] == 0x52 && bytes[1] == 0x49 && bytes[2] == 0x46 && bytes[3] == 0x46) {
        proof {
            assert(bytes@.subrange(0, 4) != seq![0x52u8, 0x49u8, 0x46u8, 0x46u8]) by {
                if bytes@.subrange(0, 4) == seq![0x52u8, 0x49u8, 0x46u8, 0x46u8] {
                    assert(bytes@.subrange(0, 4)[0] == 0x52u8);
                    assert(bytes@.subrange(0, 4)[1] == 0x49u8);
                    assert(bytes@.subrange(0, 4)[2] == 0x46u8);
                    assert(bytes@.subrange(0, 4)[3] == 0x46u8);
                }
            }
        }
        return Err(TtsError::OperationFailed);
    }
    assert(bytes@.subrange(0, 4) =~= seq![0x52u8, 0x49u8, 0x46u8, 0x46u8]);
    if read_le32(bytes, 4) as usize != bytes.len() - 8 {
        return Err(TtsError::OperationFailed);
    }
    if !(bytes[8] == 0x57 && bytes[9] == 0x41 && bytes[10] == 0x56 && bytes[11] == 0x45) {
        proof {
            assert(bytes@.subrange(8, 12) != seq![0x57u8, 0x41u8, 0x56u8, 0x45u8]) by {
                if bytes@.subrange(8, 12) == seq![0x57u8, 0x41u8, 0x56u8, 0x45u8] {
                    assert(bytes@.subrange(8, 12)[0] == 0x57u8);
                    assert(bytes@.subrange(8, 12)[1] == 0x41u8);
                    assert(bytes@.subrange(8, 12)[2] == 0x56u8);
                    assert(bytes@.subrange(8, 12)[3] == 0x45u8);
                }
            }
        }
        return Err(TtsError::OperationFailed);
    }
    assert(bytes@.subrange(8, 12) =~= seq![0x57u8, 0x41u8, 0x56u8, 0x45u8]);
    if !(bytes[12] == 0x66 && bytes[13] == 0x6d && bytes[14] == 0x74 && bytes[15] == 0x20) {
        proof {
            assert(bytes@.subrange(12, 16) != seq![0x66u8, 0x6du8, 0x74u8, 0x20u8]) by {
                if bytes@.subrange(12, 16) == seq![0x66u8, 0x6du8, 0x74u8, 0x20u8] {
                    assert(bytes@.subrange(12, 16)[0] == 0x66u8);
                    assert(bytes@.subrange(12, 16)[1] == 0x6du8);
                    assert(bytes@.subrange(12, 16)[2] == 0x74u8);
                    assert(bytes@.subrange(12, 16)[3] == 0x20u8);
                }
            }
        }
        return Err(TtsError::OperationFailed);
    }
    assert(bytes@.subrange(12, 16) =~= seq![0x66u8, 0x6du8, 0x74u8, 0x20u8]);
    if read_le32(bytes, 16) != 16 {
        return Err(TtsError::OperationFailed);
    }
    if read_le16(bytes, 20) != 1 {
        return Err(TtsError::OperationFailed);
    }
    let channels = read_le16(bytes, 22);
    if channels < 1 {
        return Err(TtsError::OperationFailed);
    }
    let sample_rate = read_le32(bytes, 24);
    let bits = read_le16(bytes, 34);
    if !(bits == 16 || bits == 32) {
        return Err(TtsError::OperationFailed);
    }
    let block: u32 = if bits == 32 {
        (channels as u32) * 4
    } else {
        (channels as u32) * 2
    };
    if read_le16(bytes, 32) as u32 != block {
        return Err(TtsError::OperationFailed);
    }
    let byte_rate = read_le32(bytes, 28);
    proof {
        lemma_mul_upper_bound(sample_rate as int, u32::MAX as int, block as int, 0x3fffc);
    }
    if byte_rate as u64 != (sample_rate as u64) * (block as u64) {
        return Err(TtsError::OperationFailed);
    }
    if !(bytes[36] == 0x64 && bytes[37] == 0x61 && bytes[38] == 0x74 && bytes[39] == 0x61) {
        proof {
            assert(bytes@.subrange(36, 40) != seq![0x64u8, 0x61u8, 0x74u8, 0x61u8]) by {
                if bytes@.subrange(36, 40) == seq![0x64u8, 0x61u8, 0x74u8, 0x61u8] {
                    assert(bytes@.subrange(36, 40)[0] == 0x64u8);
                    assert(bytes@.subrange(36, 40)[1] == 0x61u8);
                    assert(bytes@.subrange(36, 40)[2] == 0x74u8);
                    assert(bytes@.subrange(36, 40)[3] == 0x61u8);
                }
            }
        }
        return Err(TtsError::OperationFailed);
    }
    assert(bytes@.subrange(36, 40) =~= seq![0x64u8, 0x61u8, 0x74u8, 0x61u8]);
    if read_le32(bytes, 40) as usize != bytes.len() - 44 {
        return Err(TtsError::OperationFailed);
    }
    if (bytes.len() - 44) % (block as usize) != 0 {
        return Err(TtsError::OperationFailed);
    }
    assert(wav_parse_ok(bytes@));

    let mut data: Vec<i32> = Vec::new();
    if bits == 32 {
        let n: usize = (bytes.len() - 44) / 4;
        proof {
            assert(4 * ((bytes@.len() - 44) / 4) <= bytes@.len() - 44);
        }
        let mut idx: usize = 0;
        while idx < n
            invariant
                idx <= n,
                n == (bytes@.len() - 44) / 4,
                44 + 4 * (n as int) <= bytes@.len(),
                bytes@.len() <= usize::MAX,
                bytes@.len() >= 44,
                data@.len() == idx,
                forall|i: int|
                    0 <= i < idx ==> data@[i] == le32_val(
                        bytes@[44 + 4 * i],
                        bytes@[45 + 4 * i],
                        bytes@[46 + 4 * i],
                        bytes@[47 + 4 * i],
                    ) as i32,
            decreases n - idx,
        {
            proof {
                assert(4 * ((bytes@.len() - 44) / 4) <= bytes@.len() - 44);
            }
            let v = read_le32(bytes, 44 + 4 * idx);
            data.push(v as i32);
            idx = idx + 1;
        }
    } else {
        let n: usize = (bytes.len() - 44) / 2;
        proof {
            assert(2 * ((bytes@.len() - 44) / 2) <= bytes@.len() - 44);
        }
        let mut idx: usize = 0;
        while idx < n
            invariant
                idx <= n,
                n == (bytes@.len() - 44) / 2,
                44 + 2 * (n as int) <= bytes@.len(),
                bytes@.len() <= usize::MAX,
                bytes@.len() >= 44,
                data@.len() == idx,
                forall|i: int|
                    0 <= i < idx ==> data@[i] == (le16_val(
                        bytes@[44 + 2 * i],
                        bytes@[45 + 2 * i],
                    ) as i16) as i32,
            decreases n - idx,
        {
            proof {
                assert(2 * ((bytes@.len() - 44) / 2) <= bytes@.len() - 44);
            }
            let v = read_le16(bytes, 44 + 2 * idx);
            data.push((v as i16) as i32);
            idx = idx + 1;
        }
    }
    assert(data@ =~= wav_parse_samples(bytes@));

    let frames: usize = (bytes.len() - 44) / (block as usize);
    proof {
        lemma_div_is_ordered_by_denominator(bytes@.len() - 44, 2, block as int);
        assert((bytes@.len() - 44) / (block as int) <= (bytes@.len() - 44) / 2);
    }
    Ok(
        SynthesizedAudio::new(
            data,
            Spec::Wav(
                WavSpec {
                    channels,
                    sample_rate,
                    bits_per_sample: bits,
                    sample_format: SampleFormat::Int,
                },
            ),
            Some(frames as i32),
        ),
    )
}

/// Rendering and parsing are exact inverses: parsing a rendered container
/// always succeeds and gives back exactly the samples and the rate that
/// were rendered, so the save-then-decode synthesis fallback yields the
/// same payload a direct read of the saved file would.
pub proof fn lemma_wav_round_trip(s: Seq<i32>, sample_rate: u32)
    requires
        36 + 4 * s.len() <= u32::MAX,
        4 * sample_rate <= u32::MAX,
    ensures
        wav_parse_ok(wav_bytes(s, sample_rate)),
        wav_parse_rate(wav_bytes(s, sample_rate)) == sample_rate,
        wav_parse_samples(wav_bytes(s, sample_rate)) == s,
        wav_parse_frames(wav_bytes(s, sample_rate)) == s.len(),
{
    let b = wav_bytes(s, sample_rate);
    lemma_sample_bytes_len(s);
    assert(b.len() == 44 + 4 * s.len());
    lemma_le32_roundtrip((36 + 4 * s.len()) as u32);
    lemma_le32_roundtrip(16);
    lemma_le16_roundtrip(1);
    lemma_le32_roundtrip(sample_rate);
    lemma_le32_roundtrip((4 * sample_rate) as u32);
    lemma_le16_roundtrip(4);
    lemma_le16_roundtrip(32);
    lemma_le32_roundtrip((4 * s.len()) as u32);
    assert(b.subrange(0, 4) =~= seq![0x52u8, 0x49u8, 0x46u8, 0x46u8]);
    assert(b.subrange(8, 12) =~= seq![0x57u8, 0x41u8, 0x56u8, 0x45u8]);
    assert(b.subrange(12, 16) =~= seq![0x66u8, 0x6du8, 0x74u8, 0x20u8]);
    assert(b.subrange(36, 40) =~= seq![0x64u8, 0x61u8, 0x74u8, 0x61u8]);
    assert(wav_parse_channels(b) == 1);
    assert(wav_parse_bits(b) == 32);
    assert(wav_block_align(b) == 4);
    assert(le32_val(b[28], b[29], b[30], b[31]) == wav_parse_rate(b) * wav_block_align(b));
    assert(b.len() - 44 == 4 * s.len());
    assert((4 * s.len()) % 4 == 0) by (nonlinear_arith);
    assert(wav_parse_ok(b));
    assert(wav_parse_samples(b).len() == s.len());
    assert forall|i: int| 0 <= i < s.len() implies wav_parse_samples(b)[i] == s[i] by {
        lemma_sample_bytes_index(s, i);
        let sb = sample_bytes(s);
        assert(sb.subrange(4 * i, 4 * i + 4) =~= le32(s[i] as u32));
        assert(b[44 + 4 * i] == sb[4 * i]);
        assert(b[45 + 4 * i] == sb[4 * i + 1]);
        assert(b[46 + 4 * i] == sb[4 * i + 2]);
        assert(b[47 + 4 * i] == sb[4 * i + 3]);
        assert(sb[4 * i] == sb.subrange(4 * i, 4 * i + 4)[0]);
        assert(sb[4 * i + 1] == sb.subrange(4 * i, 4 * i + 4)[1]);
        assert(sb[4 * i + 2] == sb.subrange(4 * i, 4 * i + 4)[2]);
        assert(sb[4 * i + 3] == sb.subrange(4 * i, 4 * i + 4)[3]);
        lemma_le32_roundtrip(s[i] as u32);
        lemma_i32_u32_roundtrip(s[i]);
    }
    assert(wav_parse_samples(b) =~= s);
}

/// The characters of a sequence of ASCII bytes.
pub open spec fn ascii_chars(bs: Seq<u8>) -> Seq<char> {
    bs.map_values(|b: u8| b as char)
}

/// Relies on String::from_utf8: ASCII bytes are valid UTF-8 and decode to
/// exactly those characters, one per byte.
#[verifier::external_body]
pub(crate) fn ascii_to_string(bytes: Vec<u8>) -> (r: String)
    requires
        forall|i: int| 0 <= i < bytes@.len() ==> bytes@[i] < 0x80,
    ensures
        r@ == ascii_chars(bytes@),
{
    String::from_utf8(bytes).unwrap()
}

/// The decimal digit bytes of a non-negative number, most significant first.
pub open spec fn dec_bytes(n: int) -> Seq<u8>
    recommends
        0 <= n,
    decreases n,
{
    if n < 10 {
        seq![(0x30 + n) as u8]
    } else {
        dec_bytes(n / 10) + seq![(0x30 + n % 10) as u8]
    }
}

/// The decimal digit characters of a non-negative number.
pub open spec fn dec_chars(n: int) -> Seq<char> {
    ascii_chars(dec_bytes(n))
}

proof fn lemma_dec_bytes_ascii(n: int)
    requires
        0 <= n,
    ensures
        forall|i: int| 0 <= i < dec_bytes(n).len() ==> 0x30 <= #[trigger] dec_bytes(n)[i] <= 0x39,
    decreases n,
{
    if n < 10 {
        assert(dec_bytes(n)[0] == (0x30 + n) as u8);
    } else {
        lemma_dec_bytes_ascii(n / 10);
        assert(dec_bytes(n) == dec_bytes(n / 10) + seq![(0x30 + n % 10) as u8]);
        assert forall|i: int| 0 <= i < dec_bytes(n).len() implies 0x30 <= #[trigger] dec_bytes(
            n,
        )[i] <= 0x39 by {
            if i < dec_bytes(n / 10).len() {
                assert(dec_bytes(n)[i] == dec_bytes(n / 10)[i]);
            } else {
                assert(dec_bytes(n)[i] == (0x30 + n % 10) as u8);
            }
        }
    }
}

/// Appends the decimal digit bytes of the number.
fn push_dec(n: usize, out: &mut Vec<u8>)
    ensures
        final(out)@ == old(out)@ + dec_bytes(n as int),
    decreases n,
{
    if n >= 10 {
        push_dec(n / 10, out);
    }
    out.push(0x30 + (n % 10) as u8);
    assert(out@ =~= old(out)@ + dec_bytes(n as int));
}

/// The decimal representation of a number, as a string.
pub fn usize_to_string(n: usize) -> (r: String)
    ensures
        r@ == dec_chars(n as int),
{
    let mut digits: Vec<u8> = Vec::new();
    push_dec(n, &mut digits);
    proof {
        lemma_dec_bytes_ascii(n as int);
        assert(digits@ =~= dec_bytes(n as int));
    }
    ascii_to_string(digits)
}

/// Joins a project directory, the source subdirectory, and a file name
/// into one path string.
pub fn get_path(manifest_dir: &str, path: String) -> (r: String)
    ensures
        r@ == manifest_dir@ + "/src/"@ + path@,
{
    let mut new_path = manifest_dir.to_owned();
    new_path.append("/src/");
    new_path.append(path.as_str());
    new_path
}

} // verus!
