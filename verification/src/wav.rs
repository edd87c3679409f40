//! Framing of 16-bit mono samples as a WAV file, byte for byte.

use crate::error::WhisperError;
use vstd::bytes::{spec_u16_to_le_bytes, spec_u32_to_le_bytes, u16_to_le_bytes, u32_to_le_bytes};
use vstd::prelude::*;
use vstd::string::StringExecFns;

verus! {

/// Bytes in front of the samples.
pub const HEADER_LENGTH: usize = 44;

/// Bytes of the header that follow the size of the file.
pub const HEADER_AFTER_SIZE: u32 = 36;

/// Bytes per sample.
pub const BYTES_PER_SAMPLE: u32 = 2;

/// The sample as an unsigned number of sixteen bits, in two's complement.
pub open spec fn sample_bits(sample: i16) -> u16 {
    if sample >= 0 {
        sample as u16
    } else {
        (sample + 0x1_0000) as u16
    }
}

/// The samples as bytes, two for each, low byte first.
pub open spec fn pcm_bytes(samples: Seq<i16>) -> Seq<u8>
    decreases samples.len(),
{
    if samples.len() == 0 {
        Seq::empty()
    } else {
        pcm_bytes(samples.drop_last()) + spec_u16_to_le_bytes(sample_bits(samples.last()))
    }
}

/// The header of a WAV file for `sample_count` mono samples of sixteen
/// bits at `sample_rate`: the RIFF chunk with the size of all that
/// follows it, the format chunk for plain PCM, and the head of the data
/// chunk with the size of the samples. Numbers stand low byte first.
pub open spec fn wav_header(sample_rate: u32, sample_count: nat) -> Seq<u8> {
    seq![0x52u8, 0x49u8, 0x46u8, 0x46u8] + spec_u32_to_le_bytes(
        (HEADER_AFTER_SIZE + BYTES_PER_SAMPLE * sample_count) as u32,
    ) + seq![0x57u8, 0x41u8, 0x56u8, 0x45u8] + seq![0x66u8, 0x6du8, 0x74u8, 0x20u8]
        + spec_u32_to_le_bytes(16) + spec_u16_to_le_bytes(1) + spec_u16_to_le_bytes(1)
        + spec_u32_to_le_bytes(sample_rate) + spec_u32_to_le_bytes(
        (sample_rate * BYTES_PER_SAMPLE) as u32,
    ) + spec_u16_to_le_bytes(2) + spec_u16_to_le_bytes(16) + seq![0x64u8, 0x61u8, 0x74u8, 0x61u8]
        + spec_u32_to_le_bytes((BYTES_PER_SAMPLE * sample_count) as u32)
}

/// The whole file: the header, then the samples.
pub open spec fn spec_wav(sample_rate: u32, samples: Seq<i16>) -> Seq<u8> {
    wav_header(sample_rate, samples.len()) + pcm_bytes(samples)
}

/// The sizes fit the four bytes that the format gives them.
pub open spec fn fits_wav(sample_rate: u32, sample_count: nat) -> bool {
    &&& sample_rate * BYTES_PER_SAMPLE <= u32::MAX
    &&& HEADER_AFTER_SIZE + BYTES_PER_SAMPLE * sample_count <= u32::MAX
}

fn put(out: &mut Vec<u8>, bytes: Vec<u8>)
    ensures
        final(out)@ == old(out)@ + bytes@,
{
    let mut bytes = bytes;
    out.append(&mut bytes);
}

fn put_tag(out: &mut Vec<u8>, a: u8, b: u8, c: u8, d: u8)
    ensures
        final(out)@ == old(out)@ + seq![a, b, c, d],
{
    out.push(a);
    out.push(b);
    out.push(c);
    out.push(d);
    assert(out@ =~= old(out)@ + seq![a, b, c, d]);
}

/// Computes [`sample_bits`].
pub fn bits_of_sample(sample: i16) -> (bits: u16)
    ensures
        bits == sample_bits(sample),
{
    if sample >= 0 {
        sample as u16
    } else {
        (sample as i32 + 0x1_0000) as u16
    }
}

/// Frames `samples`, taken at `sample_rate`, as a WAV file.
///
/// Fails with `InvalidAudioData` exactly when a size does not fit the
/// four bytes that the format gives it.
pub fn encode_wav(sample_rate: u32, samples: &[i16]) -> (result: Result<Vec<u8>, WhisperError>)
    ensures
        result is Ok <==> fits_wav(sample_rate, samples@.len()),
        result is Err ==> result->Err_0 is InvalidAudioData,
        result is Ok ==> result->Ok_0@ == spec_wav(sample_rate, samples@),
{
    let count: usize = samples.len();
    if sample_rate > u32::MAX / BYTES_PER_SAMPLE {
        return Err(WhisperError::InvalidAudioData);
    }
    if count as u128 > ((u32::MAX - HEADER_AFTER_SIZE) / BYTES_PER_SAMPLE) as u128 {
        return Err(WhisperError::InvalidAudioData);
    }
    let data_size: u32 = count as u32 * BYTES_PER_SAMPLE;
    let mut out: Vec<u8> = Vec::new();
    put_tag(&mut out, 0x52, 0x49, 0x46, 0x46);
    put(&mut out, u32_to_le_bytes(HEADER_AFTER_SIZE + data_size));
    put_tag(&mut out, 0x57, 0x41, 0x56, 0x45);
    put_tag(&mut out, 0x66, 0x6d, 0x74, 0x20);
    put(&mut out, u32_to_le_bytes(16));
    put(&mut out, u16_to_le_bytes(1));
    put(&mut out, u16_to_le_bytes(1));
    put(&mut out, u32_to_le_bytes(sample_rate));
    put(&mut out, u32_to_le_bytes(sample_rate * BYTES_PER_SAMPLE));
    put(&mut out, u16_to_le_bytes(2));
    put(&mut out, u16_to_le_bytes(16));
    put_tag(&mut out, 0x64, 0x61, 0x74, 0x61);
    put(&mut out, u32_to_le_bytes(data_size));
    assert(out@ =~= Seq::<u8>::empty() + wav_header(sample_rate, count as nat));
    assert(samples@.take(0) =~= Seq::<i16>::empty());
    let mut i: usize = 0;
    while i < count
        invariant
            i <= count,
            count == samples@.len(),
            out@ == wav_header(sample_rate, count as nat) + pcm_bytes(samples@.take(i as int)),
        decreases count - i,
    {
        let ghost done = samples@.take(i as int);
        put(&mut out, u16_to_le_bytes(bits_of_sample(samples[i])));
        proof {
            let next = samples@.take(i as int + 1);
            assert(next.drop_last() =~= done);
            assert(next.last() == samples@[i as int]);
            assert(out@ =~= wav_header(sample_rate, count as nat) + pcm_bytes(next));
        }
        i = i + 1;
    }
    assert(samples@.take(count as int) =~= samples@);
    Ok(out)
}

} // verus!
