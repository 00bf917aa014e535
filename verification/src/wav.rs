//! What a WAV file of a rendered tone holds: the layout that goes with a
//! sample width, and the integer encoding of the samples.

use crate::envelope::clamped;
use crate::units::{div_toward_zero, in_full_scale};
use vstd::prelude::*;

verus! {

/// The largest 24-bit sample: 2^23 - 1.
pub const PCM24_PEAK: i32 = 8_388_607;

/// Why a buffer cannot be written.
#[derive(Debug, Clone, Copy, PartialEq, Eq, Structural)]
pub enum WavWriteError {
    /// The sample width, in bits, is neither 32 nor 24.
    InvalidBitsPerSample(u16),
}

/// How a sample is stored.
#[derive(Debug, Clone, Copy, PartialEq, Eq, Structural)]
pub enum SampleEncoding {
    /// As a floating-point number.
    Float,
    /// As a signed integer.
    Int,
}

/// The header fields of a WAV file.
#[derive(Debug, Clone, Copy, PartialEq, Eq, Structural)]
pub struct WavLayout {
    pub channels: u16,
    pub sample_rate: u32,
    pub bits_per_sample: u16,
    pub sample_format: SampleEncoding,
}

/// The layout for a sample width: two channels at the given rate, 32 bits in
/// floating point or 24 bits as integers. No other width is written.
pub open spec fn layout_for(sample_rate: u32, bits_per_sample: u16) -> Result<
    WavLayout,
    WavWriteError,
> {
    if bits_per_sample == 32 {
        Ok(
            WavLayout {
                channels: 2,
                sample_rate,
                bits_per_sample: 32,
                sample_format: SampleEncoding::Float,
            },
        )
    } else if bits_per_sample == 24 {
        Ok(
            WavLayout {
                channels: 2,
                sample_rate,
                bits_per_sample: 24,
                sample_format: SampleEncoding::Int,
            },
        )
    } else {
        Err(WavWriteError::InvalidBitsPerSample(bits_per_sample))
    }
}

/// The 24-bit integer for a sample in millionths: the sample times 2^23 - 1,
/// rounded toward zero, and held to 32 bits.
pub open spec fn pcm24_of(sample: int) -> int {
    clamped(div_toward_zero(sample * 8_388_607, 1_000_000), i32::MIN as int, i32::MAX as int)
}

/// Chooses the layout of the file.
pub fn wav_layout(sample_rate: u32, bits_per_sample: u16) -> (result: Result<
    WavLayout,
    WavWriteError,
>)
    ensures
        result == layout_for(sample_rate, bits_per_sample),
{
    if bits_per_sample == 32 {
        Ok(
            WavLayout {
                channels: 2,
                sample_rate,
                bits_per_sample: 32,
                sample_format: SampleEncoding::Float,
            },
        )
    } else if bits_per_sample == 24 {
        Ok(
            WavLayout {
                channels: 2,
                sample_rate,
                bits_per_sample: 24,
                sample_format: SampleEncoding::Int,
            },
        )
    } else {
        Err(WavWriteError::InvalidBitsPerSample(bits_per_sample))
    }
}

/// Encodes one sample as a 24-bit integer.
pub fn to_pcm24(sample: i32) -> (pcm: i32)
    ensures
        pcm == pcm24_of(sample as int),
        in_full_scale(sample as int) ==> -PCM24_PEAK <= pcm <= PCM24_PEAK,
{
    if sample >= 0 {
        let scaled: u64 = (sample as u64 * 8_388_607) / 1_000_000;
        if scaled > i32::MAX as u64 {
            i32::MAX
        } else {
            scaled as i32
        }
    } else {
        let magnitude: u64 = (-(sample as i64)) as u64;
        let scaled: u64 = (magnitude * 8_388_607) / 1_000_000;
        if scaled > 0x8000_0000 {
            i32::MIN
        } else {
            (-(scaled as i64)) as i32
        }
    }
}

/// Encodes a buffer as 24-bit integers, sample for sample.
pub fn encode_pcm24(samples: &Vec<i32>) -> (encoded: Vec<i32>)
    ensures
        encoded.len() == samples.len(),
        forall|i: int| 0 <= i < samples.len() ==> #[trigger] encoded@[i] == pcm24_of(samples@[i] as int),
{
    let mut encoded: Vec<i32> = Vec::new();
    let mut i: usize = 0;
    while i < samples.len()
        invariant
            i <= samples.len(),
            encoded.len() == i,
            forall|j: int| 0 <= j < i ==> #[trigger] encoded@[j] == pcm24_of(samples@[j] as int),
        decreases samples.len() - i,
    {
        encoded.push(to_pcm24(samples[i]));
        i = i + 1;
    }
    encoded
}

} // verus!
