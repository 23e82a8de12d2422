//! Conversion of scaled amplitudes to 16-bit samples.
//!
//! A device delivers amplitudes in the range -1 to 1. The host scales each by
//! `FULL_SCALE` and rounds it to an integer; what is left, the clamping to the
//! range of a sample, is done here on integers.

use vstd::prelude::*;

verus! {

/// The scaled amplitude of full positive deflection.
pub const FULL_SCALE: i64 = 32767;

/// The sample for a scaled amplitude: the amplitude itself where a sample can
/// hold it, else the nearest bound.
pub open spec fn clamped(scaled: int) -> int {
    if scaled < -32768 {
        -32768
    } else if scaled > 32767 {
        32767
    } else {
        scaled
    }
}

/// The samples for a frame of scaled amplitudes, one for one.
pub open spec fn quantized(frame: Seq<i64>) -> Seq<i16> {
    Seq::new(frame.len(), |i: int| clamped(frame[i] as int) as i16)
}

/// Converts one scaled amplitude.
pub fn quantize(scaled: i64) -> (s: i16)
    ensures
        s as int == clamped(scaled as int),
{
    if scaled < -32768 {
        -32768
    } else if scaled > 32767 {
        32767
    } else {
        scaled as i16
    }
}

/// Converts a frame, keeping its order.
pub fn quantize_frame(frame: &[i64]) -> (samples: Vec<i16>)
    ensures
        samples@ == quantized(frame@),
{
    let mut samples: Vec<i16> = Vec::new();
    let mut i: usize = 0;
    while i < frame.len()
        invariant
            i <= frame.len(),
            samples@ == quantized(frame@.subrange(0, i as int)),
        decreases frame.len() - i,
    {
        samples.push(quantize(frame[i]));
        i += 1;
        assert(samples@ =~= quantized(frame@.subrange(0, i as int)));
    }
    assert(frame@.subrange(0, i as int) =~= frame@);
    samples
}

/// Every sample lies in the range of 16 bits.
pub proof fn lemma_clamped_in_range(scaled: int)
    ensures
        -32768 <= clamped(scaled) <= 32767,
{
}

/// An amplitude within full scale is kept as it is, so its sample lies within
/// full scale too.
pub proof fn lemma_clamped_within_full_scale(scaled: int)
    requires
        -32767 <= scaled <= 32767,
    ensures
        clamped(scaled) == scaled,
        -32767 <= clamped(scaled) <= 32767,
{
}

/// A larger amplitude never gives a smaller sample.
pub proof fn lemma_clamped_monotone(a: int, b: int)
    requires
        a <= b,
    ensures
        clamped(a) <= clamped(b),
{
}

/// Within full scale, distinct amplitudes give distinct samples in the same
/// order.
pub proof fn lemma_clamped_strictly_monotone(a: int, b: int)
    requires
        -32767 <= a < b <= 32767,
    ensures
        clamped(a) < clamped(b),
{
}

/// The sample has the sign of the amplitude, and silence stays silence.
pub proof fn lemma_clamped_sign(scaled: int)
    ensures
        scaled == 0 <==> clamped(scaled) == 0,
        scaled > 0 <==> clamped(scaled) > 0,
        scaled < 0 <==> clamped(scaled) < 0,
{
}

/// Within full scale, the opposite amplitude gives the opposite sample.
pub proof fn lemma_clamped_odd(scaled: int)
    requires
        -32767 <= scaled <= 32767,
    ensures
        clamped(-scaled) == -clamped(scaled),
{
}

/// A frame gives as many samples as it has amplitudes.
pub proof fn lemma_quantized_len(frame: Seq<i64>)
    ensures
        quantized(frame).len() == frame.len(),
{
}

} // verus!
