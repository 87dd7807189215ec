use vstd::prelude::*;

verus! {

/// True when `n` is a power of two (1, 2, 4, ...).
pub open spec fn is_power_of_two(n: nat) -> bool
    decreases n,
{
    if n == 0 {
        false
    } else if n == 1 {
        true
    } else {
        n % 2 == 0 && is_power_of_two(n / 2)
    }
}

/// `p` is the smallest power of two that is not below `n`.
pub open spec fn is_padded_len(n: nat, p: nat) -> bool {
    &&& is_power_of_two(p)
    &&& n <= p
    &&& (p == 1 || p / 2 < n)
}

/// Length of the magnitude spectrum kept from a transform of `len` bins:
/// the lower half without its top bin.
pub open spec fn spectrum_len(len: nat) -> nat {
    if len >= 2 {
        (len / 2 - 1) as nat
    } else {
        0
    }
}

/// The input of the transform for one channel: the samples followed by
/// zero samples up to the smallest power of two that holds them all.
pub fn transform_input(samples: &Vec<u32>) -> (r: Vec<u32>)
    requires
        samples.len() <= usize::MAX / 2,
    ensures
        is_padded_len(samples.len() as nat, r.len() as nat),
        forall|i: int| 0 <= i < samples.len() ==> r[i] == samples[i],
        forall|i: int| samples.len() <= i < r.len() ==> r[i] == 0,
{
    let n = samples.len();
    let mut p: usize = 1;
    while p < n
        invariant
            n == samples.len(),
            n <= usize::MAX / 2,
            is_power_of_two(p as nat),
            p >= 1,
            p == 1 || p / 2 < n,
        decreases usize::MAX - p,
    {
        p = p * 2;
    }
    let mut r: Vec<u32> = Vec::new();
    let mut i: usize = 0;
    while i < p
        invariant
            n == samples.len(),
            n <= p,
            i <= p,
            r.len() == i,
            forall|j: int| 0 <= j < i && j < n ==> r[j] == samples[j],
            forall|j: int| n <= j < i ==> r[j] == 0,
        decreases p - i,
    {
        if i < n {
            r.push(samples[i]);
        } else {
            r.push(0);
        }
        i = i + 1;
    }
    r
}

/// Shapes the magnitudes of a full transform into the published spectrum.
/// The upper half mirrors the lower one for real input and is dropped, as is
/// the top bin of the lower half; the DC bin and the last kept bin are then
/// set to zero.
pub fn trim_spectrum(magnitudes: Vec<u32>) -> (r: Vec<u32>)
    ensures
        r.len() == spectrum_len(magnitudes.len() as nat),
        forall|i: int| 0 < i < r.len() - 1 ==> r[i] == magnitudes[i],
        r.len() > 0 ==> r[0] == 0 && r[r.len() - 1] == 0,
{
    let mut r = magnitudes;
    let len = r.len();
    if len < 2 {
        return Vec::new();
    }
    r.truncate(len / 2 - 1);
    let kept = r.len();
    if kept > 0 {
        r.set(0, 0);
        r.set(kept - 1, 0);
    }
    r
}

/// The number of spectrum bins shown by a renderer that cuts off at
/// `cutoff_hz`: `floor(cutoff_hz / bin_frequency)` with
/// `bin_frequency = sample_rate / buffer_size`, at most the spectrum length.
pub open spec fn cutoff_bin_spec(cutoff_hz: nat, sample_rate: nat, buffer_size: nat, spectrum_len: nat) -> nat
    recommends
        sample_rate > 0,
{
    let bins = cutoff_hz * buffer_size / sample_rate;
    if bins < spectrum_len {
        bins
    } else {
        spectrum_len
    }
}

/// The number of spectrum bins below `cutoff_hz`, computed exactly over the
/// integers and clamped to the spectrum length.
pub fn cutoff_bin(cutoff_hz: u32, sample_rate: u32, buffer_size: u32, spectrum_len: usize) -> (r: usize)
    requires
        sample_rate > 0,
    ensures
        r == cutoff_bin_spec(cutoff_hz as nat, sample_rate as nat, buffer_size as nat, spectrum_len as nat),
{
    assert(cutoff_hz as u64 * buffer_size as u64 <= u32::MAX as u64 * u32::MAX as u64) by (nonlinear_arith);
    let product: u64 = cutoff_hz as u64 * buffer_size as u64;
    let bins: u64 = product / sample_rate as u64;
    if bins < spectrum_len as u64 {
        bins as usize
    } else {
        spectrum_len
    }
}

} // verus!
