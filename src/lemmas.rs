use vstd::prelude::*;
use crate::audio::{published, spectrum_edges_zero, spectrum_view, AnalyzedAudio, Audio, AudioState, PendingView};
use crate::channels::split_view;
use crate::spectrum::{is_padded_len, is_power_of_two};

verus! {

/// In every consistent state of the analysis side, a snapshot of a mono
/// stream holds bit-identical samples and spectra in its two slots.
pub proof fn lemma_mono_slots_agree(state: AudioState)
    requires
        state.wf(),
        state.snapshot.channels == 1,
    ensures
        state.snapshot.amplitude.1 == state.snapshot.amplitude.0,
        state.snapshot.frequency.1 == state.snapshot.frequency.0,
{
}

/// Publishing a buffer of a mono stream yields a mono snapshot whose two
/// slots agree, whatever magnitudes were handed in for the second slot.
pub proof fn lemma_mono_publish(p: PendingView, magnitudes: (Seq<u32>, Seq<u32>))
    requires
        p.wf(),
        p.config.channels == 1,
    ensures
        published(p, magnitudes).channels == 1,
        published(p, magnitudes).amplitude.1 == published(p, magnitudes).amplitude.0,
        published(p, magnitudes).frequency.1 == published(p, magnitudes).frequency.0,
{
}

/// A stereo buffer of `2N` samples gives `N` frames: the even samples form
/// the first channel and the odd samples the second.
pub proof fn lemma_stereo_deinterleave(raw: Seq<u32>)
    ensures
        split_view(raw, 2).0.len() == raw.len() / 2,
        split_view(raw, 2).1.len() == raw.len() / 2,
        forall|i: int|
            0 <= i < raw.len() / 2 ==> split_view(raw, 2).0[i] == raw[2 * i] && split_view(
                raw,
                2,
            ).1[i] == raw[2 * i + 1],
{
    assert forall|i: int| 0 <= i < raw.len() / 2 implies split_view(raw, 2).0[i] == raw[2 * i]
        && split_view(raw, 2).1[i] == raw[2 * i + 1] by {
        assert(i * 2 == 2 * i);
    }
}

/// Of two powers of two, the smaller is at most half the larger.
proof fn lemma_power_of_two_gap(a: nat, b: nat)
    requires
        is_power_of_two(a),
        is_power_of_two(b),
        a < b,
    ensures
        2 * a <= b,
    decreases b,
{
    if a != 1 {
        lemma_power_of_two_gap(a / 2, b / 2);
    }
}

/// A power of two is its own padded length.
pub proof fn lemma_padding_keeps_power_of_two(n: nat, p: nat)
    requires
        is_power_of_two(n),
        is_padded_len(n, p),
    ensures
        p == n,
{
    if p > n {
        lemma_power_of_two_gap(n, p);
    }
}

/// For a buffer of `L` frames, `L` a power of two of at least 2, each
/// published spectrum has `L/2 - 1` bins.
pub proof fn lemma_spectrum_length(p: PendingView, magnitudes: (Seq<u32>, Seq<u32>))
    requires
        p.wf(),
        is_power_of_two(p.frames()),
        p.frames() >= 2,
        is_padded_len(p.frames(), magnitudes.0.len()),
        p.config.channels >= 2 ==> magnitudes.1.len() == magnitudes.0.len(),
    ensures
        published(p, magnitudes).frequency.0.len() == p.frames() / 2 - 1,
        published(p, magnitudes).frequency.1.len() == p.frames() / 2 - 1,
{
    lemma_padding_keeps_power_of_two(p.frames(), magnitudes.0.len());
}

/// Every published spectrum, and the spectrum in every consistent state,
/// has its first and its last bin at zero.
pub proof fn lemma_spectrum_edges_zero(state: AudioState, magnitudes: Seq<u32>)
    requires
        state.wf(),
    ensures
        spectrum_edges_zero(spectrum_view(magnitudes)),
        spectrum_edges_zero(state.snapshot.frequency.0),
        spectrum_edges_zero(state.snapshot.frequency.1),
{
}

/// Two reads of the snapshot with no publish in between return equal
/// values.
pub proof fn lemma_snapshot_reads_agree(audio: Audio, first: AnalyzedAudio, second: AnalyzedAudio)
    requires
        first@ == audio@.snapshot,
        second@ == audio@.snapshot,
    ensures
        first@ == second@,
{
}

} // verus!
