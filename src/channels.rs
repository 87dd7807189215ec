use vstd::prelude::*;

verus! {

/// The samples of channel `channel` in an interleaved buffer of `stride`
/// channels: one per complete frame.
pub open spec fn channel_of(raw: Seq<u32>, stride: nat, channel: nat) -> Seq<u32>
    recommends
        channel < stride,
{
    Seq::new(raw.len() / stride, |i: int| raw[i * stride + channel])
}

/// The two channel slots filled from an interleaved buffer with `channels`
/// channels. A mono stream fills both slots with the same samples; a stream
/// with more than two channels contributes its first two only.
pub open spec fn split_view(raw: Seq<u32>, channels: nat) -> (Seq<u32>, Seq<u32>) {
    let left = channel_of(raw, channels, 0);
    if channels >= 2 {
        (left, channel_of(raw, channels, 1))
    } else {
        (left, left)
    }
}

proof fn lemma_frame_in_bounds(i: int, stride: int, len: int)
    requires
        0 <= i < len / stride,
        stride > 0,
        len >= 0,
    ensures
        i * stride + stride <= len,
        0 <= i * stride,
{
    assert(i * stride + stride <= (len / stride) * stride) by (nonlinear_arith)
        requires
            0 <= i < len / stride,
            stride > 0,
    ;
    assert((len / stride) * stride <= len) by (nonlinear_arith)
        requires
            stride > 0,
            len >= 0,
    ;
    assert(0 <= i * stride) by (nonlinear_arith)
        requires
            0 <= i,
            stride > 0,
    ;
}

/// Separates an interleaved buffer into the two channel slots of a snapshot.
pub fn split_channels(raw: &Vec<u32>, channels: usize) -> (r: [Vec<u32>; 2])
    requires
        channels >= 1,
    ensures
        r[0]@ == split_view(raw@, channels as nat).0,
        r[1]@ == split_view(raw@, channels as nat).1,
{
    let frames = raw.len() / channels;
    let mut left: Vec<u32> = Vec::new();
    let mut right: Vec<u32> = Vec::new();
    let mut i: usize = 0;
    while i < frames
        invariant
            channels >= 1,
            frames == raw.len() / channels,
            i <= frames,
            left.len() == i,
            right.len() == i,
            forall|j: int| 0 <= j < i ==> left[j] == raw[j * channels],
            forall|j: int|
                0 <= j < i ==> right[j] == if channels >= 2 {
                    raw[j * channels + 1]
                } else {
                    raw[j * channels]
                },
        decreases frames - i,
    {
        proof {
            lemma_frame_in_bounds(i as int, channels as int, raw.len() as int);
        }
        let base = i * channels;
        left.push(raw[base]);
        if channels >= 2 {
            right.push(raw[base + 1]);
        } else {
            right.push(raw[base]);
        }
        i = i + 1;
    }
    proof {
        let v = split_view(raw@, channels as nat);
        assert(left@ =~= v.0);
        assert(right@ =~= v.1);
    }
    [left, right]
}

} // verus!
