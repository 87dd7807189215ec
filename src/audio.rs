use vstd::prelude::*;
use crate::channels::{split_channels, split_view};
use crate::config::StreamConfig;
use crate::device::DeviceChoice;
use crate::spectrum::{is_padded_len, spectrum_len, transform_input, trim_spectrum};

verus! {

/// Notifications the audio system sends to the application.
#[derive(Clone, Copy, Debug, PartialEq, Eq, Structural)]
pub enum AudioEvent {
    /// A switch of input device succeeded; carries the resolved index.
    InputDeviceChanged(usize),
}

/// The latest analysed buffer: per channel slot the time-domain samples and
/// the magnitude spectrum, with the stream parameters they were taken with.
/// The resolution of one spectrum bin is `sample_rate / buffer_size` Hz.
#[derive(Clone)]
pub struct AnalyzedAudio {
    pub amplitude: [Vec<u32>; 2],
    pub frequency: [Vec<u32>; 2],
    pub buffer_size: u32,
    pub sample_rate: u32,
    pub channels: usize,
}

/// A snapshot as plain values.
pub struct SnapshotView {
    pub amplitude: (Seq<u32>, Seq<u32>),
    pub frequency: (Seq<u32>, Seq<u32>),
    pub buffer_size: nat,
    pub sample_rate: nat,
    pub channels: nat,
}

impl View for AnalyzedAudio {
    type V = SnapshotView;

    open spec fn view(&self) -> SnapshotView {
        SnapshotView {
            amplitude: (self.amplitude[0]@, self.amplitude[1]@),
            frequency: (self.frequency[0]@, self.frequency[1]@),
            buffer_size: self.buffer_size as nat,
            sample_rate: self.sample_rate as nat,
            channels: self.channels as nat,
        }
    }
}

impl SnapshotView {
    /// Both amplitude slots hold one sample per frame, both spectra have the
    /// same length with zeroed boundary bins, and a mono snapshot holds the
    /// same data in both slots.
    pub open spec fn wf(&self) -> bool {
        &&& self.channels == 1 || self.channels == 2
        &&& self.amplitude.0.len() == self.buffer_size
        &&& self.amplitude.1.len() == self.buffer_size
        &&& self.frequency.0.len() == self.frequency.1.len()
        &&& spectrum_edges_zero(self.frequency.0)
        &&& spectrum_edges_zero(self.frequency.1)
        &&& self.channels == 1 ==> self.amplitude.1 == self.amplitude.0
        &&& self.channels == 1 ==> self.frequency.1 == self.frequency.0
    }
}

/// The first and the last bin of a non-empty spectrum are zero.
pub open spec fn spectrum_edges_zero(s: Seq<u32>) -> bool {
    s.len() > 0 ==> s[0] == 0 && s[s.len() - 1] == 0
}

/// The snapshot published before any buffer has arrived.
pub open spec fn empty_snapshot(config: StreamConfig) -> SnapshotView {
    SnapshotView {
        amplitude: (Seq::empty(), Seq::empty()),
        frequency: (Seq::empty(), Seq::empty()),
        buffer_size: 0,
        sample_rate: config.sample_rate as nat,
        channels: config.analysed_channels(),
    }
}

/// The spectrum published for one channel from the magnitudes of its
/// transform.
pub open spec fn spectrum_view(magnitudes: Seq<u32>) -> Seq<u32> {
    Seq::new(
        spectrum_len(magnitudes.len()),
        |i: int|
            if i == 0 || i == spectrum_len(magnitudes.len()) - 1 {
                0
            } else {
                magnitudes[i]
            },
    )
}

/// Frame counts a snapshot can hold, and whose padded transform input fits
/// in memory.
pub open spec fn frames_fit(frames: nat) -> bool {
    frames <= u32::MAX && frames <= usize::MAX / 2
}

fn copy_samples(v: &Vec<u32>) -> (r: Vec<u32>)
    ensures
        r@ == v@,
{
    let r = v.clone();
    assert(r@ =~= v@);
    r
}

/// A drained buffer, split into channel slots and waiting for the
/// magnitudes of its transforms.
pub struct PendingAnalysis {
    amplitude: [Vec<u32>; 2],
    config: StreamConfig,
}

/// A pending analysis as plain values.
pub struct PendingView {
    pub amplitude: (Seq<u32>, Seq<u32>),
    pub config: StreamConfig,
}

impl View for PendingAnalysis {
    type V = PendingView;

    closed spec fn view(&self) -> PendingView {
        PendingView { amplitude: (self.amplitude[0]@, self.amplitude[1]@), config: self.config }
    }
}

impl PendingView {
    pub open spec fn frames(&self) -> nat {
        self.amplitude.0.len()
    }

    pub open spec fn wf(&self) -> bool {
        &&& self.config.is_valid()
        &&& frames_fit(self.frames())
        &&& self.amplitude.1.len() == self.frames()
        &&& self.config.channels == 1 ==> self.amplitude.1 == self.amplitude.0
    }
}

impl PendingAnalysis {
    /// How many transforms the analysis needs: one per analysed channel, as a
    /// mono stream reuses the spectrum of its only channel.
    pub fn transform_count(&self) -> (r: usize)
        ensures
            r == self@.config.analysed_channels(),
    {
        if self.config.channels >= 2 {
            2
        } else {
            1
        }
    }

    /// The input of the transform for channel slot `channel`: its samples,
    /// zero-padded to a power of two.
    pub fn transform_input(&self, channel: usize) -> (r: Vec<u32>)
        requires
            self@.wf(),
            channel < 2,
        ensures
            is_padded_len(self@.frames(), r.len() as nat),
            forall|i: int|
                0 <= i < self@.frames() ==> r[i] == if channel == 0 {
                    self@.amplitude.0[i]
                } else {
                    self@.amplitude.1[i]
                },
            forall|i: int| self@.frames() <= i < r.len() ==> r[i] == 0,
    {
        transform_input(&self.amplitude[channel])
    }
}

/// What the capture queue yielded on one poll.
pub enum Received {
    /// A buffer of interleaved samples.
    Buffer(Vec<u32>),
    /// No buffer is ready yet.
    Empty,
    /// The producing side of the queue is gone.
    Disconnected,
}

/// What a tick asks of the caller.
pub enum Tick {
    /// Run the transforms of this analysis, then publish it.
    Analyse(PendingAnalysis),
    /// Nothing to do this tick.
    Idle,
    /// The capture side has just been found gone: report it. The last
    /// snapshot stays available.
    ProducerLost,
}

/// The analysis side of a capture stream: the stream's configuration, the
/// device it runs on, and the latest snapshot.
pub struct Audio {
    last_buffer: AnalyzedAudio,
    config: StreamConfig,
    device_index: usize,
    connected: bool,
}

/// The analysis side as plain values.
pub struct AudioState {
    pub snapshot: SnapshotView,
    pub config: StreamConfig,
    pub device_index: nat,
    pub connected: bool,
}

impl AudioState {
    pub open spec fn wf(&self) -> bool {
        self.config.is_valid() && self.snapshot.wf()
    }
}

impl View for Audio {
    type V = AudioState;

    closed spec fn view(&self) -> AudioState {
        AudioState {
            snapshot: self.last_buffer@,
            config: self.config,
            device_index: self.device_index as nat,
            connected: self.connected,
        }
    }
}

/// The snapshot published for a pending analysis and the magnitudes of its
/// transforms.
pub open spec fn published(p: PendingView, magnitudes: (Seq<u32>, Seq<u32>)) -> SnapshotView {
    let left = spectrum_view(magnitudes.0);
    SnapshotView {
        amplitude: p.amplitude,
        frequency: (left, if p.config.channels >= 2 {
            spectrum_view(magnitudes.1)
        } else {
            left
        }),
        buffer_size: p.frames(),
        sample_rate: p.config.sample_rate as nat,
        channels: p.config.analysed_channels(),
    }
}

fn empty_analysis(config: StreamConfig) -> (r: AnalyzedAudio)
    requires
        config.is_valid(),
    ensures
        r@ == empty_snapshot(config),
{
    AnalyzedAudio {
        amplitude: [Vec::new(), Vec::new()],
        frequency: [Vec::new(), Vec::new()],
        buffer_size: 0,
        sample_rate: config.sample_rate,
        channels: if config.channels >= 2 {
            2
        } else {
            1
        },
    }
}

impl Audio {
    /// The analysis side of a stream just opened with `config` on `device`.
    /// Its snapshot is empty until the first buffer is published.
    pub fn create(config: StreamConfig, device: DeviceChoice) -> (r: Audio)
        requires
            config.is_valid(),
        ensures
            r@.wf(),
            r@.config == config,
            r@.device_index == device.index_spec(),
            r@.connected,
            r@.snapshot == empty_snapshot(config),
    {
        Audio {
            last_buffer: empty_analysis(config),
            config,
            device_index: device.index(),
            connected: true,
        }
    }

    /// Records that the capture stream now runs on `device` with `config`;
    /// the caller has stopped the previous stream before opening the new
    /// one. The last snapshot stays until the new stream's first buffer is
    /// published. Returns the notification for the application.
    pub fn switch_device(&mut self, config: StreamConfig, device: DeviceChoice) -> (r: AudioEvent)
        requires
            old(self)@.wf(),
            config.is_valid(),
        ensures
            final(self)@.wf(),
            final(self)@.config == config,
            final(self)@.device_index == device.index_spec(),
            final(self)@.connected,
            final(self)@.snapshot == old(self)@.snapshot,
            r == AudioEvent::InputDeviceChanged(device.index_spec()),
    {
        self.config = config;
        self.device_index = device.index();
        self.connected = true;
        AudioEvent::InputDeviceChanged(device.index())
    }

    /// Decides what one poll of the capture queue leads to. A buffer is
    /// split into its channel slots for analysis; an empty queue leaves
    /// everything as it is; a queue whose producer is gone is reported once
    /// and the last snapshot stays available.
    pub fn fetch_new_audio(&mut self, received: Received) -> (r: Tick)
        requires
            old(self)@.wf(),
            received matches Received::Buffer(raw) ==> frames_fit(
                raw.len() as nat / old(self)@.config.channels as nat,
            ),
        ensures
            final(self)@.wf(),
            final(self)@.snapshot == old(self)@.snapshot,
            final(self)@.config == old(self)@.config,
            final(self)@.device_index == old(self)@.device_index,
            match received {
                Received::Buffer(raw) => {
                    &&& r matches Tick::Analyse(p)
                    &&& p@.wf()
                    &&& p@.config == old(self)@.config
                    &&& p@.amplitude == split_view(raw@, old(self)@.config.channels as nat)
                    &&& final(self)@.connected == old(self)@.connected
                },
                Received::Empty => {
                    &&& r is Idle
                    &&& final(self)@.connected == old(self)@.connected
                },
                Received::Disconnected => {
                    &&& (if old(self)@.connected {
                        r is ProducerLost
                    } else {
                        r is Idle
                    })
                    &&& !final(self)@.connected
                },
            },
    {
        match received {
            Received::Buffer(raw) => {
                let amplitude = split_channels(&raw, self.config.channels as usize);
                Tick::Analyse(PendingAnalysis { amplitude, config: self.config })
            },
            Received::Empty => Tick::Idle,
            Received::Disconnected => {
                if self.connected {
                    self.connected = false;
                    Tick::ProducerLost
                } else {
                    Tick::Idle
                }
            },
        }
    }

    /// Publishes a finished analysis, replacing the snapshot as a whole.
    /// `left` and `right` hold one magnitude per bin of the transform of the
    /// first and the second channel slot. For a mono stream `right` is not
    /// read, and the first channel's spectrum is published in both slots.
    pub fn publish(&mut self, pending: PendingAnalysis, left: Vec<u32>, right: Vec<u32>)
        requires
            old(self)@.wf(),
            pending@.wf(),
            is_padded_len(pending@.frames(), left.len() as nat),
            pending@.config.channels >= 2 ==> right.len() == left.len(),
        ensures
            final(self)@.wf(),
            final(self)@.snapshot == published(pending@, (left@, right@)),
            final(self)@.config == old(self)@.config,
            final(self)@.device_index == old(self)@.device_index,
            final(self)@.connected == old(self)@.connected,
    {
        let ghost m = (left@, right@);
        let stereo = pending.config.channels >= 2;
        let first = trim_spectrum(left);
        let second = if stereo {
            trim_spectrum(right)
        } else {
            copy_samples(&first)
        };
        assert(first@ =~= spectrum_view(m.0));
        assert(stereo ==> second@ =~= spectrum_view(m.1));
        let frames = pending.amplitude[0].len();
        let PendingAnalysis { amplitude, config } = pending;
        self.last_buffer = AnalyzedAudio {
            amplitude,
            frequency: [first, second],
            buffer_size: frames as u32,
            sample_rate: config.sample_rate,
            channels: if stereo {
                2
            } else {
                1
            },
        };
    }

    /// An independent copy of the latest snapshot.
    pub fn get_analyzed_audio(&self) -> (r: AnalyzedAudio)
        ensures
            r@ == self@.snapshot,
    {
        AnalyzedAudio {
            amplitude: [
                copy_samples(&self.last_buffer.amplitude[0]),
                copy_samples(&self.last_buffer.amplitude[1]),
            ],
            frequency: [
                copy_samples(&self.last_buffer.frequency[0]),
                copy_samples(&self.last_buffer.frequency[1]),
            ],
            buffer_size: self.last_buffer.buffer_size,
            sample_rate: self.last_buffer.sample_rate,
            channels: self.last_buffer.channels,
        }
    }
}

} // verus!
