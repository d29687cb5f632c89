//! Bookkeeping of the audio pipeline: which decoder to build, what to do
//! with decoded samples, and the buffer that feeds the device.
//!
//! Decoding, resampling and playback work on floating-point samples and
//! are the caller's; this module decides on counts, rates and channels, and
//! buffers samples as the bits that stand for them.

use vstd::prelude::*;

verus! {

/// The samples of one second of stereo sound at 48 kHz: the capacity of
/// the buffer between decoder and device.
pub const AUDIO_BUFFER_SAMPLES: usize = 96000;

/// The format of the sound that the peer sends.
#[derive(Clone, Copy, Debug, PartialEq, Eq, Structural)]
pub struct AudioFormat {
    pub sample_rate: u32,
    pub channels: u32,
}

/// The layout that the decoder is built for.
#[derive(Clone, Copy, Debug, PartialEq, Eq, Structural)]
pub enum Channels {
    Mono,
    Stereo,
}

/// Which output configurations to try, in order.
#[derive(Clone, Copy, Debug, PartialEq, Eq, Structural)]
pub enum SinkPlan {
    /// First the device's configuration with `channels` channels, so that
    /// no rechannelling is needed; if that fails, the device's own.
    FormatChannelsFirst { channels: u16 },
    /// The device's own configuration.
    DeviceOnly,
}

/// The rate of the peer's sound and the rate of the device.
#[derive(Clone, Copy, Debug, PartialEq, Eq, Structural)]
pub struct Rates {
    pub source: u32,
    pub device: u32,
}

/// The channels of the peer's sound and the channels of the device.
#[derive(Clone, Copy, Debug, PartialEq, Eq, Structural)]
pub struct ChannelCounts {
    pub source: u16,
    pub device: u16,
}

/// What to do with the samples of a decoded frame.
#[derive(Clone, Copy, Debug, PartialEq, Eq, Structural)]
pub struct Playback {
    /// How many samples the frame holds, over all channels.
    pub samples: usize,
    /// The rates to resample from and to, where they differ.
    pub resample: Option<Rates>,
    /// The channel counts to convert from and to, where they differ.
    pub rechannel: Option<ChannelCounts>,
}

/// The state of the audio path.
#[derive(Clone, Copy, Debug, PartialEq, Eq, Structural)]
pub struct AudioHandler {
    /// Whether a decoder was built.
    pub decoder_ready: bool,
    /// Whether an output is open.
    pub sink_open: bool,
    /// Whether the device has asked for samples yet.
    pub ready: bool,
    pub sample_rate: Rates,
    pub channels: u16,
    pub device_channel: u16,
}

/// The layout that the decoder is built for: stereo for more than one
/// channel.
pub fn decoder_channels(f: AudioFormat) -> (r: Channels)
    ensures
        r == if f.channels > 1 {
            Channels::Stereo
        } else {
            Channels::Mono
        },
{
    if f.channels > 1 {
        Channels::Stereo
    } else {
        Channels::Mono
    }
}

/// How many samples the decode buffer holds: one second of sound.
pub fn decode_buffer_len(f: AudioFormat) -> (r: u64)
    ensures
        r == f.sample_rate * f.channels,
{
    assert(f.sample_rate * f.channels <= u64::MAX) by (nonlinear_arith)
        requires
            f.sample_rate <= u32::MAX,
            f.channels <= u32::MAX,
    ;
    f.sample_rate as u64 * f.channels as u64
}

/// How many samples the device gets from the buffer: as many as it wants,
/// as far as the buffer holds them; the rest of what it wants is silence.
pub fn drain_count(occupied: usize, wanted: usize) -> (r: usize)
    ensures
        r == drain(occupied as nat, wanted as nat),
{
    if occupied < wanted {
        occupied
    } else {
        wanted
    }
}

impl AudioHandler {
    /// The state before any sound.
    pub fn new() -> (r: Self)
        ensures
            r == (AudioHandler {
                decoder_ready: false,
                sink_open: false,
                ready: false,
                sample_rate: Rates { source: 0, device: 0 },
                channels: 0,
                device_channel: 0,
            }),
    {
        AudioHandler {
            decoder_ready: false,
            sink_open: false,
            ready: false,
            sample_rate: Rates { source: 0, device: 0 },
            channels: 0,
            device_channel: 0,
        }
    }

    /// Takes note of the peer's format once the decoder was built for it,
    /// or could not be built. Says whether an output is to be opened.
    pub fn handle_format(&mut self, f: AudioFormat, decoder_built: bool) -> (open: bool)
        ensures
            open == decoder_built,
            *final(self) == if decoder_built {
                AudioHandler { decoder_ready: true, channels: f.channels as u16, ..*old(self) }
            } else {
                *old(self)
            },
    {
        if decoder_built {
            self.decoder_ready = true;
            self.channels = #[verifier::truncate]
            (f.channels as u16);
        }
        decoder_built
    }

    /// Which output configurations to try on a device with
    /// `device_channels` channels: where the device has as many channels
    /// as the sound or more, one without rechannelling comes first.
    pub fn sink_plan(f: AudioFormat, device_channels: u16) -> (r: SinkPlan)
        ensures
            r == if device_channels >= f.channels as u16 {
                SinkPlan::FormatChannelsFirst { channels: f.channels as u16 }
            } else {
                SinkPlan::DeviceOnly
            },
    {
        let channels: u16 = #[verifier::truncate]
        (f.channels as u16);
        if device_channels >= channels {
            SinkPlan::FormatChannelsFirst { channels }
        } else {
            SinkPlan::DeviceOnly
        }
    }

    /// Takes note of an output that was opened with `channels` channels at
    /// `device_rate`, for sound that arrives at `f.sample_rate`.
    pub fn sink_opened(&mut self, f: AudioFormat, device_rate: u32, channels: u16)
        ensures
            *final(self) == (AudioHandler {
                sink_open: true,
                sample_rate: Rates { source: f.sample_rate, device: device_rate },
                device_channel: channels,
                ..*old(self)
            }),
    {
        self.sink_open = true;
        self.sample_rate = Rates { source: f.sample_rate, device: device_rate };
        self.device_channel = channels;
    }

    /// Takes note that the device asked for samples.
    pub fn device_called(&mut self)
        ensures
            *final(self) == (AudioHandler { ready: true, ..*old(self) }),
    {
        self.ready = true;
    }

    /// Whether frames are played: an output is open and the device has
    /// asked for samples.
    pub open spec fn spec_playing(self) -> bool {
        self.sink_open && self.ready && self.decoder_ready
    }

    /// What to do with a decoded frame of `samples_per_channel` samples for
    /// each channel; `None` while nothing is played.
    pub fn handle_frame(&self, samples_per_channel: usize) -> (r: Option<Playback>)
        requires
            samples_per_channel * self.channels <= usize::MAX,
        ensures
            r == if self.spec_playing() {
                Some(
                    Playback {
                        samples: (samples_per_channel * self.channels) as usize,
                        resample: if self.sample_rate.source != self.sample_rate.device {
                            Some(self.sample_rate)
                        } else {
                            None
                        },
                        rechannel: if self.channels != self.device_channel {
                            Some(ChannelCounts { source: self.channels, device: self.device_channel })
                        } else {
                            None
                        },
                    },
                )
            } else {
                None
            },
    {
        if !self.sink_open || !self.ready || !self.decoder_ready {
            return None;
        }
        Some(
            Playback {
                samples: samples_per_channel * (self.channels as usize),
                resample: if self.sample_rate.source != self.sample_rate.device {
                    Some(self.sample_rate)
                } else {
                    None
                },
                rechannel: if self.channels != self.device_channel {
                    Some(ChannelCounts { source: self.channels, device: self.device_channel })
                } else {
                    None
                },
            },
        )
    }
}

/// A ring of samples with a fixed capacity, kept by `ringbuf`. A sample is
/// held as the bits of a 32-bit float.
#[verifier::external_body]
pub struct SampleRing {
    ring: ringbuf::HeapRb<u32>,
}

/// The samples that a ring holds, the oldest first.
pub uninterp spec fn ring_samples(ring: SampleRing) -> Seq<u32>;

/// The capacity that a ring was made with.
pub uninterp spec fn ring_capacity(ring: SampleRing) -> nat;

/// The last `capacity` of the given samples, or all of them where they
/// are not more.
pub open spec fn keep_last(samples: Seq<u32>, capacity: nat) -> Seq<u32> {
    if samples.len() > capacity {
        samples.skip(samples.len() - capacity)
    } else {
        samples
    }
}

/// Makes an empty ring.
///
/// Trusted: calls `ringbuf::HeapRb::new`, which gives an empty ring of the
/// capacity asked for and panics for a capacity of zero.
#[verifier::external_body]
fn ring_new(capacity: usize) -> (r: SampleRing)
    requires
        capacity > 0,
    ensures
        ring_samples(r) == Seq::<u32>::empty(),
        ring_capacity(r) == capacity,
{
    SampleRing { ring: ringbuf::HeapRb::new(capacity) }
}

/// How many samples a ring holds.
///
/// Trusted: calls `ringbuf::Rb::len`, the number of items stored.
#[verifier::external_body]
fn ring_len(ring: &SampleRing) -> (n: usize)
    ensures
        n == ring_samples(*ring).len(),
{
    ringbuf::Rb::len(&ring.ring)
}

/// Takes the `n` oldest samples out of a ring.
///
/// Trusted: calls `ringbuf::Rb::pop_slice` with a slice of `n` places,
/// which removes the first `n` items into the slice and panics where the
/// ring holds fewer.
#[verifier::external_body]
fn ring_pop(ring: &mut SampleRing, n: usize) -> (r: Vec<u32>)
    requires
        n <= ring_samples(*old(ring)).len(),
    ensures
        r@ == ring_samples(*old(ring)).take(n as int),
        ring_samples(*final(ring)) == ring_samples(*old(ring)).skip(n as int),
        ring_capacity(*final(ring)) == ring_capacity(*old(ring)),
{
    let mut out = vec![0u32; n];
    ringbuf::Rb::pop_slice(&mut ring.ring, &mut out);
    out
}

/// Appends samples to a ring; where they do not fit, the oldest samples
/// make room.
///
/// Trusted: calls `ringbuf::Rb::push_slice_overwrite`, which skips as many
/// of the oldest items as the new ones need and, of more new items than
/// the capacity, stores the last.
#[verifier::external_body]
fn ring_push_overwrite(ring: &mut SampleRing, samples: &[u32])
    ensures
        ring_samples(*final(ring)) == keep_last(
            ring_samples(*old(ring)) + samples@,
            ring_capacity(*old(ring)),
        ),
        ring_capacity(*final(ring)) == ring_capacity(*old(ring)),
{
    ringbuf::Rb::push_slice_overwrite(&mut ring.ring, samples);
}

/// Silence: `n` samples of value zero.
pub open spec fn silence(n: nat) -> Seq<u32> {
    Seq::new(n, |i: int| 0u32)
}

/// What the device gets when it wants `wanted` samples of a ring that
/// holds `held`: the oldest samples as far as there are any, then silence.
pub open spec fn spec_fill(held: Seq<u32>, wanted: nat) -> Seq<u32> {
    if held.len() < wanted {
        held + silence((wanted - held.len()) as nat)
    } else {
        held.take(wanted as int)
    }
}

/// The buffer between the decoder and the device: one second of stereo
/// sound at 48 kHz. When it is full, the oldest samples give way.
pub struct AudioBuffer {
    ring: SampleRing,
}

impl View for AudioBuffer {
    type V = Seq<u32>;

    closed spec fn view(&self) -> Seq<u32> {
        ring_samples(self.ring)
    }
}

impl AudioBuffer {
    /// Whether the buffer has the capacity it is made with.
    pub closed spec fn wf(&self) -> bool {
        ring_capacity(self.ring) == AUDIO_BUFFER_SAMPLES
    }

    /// An empty buffer.
    pub fn new() -> (r: Self)
        ensures
            r@ == Seq::<u32>::empty(),
            r.wf(),
    {
        AudioBuffer { ring: ring_new(AUDIO_BUFFER_SAMPLES) }
    }

    /// How many samples wait in the buffer.
    pub fn len(&self) -> (n: usize)
        ensures
            n == self@.len(),
    {
        ring_len(&self.ring)
    }

    /// Appends decoded samples; the buffer keeps the latest second.
    pub fn push(&mut self, samples: &[u32])
        requires
            old(self).wf(),
        ensures
            final(self).wf(),
            final(self)@ == keep_last(old(self)@ + samples@, AUDIO_BUFFER_SAMPLES as nat),
    {
        ring_push_overwrite(&mut self.ring, samples);
    }

    /// Hands the device the `wanted` samples that it asks for: the oldest
    /// in the buffer as far as there are any, then silence.
    pub fn fill(&mut self, wanted: usize) -> (r: Vec<u32>)
        ensures
            r@ == spec_fill(old(self)@, wanted as nat),
            r@.len() == wanted,
            final(self)@ == old(self)@.skip(drain(old(self)@.len(), wanted as nat) as int),
            old(self).wf() ==> final(self).wf(),
    {
        let n = drain_count(ring_len(&self.ring), wanted);
        let mut out = ring_pop(&mut self.ring, n);
        let ghost taken = out@;
        let mut i: usize = n;
        while i < wanted
            invariant
                n <= i <= wanted,
                out@.len() == i,
                out@ == taken + silence((i - n) as nat),
            decreases wanted - i,
        {
            out.push(0);
            i += 1;
            assert(out@ =~= taken + silence((i - n) as nat));
        }
        assert(out@ =~= spec_fill(old(self)@, wanted as nat));
        out
    }
}

/// How many samples the device gets from a buffer that holds `occupied`
/// when it wants `wanted`.
pub open spec fn drain(occupied: nat, wanted: nat) -> nat {
    if occupied < wanted {
        occupied
    } else {
        wanted
    }
}

} // verus!
