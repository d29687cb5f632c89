//! Bookkeeping of the video decode pipeline: one controller per display,
//! with its decoder's format and health, a failure counter and a sampler of
//! the decoding rate.
//!
//! Decoding itself is the caller's. The caller reports what the decoder did
//! and is told what follows from it.

use vstd::prelude::*;

verus! {

/// Capacity of the lossy queue of frames that feeds each display.
pub const VIDEO_QUEUE_SIZE: usize = 120;

/// How many failed frames in a row make a decoder count as failing; the
/// failure counter stops there.
pub const MAX_DECODE_FAIL_COUNTER: usize = 10;

/// How many frames at the start of a display are left out of the rate.
pub const FPS_WARM_UP_FRAMES: u32 = 5;

/// The rate is published each time this many more frames are counted.
pub const FPS_PUBLISH_EVERY: u64 = 10;

/// The sampler starts over once more than this many frames are counted.
pub const FPS_WINDOW: u64 = 150;

/// The codec of a video frame.
#[derive(Clone, Copy, Debug, PartialEq, Eq, Structural)]
pub enum CodecFormat {
    VP8,
    VP9,
    AV1,
    H264,
    H265,
    Unknown,
}

/// What the decoder made of a frame.
#[derive(Clone, Copy, Debug, PartialEq, Eq, Structural)]
pub enum Decoded {
    /// The frame carried no payload and was not given to the decoder.
    NoPayload,
    /// A picture came out.
    Shown,
    /// The decoder took the frame and no picture came out.
    NotShown,
    /// The decoder failed.
    Failed,
}

/// How a picture samples its colours.
#[derive(Clone, Copy, Debug, PartialEq, Eq, Structural)]
pub enum Chroma {
    I420,
    I444,
}

/// Remembers the chroma sampling that was last published.
#[derive(Clone, Copy, Debug, PartialEq, Eq, Structural)]
pub struct ChromaTracker {
    pub last: Option<Chroma>,
}

impl ChromaTracker {
    /// A tracker that has published nothing.
    pub fn new() -> (r: Self)
        ensures
            r.last is None,
    {
        ChromaTracker { last: None }
    }

    /// Takes note of the sampling that the decoder reported for a picture
    /// that was shown. Gives the sampling to publish: the reported one,
    /// where there is one and it differs from the last.
    pub fn report(&mut self, reported: Option<Chroma>) -> (publish: Option<Chroma>)
        ensures
            publish == if reported is Some && reported != old(self).last {
                reported
            } else {
                None
            },
            final(self).last == if reported is Some {
                reported
            } else {
                old(self).last
            },
    {
        if reported.is_some() && reported != self.last {
            self.last = reported;
            reported
        } else {
            None
        }
    }
}

/// What to do with a frame that was given to the decoder.
#[derive(Clone, Copy, Debug, PartialEq, Eq, Structural)]
pub struct FrameResult {
    /// Hand the picture to the display callback.
    pub shown: bool,
    /// Feed the frame to the recorder.
    pub record: bool,
    /// Ask the peer to refresh this display.
    pub refresh: bool,
}

/// How to set up a recorder.
#[derive(Clone, Debug)]
pub struct RecorderRequest {
    pub id: String,
    pub width: i32,
    pub height: i32,
    pub format: CodecFormat,
}

/// The state of one display's decoder.
#[derive(Clone, Copy, Debug, PartialEq, Eq, Structural)]
pub struct VideoHandler {
    pub format: CodecFormat,
    pub decoder_valid: bool,
    pub record: bool,
    pub display: usize,
    pub fail_counter: usize,
}

impl VideoHandler {
    /// The handler of a display whose decoder was just built for `format`;
    /// `decoder_valid` says whether the decoder came up.
    pub fn new(format: CodecFormat, display: usize, decoder_valid: bool) -> (r: Self)
        ensures
            r == (VideoHandler { format, decoder_valid, record: false, display, fail_counter: 0 }),
    {
        VideoHandler { format, decoder_valid, record: false, display, fail_counter: 0 }
    }

    /// Whether a frame of `format` needs another decoder than the current
    /// one.
    pub fn needs_reset(&self, format: CodecFormat) -> (r: bool)
        ensures
            r == (format != self.format),
    {
        format != self.format
    }

    /// The failure counter after a frame: back to zero after a picture, one
    /// more after anything else that the decoder saw, up to
    /// `MAX_DECODE_FAIL_COUNTER`.
    pub open spec fn spec_fail_counter_after(self, outcome: Decoded) -> usize {
        match outcome {
            Decoded::NoPayload => self.fail_counter,
            Decoded::Shown => 0,
            _ => if self.fail_counter < MAX_DECODE_FAIL_COUNTER {
                (self.fail_counter + 1) as usize
            } else {
                self.fail_counter
            },
        }
    }

    /// Takes note of what the decoder made of a frame.
    pub fn handle_frame(&mut self, outcome: Decoded) -> (r: FrameResult)
        ensures
            *final(self) == (VideoHandler {
                fail_counter: old(self).spec_fail_counter_after(outcome),
                ..*old(self)
            }),
            r.shown == (outcome == Decoded::Shown),
            r.record == (old(self).record && outcome != Decoded::NoPayload),
            r.refresh == (outcome == Decoded::Failed),
    {
        match outcome {
            Decoded::NoPayload => {
                return FrameResult { shown: false, record: false, refresh: false };
            },
            Decoded::Shown => {
                self.fail_counter = 0;
            },
            _ => {
                if self.fail_counter < MAX_DECODE_FAIL_COUNTER {
                    self.fail_counter += 1;
                }
            },
        }
        FrameResult {
            shown: outcome == Decoded::Shown,
            record: self.record,
            refresh: outcome == Decoded::Failed,
        }
    }

    /// Takes note of a rebuilt decoder: for `format` if one is given, else
    /// for the current format. The failure counter starts over.
    pub fn reset(&mut self, format: Option<CodecFormat>, decoder_valid: bool)
        ensures
            *final(self) == (VideoHandler {
                format: match format {
                    Some(f) => f,
                    None => old(self).format,
                },
                decoder_valid,
                fail_counter: 0,
                ..*old(self)
            }),
    {
        if let Some(f) = format {
            self.format = f;
        }
        self.decoder_valid = decoder_valid;
        self.fail_counter = 0;
    }

    /// Starts or stops recording. Starting asks for a VP9 recorder of the
    /// given size; stopping drops the recorder.
    pub fn record_screen(&mut self, start: bool, w: i32, h: i32, id: String) -> (r: Option<
        RecorderRequest,
    >)
        ensures
            *final(self) == (VideoHandler { record: start, ..*old(self) }),
            start ==> r == Some(
                RecorderRequest { id, width: w, height: h, format: CodecFormat::VP9 },
            ),
            !start ==> r is None,
    {
        self.record = start;
        if start {
            Some(RecorderRequest { id, width: w, height: h, format: CodecFormat::VP9 })
        } else {
            None
        }
    }

    /// Whether this decoder is to be reported as unsupported: it did not
    /// come up, or it failed too many frames in a row.
    pub open spec fn spec_is_failing(self) -> bool {
        !self.decoder_valid || self.fail_counter >= MAX_DECODE_FAIL_COUNTER
    }

    /// Whether this decoder is to be reported as unsupported.
    pub fn is_failing(&self) -> (r: bool)
        ensures
            r == self.spec_is_failing(),
    {
        !self.decoder_valid || self.fail_counter >= MAX_DECODE_FAIL_COUNTER
    }
}

/// What a rate sampler has seen.
pub struct Sample {
    /// Frames left out so far, at most `FPS_WARM_UP_FRAMES`.
    pub skipped: nat,
    /// Frames counted in the current window.
    pub count: nat,
    /// Time spent on the counted frames, in nanoseconds.
    pub nanos: nat,
}

impl Sample {
    /// A sampler that has seen nothing.
    pub open spec fn start() -> Sample {
        Sample { skipped: 0, count: 0, nanos: 0 }
    }

    /// Whether the next frame is left out of the rate.
    pub open spec fn warming_up(self) -> bool {
        self.skipped < FPS_WARM_UP_FRAMES
    }

    /// Whether the next frame makes the sampler publish a rate.
    pub open spec fn publishes(self) -> bool {
        !self.warming_up() && ((self.count + 1) as int) % (FPS_PUBLISH_EVERY as int) == 0
    }

    /// The whole milliseconds spent once the next frame, which took
    /// `elapsed` nanoseconds, is counted.
    pub open spec fn millis_with(self, elapsed: nat) -> nat {
        (((self.nanos + elapsed) as int) / 1_000_000) as nat
    }

    /// The rate published with the next frame: frames per second over the
    /// current window.
    pub open spec fn rate_with(self, elapsed: nat) -> nat {
        ((((self.count + 1) * 1000) as int) / (self.millis_with(elapsed) as int)) as nat
    }

    /// What the next frame publishes, if anything.
    pub open spec fn published(self, elapsed: nat) -> Option<nat> {
        if self.publishes() {
            Some(self.rate_with(elapsed))
        } else {
            None
        }
    }

    /// The sampler after the next frame.
    pub open spec fn step(self, elapsed: nat) -> Sample {
        if self.warming_up() {
            Sample { skipped: self.skipped + 1, ..self }
        } else if self.count + 1 > FPS_WINDOW {
            Sample { count: 0, nanos: 0, ..self }
        } else {
            Sample { count: self.count + 1, nanos: self.nanos + elapsed, ..self }
        }
    }

    /// The sampler after a run of frames.
    pub open spec fn run(self, elapsed: Seq<nat>) -> Sample
        decreases elapsed.len(),
    {
        if elapsed.len() == 0 {
            self
        } else {
            self.run(elapsed.drop_last()).step(elapsed.last())
        }
    }
}

/// Samples the decoding rate of one display.
#[derive(Clone, Copy, Debug)]
pub struct FpsMeter {
    skipped: u32,
    count: u64,
    nanos: u128,
}

impl View for FpsMeter {
    type V = Sample;

    closed spec fn view(&self) -> Sample {
        Sample { skipped: self.skipped as nat, count: self.count as nat, nanos: self.nanos as nat }
    }
}

impl FpsMeter {
    #[verifier::type_invariant]
    spec fn inv(self) -> bool {
        &&& self.skipped <= FPS_WARM_UP_FRAMES
        &&& self.count <= FPS_WINDOW
        &&& self.nanos <= self.count * u64::MAX
    }

    /// A sampler that has seen nothing.
    pub fn new() -> (r: Self)
        ensures
            r@ == Sample::start(),
    {
        FpsMeter { skipped: 0, count: 0, nanos: 0 }
    }

    /// Whether the next frame, which took `elapsed` nanoseconds, can be
    /// recorded: a rate cannot be published over less than a millisecond.
    pub fn measures(&self, elapsed: u64) -> (r: bool)
        ensures
            r == (self@.publishes() ==> self@.millis_with(elapsed as nat) > 0),
    {
        proof {
            use_type_invariant(self);
        }
        if self.skipped < FPS_WARM_UP_FRAMES {
            return true;
        }
        if (self.count + 1) % FPS_PUBLISH_EVERY != 0 {
            return true;
        }
        (self.nanos + elapsed as u128) / 1_000_000 > 0
    }

    /// Records a frame that was shown and took `elapsed` nanoseconds to
    /// decode. Gives the rate to publish, every tenth counted frame.
    pub fn record(&mut self, elapsed: u64) -> (r: Option<usize>)
        requires
            old(self)@.publishes() ==> old(self)@.millis_with(elapsed as nat) > 0,
        ensures
            final(self)@ == old(self)@.step(elapsed as nat),
            match r {
                Some(rate) => old(self)@.published(elapsed as nat) == Some(rate as nat),
                None => old(self)@.published(elapsed as nat) is None,
            },
    {
        proof {
            use_type_invariant(&*self);
        }
        if self.skipped < FPS_WARM_UP_FRAMES {
            self.skipped += 1;
            return None;
        }
        let count: u64 = self.count + 1;
        let nanos: u128 = self.nanos + elapsed as u128;
        let mut rate: Option<usize> = None;
        if count % FPS_PUBLISH_EVERY == 0 {
            let millis: u128 = nanos / 1_000_000;
            let per_second: u128 = (count as u128 * 1000) / millis;
            assert(per_second <= 151_000) by (nonlinear_arith)
                requires
                    per_second as int == (count as int * 1000) / (millis as int),
                    millis > 0,
                    count <= 151,
            ;
            rate = Some(per_second as usize);
        }
        if count > FPS_WINDOW {
            self.nanos = 0;
            self.count = 0;
        } else {
            assert(nanos <= count * u64::MAX) by (nonlinear_arith)
                requires
                    nanos == self.nanos + elapsed,
                    self.nanos <= self.count * u64::MAX,
                    elapsed <= u64::MAX,
                    count == self.count + 1,
            ;
            self.count = count;
            self.nanos = nanos;
        }
        rate
    }
}

/// The first rate of a display is published with its fifteenth shown
/// frame and with none before: five frames are left out, the tenth counted
/// one publishes. The ten counted frames must have taken a millisecond or
/// more together.
pub proof fn lemma_first_rate_with_fifteenth_frame(elapsed: Seq<nat>)
    requires
        elapsed.len() == 15,
        Sample::start().run(elapsed.take(14)).millis_with(elapsed[14]) > 0,
    ensures
        forall|k: int|
            0 <= k < 14 ==> (#[trigger] Sample::start().run(elapsed.take(k))).published(elapsed[k])
                is None,
        Sample::start().run(elapsed.take(14)).published(elapsed[14]) is Some,
{
    let s0 = Sample::start();
    assert forall|k: int| 0 <= k <= 14 implies {
        let s = #[trigger] s0.run(elapsed.take(k));
        &&& s.skipped == if k < 5 {
            k
        } else {
            5
        }
        &&& s.count == if k < 5 {
            0
        } else {
            k - 5
        }
    } by {
        lemma_run_counts(elapsed, k);
    }
}

/// Where a fresh sampler stands after the first `k` of fifteen frames.
proof fn lemma_run_counts(elapsed: Seq<nat>, k: int)
    requires
        elapsed.len() == 15,
        0 <= k <= 14,
    ensures
        Sample::start().run(elapsed.take(k)).skipped == if k < 5 {
            k
        } else {
            5
        },
        Sample::start().run(elapsed.take(k)).count == if k < 5 {
            0
        } else {
            k - 5
        },
    decreases k,
{
    if k > 0 {
        lemma_run_counts(elapsed, k - 1);
        assert(elapsed.take(k).drop_last() =~= elapsed.take(k - 1));
    }
}

/// One display's handler with its rate sampler and the rate last
/// published.
#[derive(Clone, Copy, Debug)]
pub struct VideoHandlerController {
    pub handler: VideoHandler,
    pub meter: FpsMeter,
    pub fps: Option<usize>,
}

/// What a controller holds, as plain values.
pub struct ControllerState {
    pub handler: VideoHandler,
    pub sample: Sample,
    pub fps: Option<usize>,
}

impl View for VideoHandlerController {
    type V = ControllerState;

    open spec fn view(&self) -> ControllerState {
        ControllerState { handler: self.handler, sample: self.meter@, fps: self.fps }
    }
}

/// The position of the controller of `display`, if there is one.
pub open spec fn position_of(states: Seq<ControllerState>, display: usize) -> Option<int>
    decreases states.len(),
{
    if states.len() == 0 {
        None
    } else {
        match position_of(states.drop_last(), display) {
            Some(i) => Some(i),
            None => if states.last().handler.display == display {
                Some(states.len() - 1)
            } else {
                None
            },
        }
    }
}

/// `position_of` names the first controller of the display, and says
/// `None` only where there is none.
pub proof fn lemma_position_of(states: Seq<ControllerState>, display: usize)
    ensures
        match position_of(states, display) {
            Some(i) => {
                &&& 0 <= i < states.len()
                &&& states[i].handler.display == display
                &&& forall|j: int| 0 <= j < i ==> states[j].handler.display != display
            },
            None => forall|j: int| 0 <= j < states.len() ==> states[j].handler.display != display,
        },
    decreases states.len(),
{
    if states.len() > 0 {
        let init = states.drop_last();
        lemma_position_of(init, display);
        assert forall|j: int| 0 <= j < init.len() implies init[j] == states[j] by {}
        match position_of(init, display) {
            Some(i) => {
                assert(init[i] == states[i]);
            },
            None => {
                assert forall|j: int|
                    0 <= j < states.len() - 1 implies states[j].handler.display != display by {
                    assert(init[j] == states[j]);
                }
            },
        }
    }
}

/// The formats marked unsupported after a scan of the controllers: each
/// failing decoder's format is added at the end, unless it is marked
/// already.
pub open spec fn marks_after(states: Seq<ControllerState>, marks: Seq<CodecFormat>) -> Seq<
    CodecFormat,
>
    decreases states.len(),
{
    if states.len() == 0 {
        marks
    } else {
        let before = marks_after(states.drop_last(), marks);
        let handler = states.last().handler;
        if handler.spec_is_failing() && !before.contains(handler.format) {
            before.push(handler.format)
        } else {
            before
        }
    }
}

/// A scan never takes a mark away or moves one, adds no format twice, and
/// adds exactly the formats of failing decoders that were not marked.
pub proof fn lemma_marks_after(states: Seq<ControllerState>, marks: Seq<CodecFormat>)
    ensures
        marks.is_prefix_of(marks_after(states, marks)),
        marks.no_duplicates() ==> marks_after(states, marks).no_duplicates(),
        forall|f: CodecFormat|
            marks_after(states, marks).contains(f) <==> (marks.contains(f) || exists|i: int|
                0 <= i < states.len() && #[trigger] states[i].handler.spec_is_failing()
                    && states[i].handler.format == f),
    decreases states.len(),
{
    let after = marks_after(states, marks);
    if states.len() > 0 {
        let init = states.drop_last();
        let before = marks_after(init, marks);
        let handler = states.last().handler;
        lemma_marks_after(init, marks);
        assert forall|f: CodecFormat|
            after.contains(f) <==> (marks.contains(f) || exists|i: int|
                0 <= i < states.len() && #[trigger] states[i].handler.spec_is_failing()
                    && states[i].handler.format == f) by {
            if after.contains(f) {
                let k = choose|k: int| 0 <= k < after.len() && after[k] == f;
                if k < before.len() {
                    assert(before[k] == f);
                    assert(before.contains(f));
                    if !marks.contains(f) {
                        let i = choose|i: int|
                            0 <= i < init.len() && #[trigger] init[i].handler.spec_is_failing()
                                && init[i].handler.format == f;
                        assert(states[i].handler.spec_is_failing());
                    }
                } else {
                    assert(states[states.len() - 1].handler.spec_is_failing());
                }
            }
            if marks.contains(f) {
                let k = choose|k: int| 0 <= k < marks.len() && marks[k] == f;
                assert(after[k] == f);
            }
            if exists|i: int|
                0 <= i < states.len() && #[trigger] states[i].handler.spec_is_failing()
                    && states[i].handler.format == f {
                let i = choose|i: int|
                    0 <= i < states.len() && #[trigger] states[i].handler.spec_is_failing()
                        && states[i].handler.format == f;
                if i < init.len() {
                    assert(init[i].handler.spec_is_failing());
                    assert(before.contains(f));
                    let k = choose|k: int| 0 <= k < before.len() && before[k] == f;
                    assert(after[k] == f);
                } else {
                    if before.contains(f) {
                        let k = choose|k: int| 0 <= k < before.len() && before[k] == f;
                        assert(after[k] == f);
                    } else {
                        assert(after[before.len() as int] == f);
                    }
                }
            }
        }
    }
}

/// Whether `format` is among `marks`.
pub fn is_marked(marks: &Vec<CodecFormat>, format: CodecFormat) -> (r: bool)
    ensures
        r == marks@.contains(format),
{
    let n = marks.len();
    let mut i: usize = 0;
    while i < n
        invariant
            n == marks@.len(),
            i <= n,
            forall|j: int| 0 <= j < i ==> marks@[j] != format,
        decreases n - i,
    {
        if marks[i] == format {
            return true;
        }
        i += 1;
    }
    false
}

/// What to prepare before a frame can be decoded.
#[derive(Clone, Copy, Debug, PartialEq, Eq, Structural)]
pub enum Setup {
    /// The display is new: build a decoder for the frame's format.
    Create,
    /// The format changed: build a decoder for the frame's format.
    Rebuild,
    /// The current decoder takes the frame.
    Ready,
}

/// What follows from a decoded frame.
#[derive(Clone, Copy, Debug, PartialEq, Eq, Structural)]
pub struct FrameReport {
    pub result: FrameResult,
    /// The rate to publish for the display, if this frame completes a
    /// sample.
    pub fps: Option<usize>,
}

/// The controllers of all displays, in the order in which the displays
/// first sent a frame.
pub struct VideoPipeline {
    controllers: Vec<VideoHandlerController>,
}

impl View for VideoPipeline {
    type V = Seq<ControllerState>;

    closed spec fn view(&self) -> Seq<ControllerState> {
        Seq::new(self.controllers@.len(), |i: int| self.controllers@[i]@)
    }
}

impl VideoPipeline {
    /// No display has two controllers.
    pub open spec fn wf(&self) -> bool {
        forall|i: int, j: int|
            0 <= i < j < self@.len() ==> self@[i].handler.display != self@[j].handler.display
    }

    /// A pipeline without displays.
    pub fn new() -> (r: Self)
        ensures
            r@.len() == 0,
            r.wf(),
    {
        VideoPipeline { controllers: Vec::new() }
    }

    /// How many displays have a controller.
    pub fn len(&self) -> (r: usize)
        ensures
            r == self@.len(),
    {
        self.controllers.len()
    }

    /// The position of the controller of `display`.
    pub fn find(&self, display: usize) -> (r: Option<usize>)
        ensures
            match r {
                Some(i) => position_of(self@, display) == Some(i as int),
                None => position_of(self@, display) is None,
            },
    {
        let n = self.controllers.len();
        let mut i: usize = 0;
        while i < n
            invariant
                n == self.controllers@.len(),
                i <= n,
                position_of(self@.take(i as int), display) is None,
            decreases n - i,
        {
            proof {
                assert(self@.take(i + 1).drop_last() =~= self@.take(i as int));
            }
            if self.controllers[i].handler.display == display {
                proof {
                    Self::lemma_position_stays(self@, display, i + 1);
                }
                return Some(i);
            }
            i += 1;
        }
        assert(self@.take(n as int) =~= self@);
        None
    }

    /// A controller found among the first `k` is the one found among all.
    proof fn lemma_position_stays(states: Seq<ControllerState>, display: usize, k: int)
        requires
            0 <= k <= states.len(),
            position_of(states.take(k), display) is Some,
        ensures
            position_of(states, display) == position_of(states.take(k), display),
        decreases states.len() - k,
    {
        if k < states.len() {
            assert(states.take(k + 1).drop_last() =~= states.take(k));
            Self::lemma_position_stays(states, display, k + 1);
        } else {
            assert(states.take(k) =~= states);
        }
    }

    /// The controller of `display`, as plain values.
    pub fn get(&self, display: usize) -> (r: Option<VideoHandlerController>)
        ensures
            match r {
                Some(c) => position_of(self@, display) is Some && self@[position_of(
                    self@,
                    display,
                )->Some_0] == c@,
                None => position_of(self@, display) is None,
            },
    {
        match self.find(display) {
            Some(i) => {
                proof {
                    lemma_position_of(self@, display);
                }
                Some(self.controllers[i])
            },
            None => None,
        }
    }

    /// What to prepare before a frame of `format` for `display` can be
    /// decoded.
    pub fn setup_for(&self, display: usize, format: CodecFormat) -> (r: Setup)
        ensures
            r == match position_of(self@, display) {
                None => Setup::Create,
                Some(i) => if self@[i].handler.format != format {
                    Setup::Rebuild
                } else {
                    Setup::Ready
                },
            },
    {
        match self.find(display) {
            None => Setup::Create,
            Some(i) => {
                proof {
                    lemma_position_of(self@, display);
                }
                if self.controllers[i].handler.needs_reset(format) {
                    Setup::Rebuild
                } else {
                    Setup::Ready
                }
            },
        }
    }

    /// Takes note of a decoder that was built for `display`: a new display
    /// gets a controller, at the end; a known one has its handler reset,
    /// to `format` if one is given.
    pub fn install(&mut self, display: usize, format: CodecFormat, decoder_valid: bool)
        ensures
            old(self).wf() ==> final(self).wf(),
            match position_of(old(self)@, display) {
                None => final(self)@ == old(self)@.push(
                    ControllerState {
                        handler: VideoHandler {
                            format,
                            decoder_valid,
                            record: false,
                            display,
                            fail_counter: 0,
                        },
                        sample: Sample::start(),
                        fps: None,
                    },
                ),
                Some(i) => final(self)@ == old(self)@.update(
                    i,
                    ControllerState {
                        handler: VideoHandler {
                            format,
                            decoder_valid,
                            fail_counter: 0,
                            ..old(self)@[i].handler
                        },
                        ..old(self)@[i]
                    },
                ),
            },
    {
        proof {
            lemma_position_of(self@, display);
        }
        match self.find(display) {
            None => {
                let c = VideoHandlerController {
                    handler: VideoHandler::new(format, display, decoder_valid),
                    meter: FpsMeter::new(),
                    fps: None,
                };
                self.controllers.push(c);
                assert(self@ =~= old(self)@.push(c@));
            },
            Some(i) => {
                let mut c = self.controllers[i];
                c.handler.reset(Some(format), decoder_valid);
                self.controllers.set(i, c);
                assert(self@ =~= old(self)@.update(i as int, c@));
            },
        }
    }

    /// Takes note of a decoder that was rebuilt for `display` in its
    /// current format. Says whether the display has a controller.
    pub fn reset(&mut self, display: usize, decoder_valid: bool) -> (r: bool)
        ensures
            old(self).wf() ==> final(self).wf(),
            r == position_of(old(self)@, display) is Some,
            match position_of(old(self)@, display) {
                None => final(self)@ == old(self)@,
                Some(i) => final(self)@ == old(self)@.update(
                    i,
                    ControllerState {
                        handler: VideoHandler {
                            decoder_valid,
                            fail_counter: 0,
                            ..old(self)@[i].handler
                        },
                        ..old(self)@[i]
                    },
                ),
            },
    {
        proof {
            lemma_position_of(self@, display);
        }
        match self.find(display) {
            None => false,
            Some(i) => {
                let mut c = self.controllers[i];
                c.handler.reset(None, decoder_valid);
                self.controllers.set(i, c);
                assert(self@ =~= old(self)@.update(i as int, c@));
                true
            },
        }
    }

    /// Whether a frame of `display` that took `elapsed` nanoseconds can be
    /// reported as shown: see [`FpsMeter::measures`].
    pub open spec fn spec_measures(self, display: usize, elapsed: u64) -> bool {
        match position_of(self@, display) {
            Some(i) => self@[i].sample.publishes() ==> self@[i].sample.millis_with(elapsed as nat)
                > 0,
            None => true,
        }
    }

    /// Whether a frame of `display` that took `elapsed` nanoseconds can be
    /// reported as shown.
    pub fn measures(&self, display: usize, elapsed: u64) -> (r: bool)
        ensures
            r == self.spec_measures(display, elapsed),
    {
        match self.find(display) {
            None => true,
            Some(i) => {
                proof {
                    lemma_position_of(self@, display);
                }
                self.controllers[i].meter.measures(elapsed)
            },
        }
    }

    /// Takes note of what the decoder made of a frame of `display`, which
    /// took `elapsed` nanoseconds. A frame that was shown feeds the rate
    /// sampler. A display without a controller reports nothing.
    pub fn decoded(&mut self, display: usize, outcome: Decoded, elapsed: u64) -> (r: Option<
        FrameReport,
    >)
        requires
            outcome == Decoded::Shown ==> old(self).spec_measures(display, elapsed),
        ensures
            old(self).wf() ==> final(self).wf(),
            match position_of(old(self)@, display) {
                None => r is None && final(self)@ == old(self)@,
                Some(i) => {
                    let before = old(self)@[i];
                    let shown = outcome == Decoded::Shown;
                    let published = if shown {
                        before.sample.published(elapsed as nat)
                    } else {
                        None
                    };
                    &&& r matches Some(report)
                    &&& report.result.shown == shown
                    &&& report.result.record == (before.handler.record && outcome
                        != Decoded::NoPayload)
                    &&& report.result.refresh == (outcome == Decoded::Failed)
                    &&& match report.fps {
                        Some(rate) => published == Some(rate as nat),
                        None => published is None,
                    }
                    &&& final(self)@ == old(self)@.update(
                        i,
                        ControllerState {
                            handler: VideoHandler {
                                fail_counter: before.handler.spec_fail_counter_after(outcome),
                                ..before.handler
                            },
                            sample: if shown {
                                before.sample.step(elapsed as nat)
                            } else {
                                before.sample
                            },
                            fps: if report.fps is Some {
                                report.fps
                            } else {
                                before.fps
                            },
                        },
                    )
                },
            },
    {
        proof {
            lemma_position_of(self@, display);
        }
        match self.find(display) {
            None => None,
            Some(i) => {
                let mut c = self.controllers[i];
                let result = c.handler.handle_frame(outcome);
                let mut fps: Option<usize> = None;
                if result.shown {
                    fps = c.meter.record(elapsed);
                    if fps.is_some() {
                        c.fps = fps;
                    }
                }
                self.controllers.set(i, c);
                assert(self@ =~= old(self)@.update(i as int, c@));
                Some(FrameReport { result, fps })
            },
        }
    }

    /// The controller that a recording command for `display` goes to: the
    /// display's own, or the only one there is.
    pub open spec fn spec_record_target(self, display: usize) -> Option<int> {
        match position_of(self@, display) {
            Some(i) => Some(i),
            None => if self@.len() == 1 {
                Some(0int)
            } else {
                None
            },
        }
    }

    /// Starts or stops recording on the controller that the command goes
    /// to. Gives that controller's display with the recorder to set up, or
    /// `None` where the command goes nowhere.
    pub fn record_screen(&mut self, start: bool, display: usize, w: i32, h: i32, id: String) -> (r:
        Option<(usize, Option<RecorderRequest>)>)
        ensures
            old(self).wf() ==> final(self).wf(),
            match old(self).spec_record_target(display) {
                None => r is None && final(self)@ == old(self)@,
                Some(i) => {
                    &&& r matches Some((target, request))
                    &&& target == old(self)@[i].handler.display
                    &&& start ==> request == Some(
                        RecorderRequest { id, width: w, height: h, format: CodecFormat::VP9 },
                    )
                    &&& !start ==> request is None
                    &&& final(self)@ == old(self)@.update(
                        i,
                        ControllerState {
                            handler: VideoHandler { record: start, ..old(self)@[i].handler },
                            ..old(self)@[i]
                        },
                    )
                },
            },
    {
        proof {
            lemma_position_of(self@, display);
        }
        let target = match self.find(display) {
            Some(i) => Some(i),
            None => if self.controllers.len() == 1 {
                Some(0usize)
            } else {
                None
            },
        };
        match target {
            None => None,
            Some(i) => {
                let mut c = self.controllers[i];
                let request = c.handler.record_screen(start, w, h, id);
                self.controllers.set(i, c);
                assert(self@ =~= old(self)@.update(i as int, c@));
                Some((c.handler.display, request))
            },
        }
    }

    /// Scans the controllers for failing decoders and marks their formats
    /// as unsupported. Says whether a mark was added: then, and only then,
    /// the peer is to be told the supported decodings anew.
    pub fn mark_unsupported(&self, marks: &mut Vec<CodecFormat>) -> (grew: bool)
        ensures
            final(marks)@ == marks_after(self@, old(marks)@),
            old(marks)@.is_prefix_of(final(marks)@),
            grew == (final(marks)@.len() > old(marks)@.len()),
            grew == (final(marks)@ != old(marks)@),
    {
        let n = self.controllers.len();
        let mut grew = false;
        let mut i: usize = 0;
        while i < n
            invariant
                n == self.controllers@.len(),
                i <= n,
                marks@ == marks_after(self@.take(i as int), old(marks)@),
                grew == (marks@.len() > old(marks)@.len()),
            decreases n - i,
        {
            proof {
                assert(self@.take(i + 1).drop_last() =~= self@.take(i as int));
                lemma_marks_after(self@.take(i as int), old(marks)@);
            }
            let handler = self.controllers[i].handler;
            if handler.is_failing() && !is_marked(marks, handler.format) {
                marks.push(handler.format);
                grew = true;
            }
            i += 1;
        }
        proof {
            assert(self@.take(n as int) =~= self@);
            lemma_marks_after(self@, old(marks)@);
            if !grew {
                assert(marks@ =~= old(marks)@);
            }
        }
        grew
    }
}

} // verus!
