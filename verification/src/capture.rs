//! The capture stream: what stands between an input device and the buffer.
//!
//! The device itself belongs to the host. It reports here what it found when
//! the device was opened, hands over each frame that arrives, and says when
//! the device was released.

use vstd::prelude::*;
use vstd::string::StringExecFns;
use crate::buffer::SampleBuffer;
use crate::format::AudioFormat;
use crate::sample::{quantize_frame, quantized};
use crate::wav::{image, lemma_image_layout, pcm_bytes, HEADER_LEN};

verus! {

/// Why a stream could not be opened.
#[derive(Clone, Copy, Debug, PartialEq, Eq, Structural)]
pub enum CaptureError {
    /// The machine has no input device.
    NoInputDevice,
    /// The device does not take the recording format.
    DeviceConfigRejected,
}

impl CaptureError {
    /// The error in words.
    pub fn message(&self) -> (m: String)
        ensures
            m@ == match *self {
                CaptureError::NoInputDevice => "Failed to get input device"@,
                CaptureError::DeviceConfigRejected => "Input device rejected the recording format"@,
            },
    {
        match self {
            CaptureError::NoInputDevice => String::from_str("Failed to get input device"),
            CaptureError::DeviceConfigRejected => String::from_str(
                "Input device rejected the recording format",
            ),
        }
    }
}

/// What the host found when it asked for the default input device in the
/// recording format.
#[derive(Clone, Copy, Debug, PartialEq, Eq, Structural)]
pub enum DeviceStatus {
    /// There is no input device.
    Absent,
    /// There is one, and it refused the format.
    Rejected,
    /// There is one, configured for the format.
    Ready,
}

/// Where a stream is in its life.
#[derive(Clone, Copy, Debug, PartialEq, Eq, Structural)]
pub enum StreamState {
    /// Opened; frames are not yet taken.
    Idle,
    /// Frames are taken as they arrive.
    Running,
    /// Ended; nothing is taken any more.
    Stopped,
}

/// A capture session: the format, the buffer and the state of delivery.
pub struct CaptureStream {
    format: AudioFormat,
    buffer: SampleBuffer,
    state: StreamState,
}

/// A stream as contracts see it.
pub struct StreamModel {
    /// The format that the stream records in.
    pub format: AudioFormat,
    /// The state of delivery.
    pub state: StreamState,
    /// All samples recorded so far, oldest first.
    pub samples: Seq<i16>,
}

/// What can happen to a stream.
pub enum StreamEvent {
    /// Delivery is started.
    Begin,
    /// The device delivers a frame of scaled amplitudes.
    Frame(Seq<i64>),
    /// Delivery is ended.
    Stop,
}

impl StreamModel {
    /// A stream as it is opened: idle and empty.
    pub open spec fn initial(format: AudioFormat) -> StreamModel {
        StreamModel { format, state: StreamState::Idle, samples: Seq::<i16>::empty() }
    }

    /// The stream after `e`.
    pub open spec fn step(self, e: StreamEvent) -> StreamModel {
        match e {
            StreamEvent::Begin => StreamModel {
                format: self.format,
                state: if self.state == StreamState::Stopped {
                    StreamState::Stopped
                } else {
                    StreamState::Running
                },
                samples: self.samples,
            },
            StreamEvent::Frame(frame) => StreamModel {
                format: self.format,
                state: self.state,
                samples: if self.state == StreamState::Running {
                    self.samples + quantized(frame)
                } else {
                    self.samples
                },
            },
            StreamEvent::Stop => StreamModel {
                format: self.format,
                state: StreamState::Stopped,
                samples: self.samples,
            },
        }
    }

    /// The stream after `events`, in order.
    pub open spec fn run(self, events: Seq<StreamEvent>) -> StreamModel
        decreases events.len(),
    {
        if events.len() == 0 {
            self
        } else {
            self.run(events.drop_last()).step(events.last())
        }
    }

    /// The frames among `events` that reach a running stream, in order.
    pub open spec fn taken(self, events: Seq<StreamEvent>) -> Seq<Seq<i64>>
        decreases events.len(),
    {
        if events.len() == 0 {
            Seq::<Seq<i64>>::empty()
        } else {
            let before = self.taken(events.drop_last());
            match events.last() {
                StreamEvent::Frame(frame) => if self.run(events.drop_last()).state
                    == StreamState::Running {
                    before.push(frame)
                } else {
                    before
                },
                _ => before,
            }
        }
    }
}

/// The samples that a run of frames leaves behind, frame after frame.
pub open spec fn delivered(frames: Seq<Seq<i64>>) -> Seq<i16>
    decreases frames.len(),
{
    if frames.len() == 0 {
        Seq::<i16>::empty()
    } else {
        delivered(frames.drop_last()) + quantized(frames.last())
    }
}

/// The number of amplitudes in a run of frames.
pub open spec fn total_len(frames: Seq<Seq<i64>>) -> nat
    decreases frames.len(),
{
    if frames.len() == 0 {
        0
    } else {
        total_len(frames.drop_last()) + frames.last().len()
    }
}

impl View for CaptureStream {
    type V = StreamModel;

    open spec fn view(&self) -> StreamModel {
        StreamModel { format: self.format(), state: self.state(), samples: self.samples() }
    }
}

impl CaptureStream {
    /// The format that the stream records in.
    pub closed spec fn format(&self) -> AudioFormat {
        self.format
    }

    /// The state of delivery.
    pub closed spec fn state(&self) -> StreamState {
        self.state
    }

    /// All samples recorded so far, oldest first.
    pub closed spec fn samples(&self) -> Seq<i16> {
        self.buffer@
    }

    /// A stream always records in the standard format.
    pub closed spec fn wf(&self) -> bool {
        self.format.is_standard()
    }

    /// Opens a stream on what the host found: an idle stream with an empty
    /// buffer where the device is ready, else the reason why not.
    pub fn open(format: AudioFormat, device: DeviceStatus) -> (r: Result<CaptureStream, CaptureError>)
        requires
            format.is_standard(),
        ensures
            match device {
                DeviceStatus::Absent => r matches Err(e) && e == CaptureError::NoInputDevice,
                DeviceStatus::Rejected => r matches Err(e) && e
                    == CaptureError::DeviceConfigRejected,
                DeviceStatus::Ready => r matches Ok(s) && s.wf() && s@ == StreamModel::initial(
                    format,
                ),
            },
    {
        match device {
            DeviceStatus::Absent => Err(CaptureError::NoInputDevice),
            DeviceStatus::Rejected => Err(CaptureError::DeviceConfigRejected),
            DeviceStatus::Ready => Ok(
                CaptureStream { format, buffer: SampleBuffer::new(), state: StreamState::Idle },
            ),
        }
    }

    /// Starts delivery: an idle stream runs. A stopped stream stays stopped.
    pub fn begin(&mut self)
        requires
            old(self).wf(),
        ensures
            final(self).wf(),
            final(self)@ == old(self)@.step(StreamEvent::Begin),
    {
        match self.state {
            StreamState::Stopped => {},
            _ => {
                self.state = StreamState::Running;
            },
        }
    }

    /// Takes one frame of scaled amplitudes. While the stream runs, its
    /// samples are appended in order and `true` is returned; at any other
    /// time the frame is dropped.
    pub fn deliver(&mut self, frame: &[i64]) -> (taken: bool)
        requires
            old(self).wf(),
        ensures
            final(self).wf(),
            taken == (old(self).state() == StreamState::Running),
            final(self)@ == old(self)@.step(StreamEvent::Frame(frame@)),
    {
        match self.state {
            StreamState::Running => {
                let samples: Vec<i16> = quantize_frame(frame);
                self.buffer.append(samples.as_slice());
                true
            },
            _ => false,
        }
    }

    /// Ends delivery for good. What was recorded stays.
    pub fn stop(&mut self)
        requires
            old(self).wf(),
        ensures
            final(self).wf(),
            final(self)@ == old(self)@.step(StreamEvent::Stop),
    {
        self.state = StreamState::Stopped;
    }

    /// The format that the stream records in.
    pub fn audio_format(&self) -> (f: AudioFormat)
        ensures
            f == self.format(),
    {
        self.format
    }

    /// A well-formed stream records in the standard format.
    pub proof fn lemma_wf_format(&self)
        requires
            self.wf(),
        ensures
            self.format().is_standard(),
    {
    }

    /// Whether frames are taken at present.
    pub fn is_running(&self) -> (b: bool)
        ensures
            b == (self.state() == StreamState::Running),
    {
        match self.state {
            StreamState::Running => true,
            _ => false,
        }
    }

    /// Whether the stream has ended.
    pub fn is_stopped(&self) -> (b: bool)
        ensures
            b == (self.state() == StreamState::Stopped),
    {
        match self.state {
            StreamState::Stopped => true,
            _ => false,
        }
    }

    /// Number of samples recorded so far.
    pub fn sample_count(&self) -> (n: usize)
        ensures
            n == self.samples().len(),
    {
        self.buffer.len()
    }

    /// The whole recording, in the order of arrival. It is read only once the
    /// stream has stopped.
    pub fn snapshot(&self) -> (v: Vec<i16>)
        requires
            self.state() == StreamState::Stopped,
        ensures
            v@ == self.samples(),
    {
        self.buffer.snapshot()
    }
}

/// A run of frames leaves one sample for each amplitude delivered.
pub proof fn lemma_delivered_len(frames: Seq<Seq<i64>>)
    ensures
        delivered(frames).len() == total_len(frames),
    decreases frames.len(),
{
    if frames.len() > 0 {
        lemma_delivered_len(frames.drop_last());
    }
}

/// The sample data of a recording takes two bytes for each amplitude that
/// was delivered, whatever the amplitudes were.
pub proof fn lemma_payload_len(frames: Seq<Seq<i64>>)
    ensures
        pcm_bytes(delivered(frames)).len() == 2 * total_len(frames),
{
    lemma_delivered_len(frames);
}

/// Samples stand in the order of arrival: a later frame only adds behind what
/// the earlier frames left, and within a frame the order is kept.
pub proof fn lemma_delivered_order(frames: Seq<Seq<i64>>, frame: Seq<i64>)
    ensures
        delivered(frames.push(frame)) == delivered(frames) + quantized(frame),
        delivered(frames.push(frame)).subrange(0, delivered(frames).len() as int) == delivered(
            frames,
        ),
        forall|i: int|
            0 <= i < frame.len() ==> #[trigger] delivered(frames.push(frame))[delivered(
                frames,
            ).len() + i] == crate::sample::clamped(frame[i] as int) as i16,
{
    assert(frames.push(frame).drop_last() =~= frames);
    assert(frames.push(frame).last() == frame);
    assert((delivered(frames) + quantized(frame)).subrange(0, delivered(frames).len() as int)
        =~= delivered(frames));
}

/// A stream never loses or reorders a sample: after any events, what was
/// recorded before stands in front, and behind it stand the samples of the
/// frames that were taken, in the order of their arrival.
pub proof fn lemma_run_appends(m: StreamModel, events: Seq<StreamEvent>)
    ensures
        m.run(events).format == m.format,
        m.run(events).samples == m.samples + delivered(m.taken(events)),
        m.run(events).samples.subrange(0, m.samples.len() as int) == m.samples,
        m.run(events).samples.len() == m.samples.len() + total_len(m.taken(events)),
    decreases events.len(),
{
    if events.len() == 0 {
        assert(m.samples + delivered(m.taken(events)) =~= m.samples);
    } else {
        let before = events.drop_last();
        lemma_run_appends(m, before);
        let taken = m.taken(before);
        match events.last() {
            StreamEvent::Frame(frame) => {
                if m.run(before).state == StreamState::Running {
                    lemma_delivered_order(taken, frame);
                    assert(m.run(events).samples =~= m.samples + delivered(taken.push(frame)));
                }
            },
            _ => {},
        }
    }
    lemma_delivered_len(m.taken(events));
    assert(m.run(events).samples.subrange(0, m.samples.len() as int) =~= m.samples);
}

/// A stopped stream stays as it is: whatever arrives after the stop, a frame
/// or a new start, leaves no trace in the recording.
pub proof fn lemma_stopped_is_final(m: StreamModel, events: Seq<StreamEvent>)
    requires
        m.state == StreamState::Stopped,
    ensures
        m.run(events) == m,
        m.taken(events).len() == 0,
    decreases events.len(),
{
    if events.len() > 0 {
        lemma_stopped_is_final(m, events.drop_last());
    }
}

/// The file of a recording holds, behind its header, two bytes for each
/// amplitude that the stream took since it was opened, whatever the
/// amplitudes were, and these bytes are the samples in the order of arrival.
pub proof fn lemma_recording_payload(format: AudioFormat, events: Seq<StreamEvent>)
    ensures
        ({
            let recorded = StreamModel::initial(format).run(events).samples;
            let taken = StreamModel::initial(format).taken(events);
            let file = image(format, recorded);
            &&& recorded == delivered(taken)
            &&& pcm_bytes(recorded).len() == 2 * total_len(taken)
            &&& file.len() == HEADER_LEN + 2 * total_len(taken)
            &&& file.subrange(HEADER_LEN as int, file.len() as int) == pcm_bytes(delivered(taken))
        }),
{
    let m = StreamModel::initial(format);
    lemma_run_appends(m, events);
    assert(m.samples + delivered(m.taken(events)) =~= delivered(m.taken(events)));
    lemma_image_layout(format, m.run(events).samples);
}

} // verus!
