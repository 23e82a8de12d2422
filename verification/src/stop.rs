//! The stop sequence: a latch that fires once, ends the capture, hands out the
//! file image, and raises the completion signal when the file is on disk.

use vstd::prelude::*;
use crate::capture::{CaptureStream, StreamEvent};
use crate::wav::{image, serialize, EncodeError, MAX_SAMPLES};

verus! {

/// The stop sequence failed.
#[derive(Clone, Copy, Debug, PartialEq, Eq, Structural)]
pub enum StopError {
    /// The recording could not be made into a file.
    PersistenceFailed,
}

/// What a stop request asks of the host.
pub enum StopRequest {
    /// The latch had fired before: there is nothing to do.
    Ignored,
    /// Write these bytes to the recording's path, then report with `finish`.
    Persist(Vec<u8>),
}

/// A flag that is raised once and never lowered.
pub struct CompletionSignal {
    raised: bool,
}

impl CompletionSignal {
    /// Whether the flag is raised.
    pub closed spec fn is_set(&self) -> bool {
        self.raised
    }

    /// A lowered flag.
    pub fn new() -> (s: Self)
        ensures
            !s.is_set(),
    {
        CompletionSignal { raised: false }
    }

    /// Raises the flag. Returns whether this call raised it; on a raised flag
    /// nothing changes.
    pub fn set(&mut self) -> (first: bool)
        ensures
            final(self).is_set(),
            first == !old(self).is_set(),
    {
        let first: bool = !self.raised;
        self.raised = true;
        first
    }

    /// Whether the flag is raised.
    pub fn check(&self) -> (b: bool)
        ensures
            b == self.is_set(),
    {
        self.raised
    }
}

/// The coordinator as contracts see it.
pub struct StopModel {
    /// The latch has fired.
    pub fired: bool,
    /// A file image was handed out and its write was not yet reported.
    pub pending: bool,
    /// The completion signal is raised.
    pub signalled: bool,
}

/// What can happen to a coordinator.
pub enum StopEvent {
    /// A stop request; `encodable` says whether the recording fits in one
    /// file, so that its image can be made.
    Request { encodable: bool },
    /// The host reports on the write of the file.
    Written { ok: bool },
}

impl StopModel {
    /// An armed latch, nothing pending, the signal lowered.
    pub open spec fn initial() -> StopModel {
        StopModel { fired: false, pending: false, signalled: false }
    }

    /// Before the latch fires nothing is pending or signalled, and a write
    /// that is pending is not yet signalled.
    pub open spec fn wf(self) -> bool {
        &&& !self.fired ==> !self.pending && !self.signalled
        &&& !(self.pending && self.signalled)
    }

    /// Whether `e` makes the latch fire.
    pub open spec fn fires(self, e: StopEvent) -> bool {
        !self.fired && e is Request
    }

    /// Whether `e` has a file image handed out.
    pub open spec fn persists(self, e: StopEvent) -> bool {
        !self.fired && e == (StopEvent::Request { encodable: true })
    }

    /// Whether `e` raises the signal.
    pub open spec fn signals(self, e: StopEvent) -> bool {
        self.pending && e == (StopEvent::Written { ok: true })
    }

    /// The coordinator after `e`.
    pub open spec fn step(self, e: StopEvent) -> StopModel {
        match e {
            StopEvent::Request { encodable } => if self.fired {
                self
            } else {
                StopModel { fired: true, pending: encodable, signalled: self.signalled }
            },
            StopEvent::Written { ok } => if self.pending {
                StopModel { fired: self.fired, pending: false, signalled: ok }
            } else {
                self
            },
        }
    }

    /// The coordinator after `events`, in order.
    pub open spec fn run(self, events: Seq<StopEvent>) -> StopModel
        decreases events.len(),
    {
        if events.len() == 0 {
            self
        } else {
            self.step(events.first()).run(events.drop_first())
        }
    }

    /// How often the latch fires over `events`.
    pub open spec fn fire_count(self, events: Seq<StopEvent>) -> nat
        decreases events.len(),
    {
        if events.len() == 0 {
            0
        } else {
            (if self.fires(events.first()) { 1nat } else { 0nat })
                + self.step(events.first()).fire_count(events.drop_first())
        }
    }

    /// How many file images are handed out over `events`.
    pub open spec fn persist_count(self, events: Seq<StopEvent>) -> nat
        decreases events.len(),
    {
        if events.len() == 0 {
            0
        } else {
            (if self.persists(events.first()) { 1nat } else { 0nat })
                + self.step(events.first()).persist_count(events.drop_first())
        }
    }

    /// How often the signal is raised over `events`.
    pub open spec fn signal_count(self, events: Seq<StopEvent>) -> nat
        decreases events.len(),
    {
        if events.len() == 0 {
            0
        } else {
            (if self.signals(events.first()) { 1nat } else { 0nat })
                + self.step(events.first()).signal_count(events.drop_first())
        }
    }
}

/// The latch of the stop sequence, with the completion signal it raises.
pub struct StopCoordinator {
    fired: bool,
    pending: bool,
    signal: CompletionSignal,
}

impl View for StopCoordinator {
    type V = StopModel;

    closed spec fn view(&self) -> StopModel {
        StopModel { fired: self.fired, pending: self.pending, signalled: self.signal.is_set() }
    }
}

impl StopCoordinator {
    /// An armed coordinator.
    pub fn new() -> (c: Self)
        ensures
            c@ == StopModel::initial(),
            c@.wf(),
    {
        StopCoordinator { fired: false, pending: false, signal: CompletionSignal::new() }
    }

    /// Whether the latch has not fired yet.
    pub fn is_armed(&self) -> (b: bool)
        ensures
            b == !self@.fired,
    {
        !self.fired
    }

    /// Whether a file image is out and its write was not reported yet.
    pub fn is_pending(&self) -> (b: bool)
        ensures
            b == self@.pending,
    {
        self.pending
    }

    /// Whether the stop sequence has completed: the file is written.
    pub fn is_complete(&self) -> (b: bool)
        ensures
            b == self@.signalled,
    {
        self.signal.check()
    }

    /// Fires the latch. Returns whether this call fired it; on a fired latch
    /// nothing changes.
    pub fn trigger(&mut self) -> (first: bool)
        ensures
            first == !old(self)@.fired,
            final(self)@ == (StopModel { fired: true, ..old(self)@ }),
    {
        let first: bool = !self.fired;
        self.fired = true;
        first
    }

    /// Takes the outcome of the encoding, right after the latch fired: with a
    /// file image its write becomes pending and the image is handed out;
    /// without one the sequence has failed, and nothing is pending.
    pub fn persisting(&mut self, image: Result<Vec<u8>, EncodeError>) -> (r: Result<
        StopRequest,
        StopError,
    >)
        requires
            old(self)@.fired,
            !old(self)@.pending,
        ensures
            final(self)@ == (StopModel { pending: image is Ok, ..old(self)@ }),
            match image {
                Ok(bytes) => r matches Ok(StopRequest::Persist(b)) && b == bytes,
                Err(_) => r matches Err(e) && e == StopError::PersistenceFailed,
            },
    {
        match image {
            Ok(bytes) => {
                self.pending = true;
                Ok(StopRequest::Persist(bytes))
            },
            Err(_) => Err(StopError::PersistenceFailed),
        }
    }

    /// Requests the stop. The first request fires the latch, ends the capture
    /// and hands out the file image of everything recorded; it fails only
    /// where the recording is too long for one file. Every later request is
    /// ignored and changes nothing.
    pub fn request_stop(&mut self, stream: &mut CaptureStream) -> (r: Result<
        StopRequest,
        StopError,
    >)
        requires
            old(self)@.wf(),
            old(stream).wf(),
        ensures
            final(self)@.wf(),
            final(self)@ == old(self)@.step(
                StopEvent::Request { encodable: old(stream).samples().len() <= MAX_SAMPLES },
            ),
            r is Ok <==> old(self)@.fired || old(stream).samples().len() <= MAX_SAMPLES,
            final(stream).wf(),
            old(self)@.fired ==> (r matches Ok(StopRequest::Ignored)) && final(stream)@ == old(
                stream,
            )@,
            !old(self)@.fired ==> final(stream)@ == old(stream)@.step(StreamEvent::Stop) && match r {
                Ok(StopRequest::Persist(bytes)) => bytes@ == image(
                    old(stream).format(),
                    old(stream).samples(),
                ),
                Ok(StopRequest::Ignored) => false,
                Err(e) => e == StopError::PersistenceFailed,
            },
    {
        if !self.trigger() {
            return Ok(StopRequest::Ignored);
        }
        stream.stop();
        let samples: Vec<i16> = stream.snapshot();
        let format = stream.audio_format();
        proof {
            stream.lemma_wf_format();
        }
        let image = serialize(&format, &samples);
        self.persisting(image)
    }

    /// Takes the host's report on the write of the file. While a write is
    /// pending: a write that succeeded raises the completion signal, one that
    /// failed fails the sequence and leaves the signal lowered for good. With
    /// nothing pending the report is ignored.
    pub fn finish(&mut self, written: bool) -> (r: Result<(), StopError>)
        requires
            old(self)@.wf(),
        ensures
            final(self)@.wf(),
            final(self)@ == old(self)@.step(StopEvent::Written { ok: written }),
            r is Err <==> old(self)@.pending && !written,
            r matches Err(e) ==> e == StopError::PersistenceFailed,
    {
        if !self.pending {
            return Ok(());
        }
        self.pending = false;
        if written {
            self.signal.set();
            Ok(())
        } else {
            Err(StopError::PersistenceFailed)
        }
    }
}

/// Whatever happens, a coordinator stays well-formed, a fired latch stays
/// fired, and a raised signal stays raised.
pub proof fn lemma_run_preserves(m: StopModel, events: Seq<StopEvent>)
    requires
        m.wf(),
    ensures
        m.run(events).wf(),
        m.fired ==> m.run(events).fired,
        m.signalled ==> m.run(events).signalled,
    decreases events.len(),
{
    if events.len() > 0 {
        lemma_run_preserves(m.step(events.first()), events.drop_first());
    }
}

/// However many stop requests arrive, and in whatever order with the
/// reports, the latch fires at most once, at most one file image is handed
/// out, and the signal is raised at most once. Once the latch has fired, none
/// is handed out any more.
pub proof fn lemma_at_most_once(m: StopModel, events: Seq<StopEvent>)
    requires
        m.wf(),
    ensures
        m.fire_count(events) <= 1,
        m.persist_count(events) <= 1,
        m.signal_count(events) <= 1,
        m.persist_count(events) <= m.fire_count(events),
        m.fired ==> m.fire_count(events) == 0 && m.persist_count(events) == 0,
        m.fired && !m.pending ==> m.signal_count(events) == 0,
        !m.fired ==> m.signal_count(events) <= m.persist_count(events),
    decreases events.len(),
{
    if events.len() > 0 {
        lemma_at_most_once(m.step(events.first()), events.drop_first());
    }
}

/// From an armed coordinator, a first stop request whose image can be made
/// gives exactly one file image, however many requests follow.
pub proof fn lemma_exactly_one_persist(encodable: bool, rest: Seq<StopEvent>)
    ensures
        StopModel::initial().fire_count(seq![StopEvent::Request { encodable }] + rest) == 1,
        encodable ==> StopModel::initial().persist_count(
            seq![StopEvent::Request { encodable }] + rest,
        ) == 1,
        !encodable ==> StopModel::initial().persist_count(
            seq![StopEvent::Request { encodable }] + rest,
        ) == 0,
{
    let events = seq![StopEvent::Request { encodable }] + rest;
    assert(events.first() == (StopEvent::Request { encodable }));
    assert(events.drop_first() =~= rest);
    lemma_at_most_once(StopModel::initial().step(events.first()), rest);
}

/// The signal is raised exactly once where the first request's image is
/// written with success, however many requests and reports follow.
pub proof fn lemma_exactly_one_signal(rest: Seq<StopEvent>)
    ensures
        StopModel::initial().signal_count(
            seq![StopEvent::Request { encodable: true }, StopEvent::Written { ok: true }] + rest,
        ) == 1,
        StopModel::initial().run(
            seq![StopEvent::Request { encodable: true }, StopEvent::Written { ok: true }] + rest,
        ).signalled,
{
    let first = StopEvent::Request { encodable: true };
    let second = StopEvent::Written { ok: true };
    let events = seq![first, second] + rest;
    let m1 = StopModel::initial().step(first);
    let m2 = m1.step(second);
    assert(events.first() == first);
    assert(events.drop_first() =~= seq![second] + rest);
    assert(events.drop_first().first() == second);
    assert(events.drop_first().drop_first() =~= rest);
    let tail = events.drop_first();
    assert(m1.run(tail) == m2.run(rest));
    assert(StopModel::initial().run(events) == m1.run(tail));
    assert(m1.signal_count(tail) == 1 + m2.signal_count(rest));
    assert(StopModel::initial().signal_count(events) == m1.signal_count(tail));
    lemma_at_most_once(m2, rest);
    lemma_run_preserves(m2, rest);
}

/// A stop request on a fired latch changes nothing: a second request leaves
/// the coordinator as the first left it.
pub proof fn lemma_repeated_request_is_noop(m: StopModel, first: bool, second: bool)
    ensures
        m.fired ==> m.step(StopEvent::Request { encodable: second }) == m,
        m.step(StopEvent::Request { encodable: first }).step(
            StopEvent::Request { encodable: second },
        ) == m.step(StopEvent::Request { encodable: first }),
{
}

/// Where persistence has failed (the latch has fired, nothing is pending and
/// the signal is lowered), the signal is never raised, whatever follows.
pub proof fn lemma_failure_never_signals(m: StopModel, events: Seq<StopEvent>)
    requires
        m.fired,
        !m.pending,
        !m.signalled,
    ensures
        !m.run(events).signalled,
        m.signal_count(events) == 0,
        m.run(events) == m,
    decreases events.len(),
{
    if events.len() > 0 {
        assert(m.step(events.first()) == m);
        lemma_failure_never_signals(m, events.drop_first());
    }
}

/// Both ways in which persistence fails end in that state: an image that
/// cannot be made, and a write that is reported as failed.
pub proof fn lemma_failure_states(m: StopModel)
    requires
        m.wf(),
    ensures
        !m.fired ==> {
            let f = m.step(StopEvent::Request { encodable: false });
            f.fired && !f.pending && !f.signalled
        },
        m.pending ==> {
            let f = m.step(StopEvent::Written { ok: false });
            f.fired && !f.pending && !f.signalled
        },
{
}

} // verus!
