use vstd::prelude::*;
use crate::error::AudioError;

verus! {

/// What the shared recording state holds: the samples gathered so far, in
/// delivery order, and whether the callback should keep appending.
pub struct SharedModel<T> {
    pub samples: Seq<T>,
    pub recording: bool,
}

/// State shared between the driver callback (which appends) and the
/// controlling thread (which clears and drains). Callers keep it behind one
/// lock; every method here is a single critical section.
pub struct RecorderSharedState<T> {
    buffer: Vec<T>,
    is_recording: bool,
}

impl<T> View for RecorderSharedState<T> {
    type V = SharedModel<T>;

    closed spec fn view(&self) -> SharedModel<T> {
        SharedModel { samples: self.buffer@, recording: self.is_recording }
    }
}

/// Outcome of `begin` on a shared state, given whether a stream is already held.
pub open spec fn begin_spec<T>(stream_open: bool, s: SharedModel<T>) -> (Result<(), AudioError>, SharedModel<T>) {
    if stream_open || s.recording {
        (Err(AudioError::AlreadyRecording), s)
    } else {
        (Ok(()), SharedModel { samples: Seq::empty(), recording: true })
    }
}

/// The state left after a stream could not be opened or started.
pub open spec fn abort_spec<T>(s: SharedModel<T>) -> SharedModel<T> {
    SharedModel { samples: Seq::empty(), recording: false }
}

/// One block delivered by the driver callback.
pub open spec fn append_spec<T>(s: SharedModel<T>, block: Seq<T>) -> SharedModel<T> {
    if s.recording {
        SharedModel { samples: s.samples + block, recording: true }
    } else {
        s
    }
}

/// The state left after the samples were drained at stop time.
pub open spec fn drain_spec<T>(s: SharedModel<T>) -> SharedModel<T> {
    SharedModel { samples: Seq::empty(), recording: false }
}

impl<T: Copy> RecorderSharedState<T> {
    /// An idle state with an empty buffer.
    pub fn new() -> (r: Self)
        ensures
            r@.samples == Seq::<T>::empty(),
            !r@.recording,
    {
        RecorderSharedState { buffer: Vec::new(), is_recording: false }
    }

    pub fn is_recording(&self) -> (r: bool)
        ensures
            r == self@.recording,
    {
        self.is_recording
    }

    pub fn len(&self) -> (r: usize)
        ensures
            r == self@.samples.len(),
    {
        self.buffer.len()
    }

    /// Controller side of `start`: refuses when a stream is held or the flag is
    /// already set (a disagreement between the two counts as recording);
    /// otherwise clears the buffer and raises the flag.
    pub fn begin(&mut self, stream_open: bool) -> (r: Result<(), AudioError>)
        ensures
            (r, final(self)@) == begin_spec(stream_open, old(self)@),
    {
        if stream_open || self.is_recording {
            return Err(AudioError::AlreadyRecording);
        }
        self.buffer.clear();
        self.is_recording = true;
        Ok(())
    }

    /// Rolls `begin` back after the driver refused to open or start the stream.
    pub fn abort(&mut self)
        ensures
            final(self)@ == abort_spec(old(self)@),
    {
        self.buffer.clear();
        self.is_recording = false;
    }

    /// Callback side: appends one delivered block, in order, while recording;
    /// ignores it otherwise.
    pub fn append(&mut self, block: &[T])
        requires
            old(self)@.recording ==> old(self)@.samples.len() + block@.len() <= usize::MAX,
        ensures
            final(self)@ == append_spec(old(self)@, block@),
    {
        if !self.is_recording {
            return;
        }
        let ghost start = self.buffer@;
        let mut i: usize = 0;
        while i < block.len()
            invariant
                i <= block@.len(),
                self.is_recording,
                self.buffer@ == start + block@.subrange(0, i as int),
                start.len() + block@.len() <= usize::MAX,
            decreases block@.len() - i,
        {
            self.buffer.push(block[i]);
            i = i + 1;
            assert(block@.subrange(0, i as int) == block@.subrange(0, i - 1) + seq![block@[i - 1]]);
        }
        assert(block@.subrange(0, block@.len() as int) == block@);
    }

    /// Controller side of `stop`, once the stream has been halted: lowers the
    /// flag and hands back every buffered sample, leaving the buffer empty.
    pub fn drain(&mut self) -> (r: Vec<T>)
        ensures
            r@ == old(self)@.samples,
            final(self)@ == drain_spec(old(self)@),
    {
        self.is_recording = false;
        let mut taken: Vec<T> = Vec::new();
        std::mem::swap(&mut taken, &mut self.buffer);
        taken
    }
}

/// The slot holding the one active hardware stream of a capture session.
/// Only the controlling thread touches it.
pub struct StreamSlot<S> {
    active: Option<S>,
}

impl<S> StreamSlot<S> {
    pub closed spec fn occupied(&self) -> bool {
        self.active is Some
    }

    pub fn new() -> (r: Self)
        ensures
            !r.occupied(),
    {
        StreamSlot { active: None }
    }

    pub fn is_occupied(&self) -> (r: bool)
        ensures
            r == self.occupied(),
    {
        self.active.is_some()
    }

    /// Records a stream that was opened and started.
    pub fn store(&mut self, stream: S)
        requires
            !old(self).occupied(),
        ensures
            final(self).occupied(),
    {
        self.active = Some(stream);
    }

    /// Removes the active stream, or reports that none is held.
    pub fn take(&mut self) -> (r: Result<S, AudioError>)
        ensures
            !final(self).occupied(),
            old(self).occupied() <==> r is Ok,
            !old(self).occupied() ==> r == Err::<S, AudioError>(AudioError::NotRecording),
    {
        match self.active.take() {
            Some(s) => Ok(s),
            None => Err(AudioError::NotRecording),
        }
    }
}

/// A whole capture session as the controlling thread sees it: whether a stream
/// sits in the slot, and the shared recording state.
pub struct SessionModel<T> {
    pub stream_open: bool,
    pub shared: SharedModel<T>,
}

/// The state of a freshly created session.
pub open spec fn idle_session<T>() -> SessionModel<T> {
    SessionModel { stream_open: false, shared: SharedModel { samples: Seq::empty(), recording: false } }
}

/// `start`, where `driver` is what opening and starting the stream gave (it is
/// asked only when `begin` succeeded).
pub open spec fn start_spec<T>(m: SessionModel<T>, driver: Result<(), AudioError>) -> (Result<(), AudioError>, SessionModel<T>) {
    let (r, s) = begin_spec(m.stream_open, m.shared);
    match r {
        Err(e) => (Err(e), m),
        Ok(_) => match driver {
            Ok(_) => (Ok(()), SessionModel { stream_open: true, shared: s }),
            Err(e) => (Err(e), SessionModel { stream_open: false, shared: abort_spec(s) }),
        },
    }
}

/// One callback delivery.
pub open spec fn deliver_spec<T>(m: SessionModel<T>, block: Seq<T>) -> SessionModel<T> {
    SessionModel { stream_open: m.stream_open, shared: append_spec(m.shared, block) }
}

/// Deliveries of several blocks, in order.
pub open spec fn deliver_all_spec<T>(m: SessionModel<T>, blocks: Seq<Seq<T>>) -> SessionModel<T>
    decreases blocks.len(),
{
    if blocks.len() == 0 {
        m
    } else {
        deliver_spec(deliver_all_spec(m, blocks.drop_last()), blocks.last())
    }
}

/// The blocks joined end to end.
pub open spec fn concat_blocks<T>(blocks: Seq<Seq<T>>) -> Seq<T>
    decreases blocks.len(),
{
    if blocks.len() == 0 {
        Seq::empty()
    } else {
        concat_blocks(blocks.drop_last()) + blocks.last()
    }
}

/// `stop`, where `pause` is what halting the stream gave. On success the result
/// holds the samples handed to the encoder; an error means nothing is written.
/// Either way the session ends idle: the stream is released and the flag drops.
pub open spec fn stop_spec<T>(m: SessionModel<T>, pause: Result<(), AudioError>) -> (Result<Seq<T>, AudioError>, SessionModel<T>) {
    if !m.stream_open {
        (Err(AudioError::NotRecording), m)
    } else {
        match pause {
            Err(e) => (Err(e), SessionModel { stream_open: false, shared: drain_spec(m.shared) }),
            Ok(_) => (Ok(m.shared.samples), SessionModel { stream_open: false, shared: drain_spec(m.shared) }),
        }
    }
}

/// A second `start` after a successful one fails with `AlreadyRecording`
/// and leaves the running session as it was, whatever the driver would say.
pub proof fn lemma_start_twice<T>(m: SessionModel<T>, driver: Result<(), AudioError>)
    requires
        start_spec(m, Ok(())).0 is Ok,
    ensures
        ({
            let m1 = start_spec(m, Ok(())).1;
            start_spec(m1, driver) == (Err::<(), AudioError>(AudioError::AlreadyRecording), m1)
        }),
{
}

/// `stop` on a session that holds no stream fails with `NotRecording`, hands
/// nothing to the encoder and changes nothing; in particular on a new session.
pub proof fn lemma_stop_when_idle<T>(m: SessionModel<T>, pause: Result<(), AudioError>)
    requires
        !m.stream_open,
    ensures
        stop_spec(m, pause) == (Err::<Seq<T>, AudioError>(AudioError::NotRecording), m),
        stop_spec(idle_session::<T>(), pause) == (Err::<Seq<T>, AudioError>(AudioError::NotRecording), idle_session::<T>()),
{
}

/// `stop` on a session that holds a stream leaves it idle whatever halting
/// the stream gave, so the next `start` can succeed.
pub proof fn lemma_stop_returns_to_idle<T>(m: SessionModel<T>, pause: Result<(), AudioError>)
    requires
        m.stream_open,
    ensures
        stop_spec(m, pause).1 == idle_session::<T>(),
        start_spec(stop_spec(m, pause).1, Ok(())).0 is Ok,
{
}

/// `start` then `stop` with no callback in between succeeds and hands the
/// encoder no samples.
pub proof fn lemma_empty_session<T>(m: SessionModel<T>)
    requires
        start_spec(m, Ok(())).0 is Ok,
    ensures
        stop_spec(start_spec(m, Ok(())).1, Ok(())) == (Ok::<Seq<T>, AudioError>(Seq::<T>::empty()), idle_session::<T>()),
{
    assert(start_spec(m, Ok(())).1.shared.samples == Seq::<T>::empty());
}

proof fn lemma_deliver_all_recording<T>(m: SessionModel<T>, blocks: Seq<Seq<T>>)
    requires
        m.shared.recording,
    ensures
        deliver_all_spec(m, blocks) == (SessionModel {
            stream_open: m.stream_open,
            shared: SharedModel { samples: m.shared.samples + concat_blocks(blocks), recording: true },
        }),
    decreases blocks.len(),
{
    if blocks.len() > 0 {
        lemma_deliver_all_recording(m, blocks.drop_last());
        assert(m.shared.samples + concat_blocks(blocks.drop_last()) + blocks.last()
            == m.shared.samples + concat_blocks(blocks));
    } else {
        assert(m.shared.samples + concat_blocks(blocks) == m.shared.samples);
    }
}

proof fn lemma_deliver_all_stopped<T>(m: SessionModel<T>, blocks: Seq<Seq<T>>)
    requires
        !m.shared.recording,
    ensures
        deliver_all_spec(m, blocks) == m,
    decreases blocks.len(),
{
    if blocks.len() > 0 {
        lemma_deliver_all_stopped(m, blocks.drop_last());
    }
}

/// Every block delivered between a successful `start` and a successful `stop`
/// reaches the encoder exactly once and in delivery order; blocks delivered
/// after `stop` are dropped, so the next session starts from nothing.
pub proof fn lemma_no_loss_no_duplication<T>(m: SessionModel<T>, blocks: Seq<Seq<T>>, late: Seq<Seq<T>>)
    requires
        start_spec(m, Ok(())).0 is Ok,
    ensures
        ({
            let running = deliver_all_spec(start_spec(m, Ok(())).1, blocks);
            let (r, after) = stop_spec(running, Ok(()));
            &&& r == Ok::<Seq<T>, AudioError>(concat_blocks(blocks))
            &&& deliver_all_spec(after, late) == idle_session::<T>()
        }),
{
    let m1 = start_spec(m, Ok(())).1;
    lemma_deliver_all_recording(m1, blocks);
    assert(Seq::<T>::empty() + concat_blocks(blocks) == concat_blocks(blocks));
    let after = stop_spec(deliver_all_spec(m1, blocks), Ok(())).1;
    lemma_deliver_all_stopped(after, late);
}

} // verus!
