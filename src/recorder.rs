use vstd::prelude::*;
use crate::error::AudioError;
use crate::negotiate::{select_input_format, selected_format, InputFormat, SupportedConfigRange};
use crate::session::{abort_spec, begin_spec, drain_spec, RecorderSharedState, StreamSlot};

verus! {

/// The controlling side of a capture session: the negotiated input format and
/// the slot for the one active stream (of handle type `S`). The samples live in
/// a separate `RecorderSharedState`, which callers keep behind its own lock so
/// the driver callback never waits on stream set-up or tear-down.
///
/// Each driver call sits between two methods: `start_recording`, then opening
/// and starting the stream, then `stream_started`; `stop_recording`, then
/// halting the stream, then `stream_stopped`.
pub struct AudioRecorder<S> {
    format: InputFormat,
    active_stream: StreamSlot<S>,
}

impl<S> AudioRecorder<S> {
    pub closed spec fn input_format(&self) -> InputFormat {
        self.format
    }

    pub closed spec fn stream_open(&self) -> bool {
        self.active_stream.occupied()
    }

    /// Sets up a recorder for the default input device, given the ranges it
    /// supports (`None` when there is no default input device).
    pub fn new(device_configs: Option<&Vec<SupportedConfigRange>>) -> (r: Result<Self, AudioError>)
        ensures
            match device_configs {
                None => r matches Err(AudioError::NoDefaultInputDevice),
                Some(cs) => match selected_format(cs@) {
                    Ok(f) => r is Ok && r->Ok_0.input_format() == f && !r->Ok_0.stream_open(),
                    Err(e) => r matches Err(x) && x == e,
                },
            },
    {
        match device_configs {
            None => Err(AudioError::NoDefaultInputDevice),
            Some(cs) => match select_input_format(cs) {
                Ok(format) => Ok(AudioRecorder { format, active_stream: StreamSlot::new() }),
                Err(e) => Err(e),
            },
        }
    }

    pub fn format(&self) -> (r: InputFormat)
        ensures
            r == self.input_format(),
    {
        self.format
    }

    pub fn is_stream_open(&self) -> (r: bool)
        ensures
            r == self.stream_open(),
    {
        self.active_stream.is_occupied()
    }

    /// First half of `start`: refuses while a stream is held or the shared
    /// flag is set, else clears the buffer and raises the flag. On success the
    /// caller opens and starts the stream and reports with `stream_started`.
    pub fn start_recording<T: Copy>(&self, shared: &mut RecorderSharedState<T>) -> (r: Result<(), AudioError>)
        ensures
            (r, final(shared)@) == begin_spec(self.stream_open(), old(shared)@),
    {
        shared.begin(self.active_stream.is_occupied())
    }

    /// Second half of `start`: keeps the stream the driver opened and started,
    /// or, when the driver refused, rolls the shared state back to idle and
    /// passes the driver's error on.
    pub fn stream_started<T: Copy>(&mut self, shared: &mut RecorderSharedState<T>, opened: Result<S, AudioError>) -> (r: Result<(), AudioError>)
        requires
            !old(self).stream_open(),
        ensures
            final(self).input_format() == old(self).input_format(),
            match opened {
                Ok(_) => r is Ok && final(self).stream_open() && final(shared)@ == old(shared)@,
                Err(e) => r == Err::<(), AudioError>(e) && !final(self).stream_open()
                    && final(shared)@ == abort_spec(old(shared)@),
            },
    {
        match opened {
            Ok(stream) => {
                self.active_stream.store(stream);
                Ok(())
            },
            Err(e) => {
                shared.abort();
                Err(e)
            },
        }
    }

    /// First half of `stop`: hands the active stream over for halting, or
    /// fails with `NotRecording` when none is held. The slot is empty after.
    pub fn stop_recording(&mut self) -> (r: Result<S, AudioError>)
        ensures
            final(self).input_format() == old(self).input_format(),
            !final(self).stream_open(),
            old(self).stream_open() <==> r is Ok,
            !old(self).stream_open() ==> r matches Err(AudioError::NotRecording),
    {
        self.active_stream.take()
    }

    /// Second half of `stop`, once the driver was asked to halt the stream:
    /// the flag drops and the buffer is emptied either way, so the session is
    /// idle again. When the driver could not halt the stream its error is
    /// passed on and the samples are discarded; else every buffered sample
    /// comes back, in order, for encoding at the negotiated rate.
    pub fn stream_stopped<T: Copy>(&self, shared: &mut RecorderSharedState<T>, paused: Result<(), AudioError>) -> (r: Result<Vec<T>, AudioError>)
        ensures
            match paused {
                Err(e) => r == Err::<Vec<T>, AudioError>(e),
                Ok(_) => r is Ok && r->Ok_0@ == old(shared)@.samples,
            },
            final(shared)@ == drain_spec(old(shared)@),
    {
        let samples = shared.drain();
        match paused {
            Err(e) => Err(e),
            Ok(_) => Ok(samples),
        }
    }
}

/// The names of the input devices, skipping those whose name could not be
/// read (`None`); an enumeration failure is passed on.
pub fn list_devices(devices: Result<Vec<Option<String>>, String>) -> (r: Result<Vec<String>, String>)
    ensures
        match devices {
            Err(e) => r == Err::<Vec<String>, String>(e),
            Ok(ds) => r is Ok && r->Ok_0@ == ds@.filter(|d: Option<String>| d is Some).map_values(|d: Option<String>| d->Some_0),
        },
{
    match devices {
        Err(e) => Err(e),
        Ok(ds) => {
            let mut names: Vec<String> = Vec::new();
            let mut i: usize = 0;
            while i < ds.len()
                invariant
                    i <= ds@.len(),
                    names@ == ds@.subrange(0, i as int).filter(|d: Option<String>| d is Some).map_values(|d: Option<String>| d->Some_0),
                decreases ds@.len() - i,
            {
                proof {
                    reveal(Seq::filter);
                    assert(ds@.subrange(0, i + 1).drop_last() == ds@.subrange(0, i as int));
                }
                match &ds[i] {
                    Some(name) => names.push(name.clone()),
                    None => {},
                }
                i = i + 1;
            }
            assert(ds@.subrange(0, ds@.len() as int) == ds@);
            Ok(names)
        },
    }
}

} // verus!
