//! The shared state of one acquisition session and the steps that the
//! receiving side, the fixed-rate consumer and the operator take on it.
//!
//! Everything that more than one loop touches is held in one value, to be
//! kept behind one lock: the per-channel state, the health flags and the
//! recorder are then always seen together.

use vstd::prelude::*;
use crate::wave::record::{row_views, Recorder, RecorderView, Row, RowView, Trigger};
use crate::wifi::filter::{run_filters, stepped};
use crate::wifi::packet::channel_healthy;
use crate::wifi::resync::{chosen_mark, marks_after, ChannelView, Resynchronizer, Tick};
use crate::wifi::status::ChannelStatus;
use crate::wifi::NapseError;

verus! {

/// The state of one acquisition session.
pub struct Pipeline<T> {
    /// Jitter buffers, held values and rolling windows.
    resync: Resynchronizer<T>,
    /// Health flags as the latest frame gave them.
    status: ChannelStatus,
    /// The recorder, fed by every tick while a session is captured.
    recorder: Recorder<T>,
}

impl<T: Copy> Pipeline<T> {
    /// Number of channels.
    pub closed spec fn channel_count(&self) -> nat {
        self.resync.channel_count()
    }

    /// State of channel `i`.
    pub closed spec fn channel(&self, i: int) -> ChannelView<T> {
        self.resync.channel(i)
    }

    /// Event marks waiting for their tick, oldest first.
    pub closed spec fn pending_marks(&self) -> Seq<u8> {
        self.resync.pending_marks()
    }

    /// Health flag of each channel, `true` for healthy.
    pub closed spec fn health(&self) -> Seq<bool> {
        self.status@
    }

    /// State of the recorder.
    pub closed spec fn session(&self) -> RecorderView<T> {
        self.recorder@
    }

    /// All parts are laid out for the same number of channels, the
    /// recorder's session has columns of equal length, and every channel
    /// has as many values pending as there are marks pending, so that a
    /// tick takes the samples and the mark of one frame.
    pub open spec fn wf(&self) -> bool {
        &&& self.health().len() == self.channel_count()
        &&& self.session().channels == self.channel_count()
        &&& self.session().wf()
        &&& self.aligned()
    }

    /// Samples and marks are consumed frame by frame.
    pub closed spec fn aligned(&self) -> bool {
        self.resync.aligned()
    }

    /// In a well-formed pipeline every channel has as many values pending
    /// as there are marks pending: the tick that takes the samples of a
    /// frame takes the mark of that frame.
    pub proof fn lemma_frames_stay_together(&self)
        requires
            self.wf(),
        ensures
            forall|i: int|
                0 <= i < self.channel_count() ==> (#[trigger] self.channel(i)).pending.len()
                    == self.pending_marks().len(),
    {
        assert forall|i: int| 0 <= i < self.channel_count() implies (#[trigger] self.channel(
            i,
        )).pending.len() == self.pending_marks().len() by {
            assert(self.channel(i) == self.resync.channel(i));
        }
    }

    /// A session of `channels` channels with windows of `capacity` values,
    /// all equal to `fill`; every channel healthy, the recorder idle.
    pub fn new(channels: usize, capacity: usize, fill: T) -> (pipeline: Self)
        ensures
            pipeline.wf(),
            pipeline.channel_count() == channels,
            pipeline.pending_marks() == Seq::<u8>::empty(),
            forall|i: int|
                0 <= i < channels ==> #[trigger] pipeline.channel(i) == (ChannelView {
                    pending: Seq::<T>::empty(),
                    last: fill,
                    window: Seq::new(capacity as nat, |k: int| fill),
                }),
            pipeline.health() == Seq::new(channels as nat, |i: int| true),
            pipeline.session() == (RecorderView {
                recording: false,
                channels: channels as nat,
                rows: Seq::<RowView<T>>::empty(),
            }),
    {
        Pipeline {
            resync: Resynchronizer::new(channels, capacity, fill),
            status: ChannelStatus::new(channels),
            recorder: Recorder::new(channels),
        }
    }

    /// A frame has arrived: its bitmask overwrites the health flags, and
    /// its samples and its mark queue up for the ticks to come. A frame
    /// that does not bring one sample per channel is refused and changes
    /// nothing.
    pub fn receive(&mut self, mask: u32, samples: &Vec<T>, mark: u8) -> (taken: Result<
        (),
        NapseError,
    >)
        requires
            old(self).wf(),
        ensures
            final(self).wf(),
            final(self).channel_count() == old(self).channel_count(),
            final(self).session() == old(self).session(),
            taken is Ok <==> samples@.len() == old(self).channel_count(),
            taken matches Err(e) ==> e == NapseError::FailedToReadAllChannels && *final(self)
                == *old(self),
            taken is Ok ==> {
                &&& final(self).pending_marks() == old(self).pending_marks().push(mark)
                &&& forall|i: int|
                    0 <= i < old(self).channel_count() ==> #[trigger] final(self).channel(i)
                        == old(self).channel(i).offered(samples@[i])
                &&& forall|i: int|
                    0 <= i < old(self).channel_count() ==> #[trigger] final(self).health()[i]
                        == channel_healthy(mask, i)
            },
    {
        match self.resync.ingest(samples, mark) {
            Ok(()) => {
                self.status.update(mask);
                Ok(())
            },
            Err(e) => Err(e),
        }
    }

    /// First half of a tick: takes the input of every channel, for the
    /// caller's filters, and the mark of the frame they came with.
    pub fn begin_tick(&mut self) -> (tick: Tick<T>)
        requires
            old(self).wf(),
        ensures
            final(self).wf(),
            final(self).channel_count() == old(self).channel_count(),
            final(self).health() == old(self).health(),
            final(self).session() == old(self).session(),
            tick.inputs@.len() == old(self).channel_count(),
            forall|i: int|
                0 <= i < old(self).channel_count() ==> #[trigger] tick.inputs@[i] == old(
                    self,
                ).channel(i).chosen(),
            forall|i: int|
                0 <= i < old(self).channel_count() ==> #[trigger] final(self).channel(i) == old(
                    self,
                ).channel(i).selected(),
            tick.mark == chosen_mark(old(self).pending_marks()),
            final(self).pending_marks() == marks_after(old(self).pending_marks()),
    {
        self.resync.select()
    }

    /// Second half of a tick: the filtered values go into the rolling
    /// windows and, while a session is captured, into a new row of the
    /// recorder beside the health flags of the moment and the tick's mark.
    /// A list that does not hold one value per channel is refused and
    /// changes nothing.
    pub fn end_tick(&mut self, outputs: &Vec<T>, mark: u8) -> (done: Result<(), NapseError>)
        requires
            old(self).wf(),
        ensures
            final(self).wf(),
            final(self).channel_count() == old(self).channel_count(),
            final(self).health() == old(self).health(),
            final(self).pending_marks() == old(self).pending_marks(),
            done is Ok <==> outputs@.len() == old(self).channel_count(),
            done matches Err(e) ==> e == NapseError::FailedToReadAllChannels && *final(self)
                == *old(self),
            done is Ok ==> {
                &&& forall|i: int|
                    0 <= i < old(self).channel_count() ==> #[trigger] final(self).channel(i)
                        == old(self).channel(i).committed(outputs@[i])
                &&& final(self).session() == old(self).session().ticked(
                    RowView { values: outputs@, status: old(self).health(), mark },
                )
            },
    {
        match self.resync.commit(outputs) {
            Ok(()) => {
                let flags: Vec<bool> = self.status.snapshot();
                self.recorder.tick(outputs, &flags, mark);
                Ok(())
            },
            Err(e) => Err(e),
        }
    }

    /// One whole tick: takes the input of every channel, runs one step of
    /// every channel's filter on it, and moves the outputs into the rolling
    /// windows and, while a session is captured, into the recorder. The
    /// outputs are handed back. Where there is not exactly one filter state
    /// per channel, nothing is run and nothing changes.
    pub fn tick<S: Copy, F: Fn(S, T) -> (S, T)>(
        &mut self,
        states: &mut Vec<S>,
        step: &F,
    ) -> (emitted: Result<Vec<T>, NapseError>)
        requires
            old(self).wf(),
            forall|s: S, x: T| call_requires(*step, (s, x)),
        ensures
            final(self).wf(),
            final(self).channel_count() == old(self).channel_count(),
            final(self).health() == old(self).health(),
            final(states)@.len() == old(states)@.len(),
            emitted is Ok <==> old(states)@.len() == old(self).channel_count(),
            emitted matches Err(e) ==> e == NapseError::FailedToReadAllChannels && *final(self)
                == *old(self) && final(states)@ == old(states)@,
            emitted matches Ok(ys) ==> {
                &&& ys@.len() == old(self).channel_count()
                &&& stepped(
                    *step,
                    old(states)@,
                    Seq::new(old(self).channel_count(), |i: int| old(self).channel(i).chosen()),
                    final(states)@,
                    ys@,
                )
                &&& forall|i: int|
                    0 <= i < old(self).channel_count() ==> #[trigger] final(self).channel(i)
                        == old(self).channel(i).selected().committed(ys@[i])
                &&& final(self).pending_marks() == marks_after(old(self).pending_marks())
                &&& final(self).session() == old(self).session().ticked(
                    RowView {
                        values: ys@,
                        status: old(self).health(),
                        mark: chosen_mark(old(self).pending_marks()),
                    },
                )
            },
    {
        if states.len() != self.resync.channels() {
            return Err(NapseError::FailedToReadAllChannels);
        }
        let tick: Tick<T> = self.begin_tick();
        assert(tick.inputs@ =~= Seq::new(
            old(self).channel_count(),
            |i: int| old(self).channel(i).chosen(),
        ));
        match run_filters(states, &tick.inputs, step) {
            Some(ys) => match self.end_tick(&ys, tick.mark) {
                Ok(()) => Ok(ys),
                Err(e) => Err(e),
            },
            None => Err(NapseError::FailedToReadAllChannels),
        }
    }

    /// What a press of the record button asks for.
    pub fn on_button(&self, connected: bool) -> (trigger: Trigger)
        ensures
            trigger == if self.session().recording {
                Trigger::Stop
            } else if connected {
                Trigger::Start
            } else {
                Trigger::Ignore
            },
    {
        self.recorder.on_button(connected)
    }

    /// Start trigger: an idle recorder begins an empty session. Returns
    /// whether a session began.
    pub fn start_recording(&mut self) -> (began: bool)
        requires
            old(self).wf(),
        ensures
            final(self).wf(),
            final(self).session() == old(self).session().started(),
            began == !old(self).session().recording,
            final(self).channel_count() == old(self).channel_count(),
            final(self).health() == old(self).health(),
            final(self).pending_marks() == old(self).pending_marks(),
            forall|i: int| final(self).channel(i) == old(self).channel(i),
    {
        self.recorder.start()
    }

    /// Stop trigger: the recorder becomes idle, and the session is handed
    /// out for export where one was being captured and `confirmed` says
    /// that a destination was chosen.
    pub fn stop_recording(&mut self, confirmed: bool) -> (session: Option<Vec<Row<T>>>)
        requires
            old(self).wf(),
        ensures
            final(self).wf(),
            final(self).session() == old(self).session().stopped(),
            session is Some <==> old(self).session().recording && confirmed,
            session matches Some(rows) ==> row_views(rows@) == old(self).session().rows
                && forall|j: int|
                0 <= j < rows@.len() ==> (#[trigger] rows@[j])@.fits(old(self).channel_count()),
            final(self).channel_count() == old(self).channel_count(),
            final(self).health() == old(self).health(),
            final(self).pending_marks() == old(self).pending_marks(),
            forall|i: int| final(self).channel(i) == old(self).channel(i),
    {
        self.recorder.stop(confirmed)
    }

    /// Whether a session is being captured.
    pub fn is_recording(&self) -> (recording: bool)
        ensures
            recording == self.session().recording,
    {
        self.recorder.is_recording()
    }

    /// Number of rows captured so far in the current session.
    pub fn recorded(&self) -> (len: usize)
        ensures
            len == self.session().rows.len(),
    {
        self.recorder.len()
    }

    /// Number of channels.
    pub fn channels(&self) -> (n: usize)
        ensures
            n == self.channel_count(),
    {
        self.resync.channels()
    }

    /// A copy of the rolling window of channel `i`, oldest first; `None`
    /// where there is no such channel.
    pub fn window(&self, i: usize) -> (values: Option<Vec<T>>)
        ensures
            values is Some <==> i < self.channel_count(),
            values matches Some(v) ==> v@ == self.channel(i as int).window,
    {
        self.resync.window(i)
    }

    /// Copies of the rolling windows of all channels, taken at one moment.
    pub fn windows(&self) -> (all: Vec<Vec<T>>)
        ensures
            all@.len() == self.channel_count(),
            forall|i: int|
                0 <= i < self.channel_count() ==> (#[trigger] all@[i])@ == self.channel(i).window,
    {
        self.resync.windows()
    }

    /// Number of values of channel `i` that wait for their tick; 0 where
    /// there is no such channel.
    pub fn backlog(&self, i: usize) -> (len: usize)
        ensures
            len == if i < self.channel_count() {
                self.channel(i as int).pending.len()
            } else {
                0
            },
    {
        self.resync.backlog(i)
    }

    /// A copy of the health flags.
    pub fn health_flags(&self) -> (flags: Vec<bool>)
        ensures
            flags@ == self.health(),
    {
        self.status.snapshot()
    }
}

} // verus!
