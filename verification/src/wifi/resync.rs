//! The jitter buffers and their fixed-rate consumer.
//!
//! Frames arrive in bursts; every tick takes one value per channel. A tick
//! has two halves. `select` picks the input of every channel: the oldest
//! pending value, or the value last emitted where nothing is pending. The
//! caller runs its filters over the inputs and hands the outputs to
//! `commit`, which moves them into the rolling windows.

use std::collections::VecDeque;
use vstd::prelude::*;
use crate::wave::window::{slide, slide_all, RollingWindow};
use crate::wifi::NapseError;

verus! {

/// Values that have arrived and wait for their tick, oldest first.
pub struct PreBuffer<T> {
    pending: VecDeque<T>,
}

impl<T> View for PreBuffer<T> {
    type V = Seq<T>;

    closed spec fn view(&self) -> Seq<T> {
        self.pending@
    }
}

impl<T: Copy> PreBuffer<T> {
    /// A buffer with nothing pending.
    pub fn new() -> (buffer: Self)
        ensures
            buffer@ == Seq::<T>::empty(),
    {
        PreBuffer { pending: VecDeque::new() }
    }

    /// Number of pending values.
    pub fn len(&self) -> (len: usize)
        ensures
            len == self@.len(),
    {
        self.pending.len()
    }

    /// Queues `x` behind everything that is pending.
    pub fn push(&mut self, x: T)
        ensures
            final(self)@ == old(self)@.push(x),
    {
        self.pending.push_back(x);
    }

    /// Takes the oldest pending value out, if there is one.
    pub fn pop(&mut self) -> (x: Option<T>)
        ensures
            x == if old(self)@.len() == 0 {
                None
            } else {
                Some(old(self)@[0])
            },
            final(self)@ == if old(self)@.len() == 0 {
                old(self)@
            } else {
                old(self)@.drop_first()
            },
    {
        self.pending.pop_front()
    }
}

/// The state of one channel as contracts see it.
pub struct ChannelView<T> {
    /// Values waiting for their tick, oldest first.
    pub pending: Seq<T>,
    /// The value emitted by the latest tick.
    pub last: T,
    /// The rolling window, oldest first.
    pub window: Seq<T>,
}

impl<T> ChannelView<T> {
    /// The input of the next tick: the oldest pending value, or the value
    /// last emitted where none is pending.
    pub open spec fn chosen(self) -> T {
        if self.pending.len() == 0 {
            self.last
        } else {
            self.pending[0]
        }
    }

    /// The channel once the input of the tick has been taken.
    pub open spec fn selected(self) -> Self {
        if self.pending.len() == 0 {
            self
        } else {
            ChannelView { pending: self.pending.drop_first(), ..self }
        }
    }

    /// The channel once the tick has emitted `y`.
    pub open spec fn committed(self, y: T) -> Self {
        ChannelView { pending: self.pending, last: y, window: slide(self.window, y) }
    }

    /// The channel once `x` has arrived.
    pub open spec fn offered(self, x: T) -> Self {
        ChannelView { pending: self.pending.push(x), ..self }
    }

    /// The channel after as many ticks as `ys` has values, the tick number
    /// `i` emitting `ys[i]`.
    pub open spec fn ticked(self, ys: Seq<T>) -> Self
        decreases ys.len(),
    {
        if ys.len() == 0 {
            self
        } else {
            self.selected().committed(ys[0]).ticked(ys.drop_first())
        }
    }

    /// The channel after `k` ticks whose filter hands each input on
    /// unchanged.
    pub open spec fn passed(self, k: nat) -> Self
        decreases k,
    {
        if k == 0 {
            self
        } else {
            self.selected().committed(self.chosen()).passed((k - 1) as nat)
        }
    }
}

/// One channel: its jitter buffer, the value it emitted last and its
/// rolling window.
pub struct Channel<T> {
    pending: PreBuffer<T>,
    last: T,
    window: RollingWindow<T>,
}

impl<T> View for Channel<T> {
    type V = ChannelView<T>;

    closed spec fn view(&self) -> ChannelView<T> {
        ChannelView { pending: self.pending@, last: self.last, window: self.window@ }
    }
}

impl<T: Copy> Channel<T> {
    /// A channel with nothing pending whose window holds `capacity` copies
    /// of `fill`, which also stands for the value last emitted.
    pub fn new(capacity: usize, fill: T) -> (channel: Self)
        ensures
            channel@ == (ChannelView {
                pending: Seq::<T>::empty(),
                last: fill,
                window: Seq::new(capacity as nat, |i: int| fill),
            }),
    {
        Channel {
            pending: PreBuffer::new(),
            last: fill,
            window: RollingWindow::new(capacity, fill),
        }
    }

    /// Queues a value that has arrived.
    pub fn offer(&mut self, x: T)
        ensures
            final(self)@ == old(self)@.offered(x),
    {
        self.pending.push(x);
    }

    /// First half of a tick: takes the input out.
    pub fn select(&mut self) -> (input: T)
        ensures
            input == old(self)@.chosen(),
            final(self)@ == old(self)@.selected(),
    {
        match self.pending.pop() {
            Some(x) => x,
            None => self.last,
        }
    }

    /// Second half of a tick: emits `y` into the window.
    pub fn commit(&mut self, y: T)
        ensures
            final(self)@ == old(self)@.committed(y),
    {
        self.window.push(y);
        self.last = y;
    }

    /// Number of values waiting for their tick.
    pub fn backlog(&self) -> (len: usize)
        ensures
            len == self@.pending.len(),
    {
        self.pending.len()
    }

    /// The value emitted by the latest tick.
    pub fn last(&self) -> (y: T)
        ensures
            y == self@.last,
    {
        self.last
    }

    /// A copy of the rolling window, oldest first.
    pub fn window(&self) -> (values: Vec<T>)
        ensures
            values@ == self@.window,
    {
        self.window.snapshot()
    }
}

/// Sample-and-hold: while nothing is pending and the filter hands the held
/// value on unchanged, every tick takes and emits the value emitted last,
/// however many ticks go by.
pub proof fn lemma_hold_repeats<T>(c: ChannelView<T>, k: nat)
    requires
        c.pending.len() == 0,
    ensures
        c.passed(k).pending.len() == 0,
        c.passed(k).last == c.last,
        c.passed(k).chosen() == c.last,
        c.passed(k).window == slide_all(c.window, Seq::new(k, |i: int| c.last)),
    decreases k,
{
    if k > 0 {
        let held = Seq::new(k, |i: int| c.last);
        let next = c.selected().committed(c.chosen());
        lemma_hold_repeats(next, (k - 1) as nat);
        assert(held.drop_first() =~= Seq::new((k - 1) as nat, |i: int| c.last));
    }
}

/// Within one channel values are consumed in their order of arrival: while
/// pending values remain, the tick after `n` others takes the pending value
/// number `n`, whatever those ticks emitted.
pub proof fn lemma_fifo_order<T>(c: ChannelView<T>, ys: Seq<T>)
    requires
        ys.len() < c.pending.len(),
    ensures
        c.ticked(ys).pending == c.pending.skip(ys.len() as int),
        c.ticked(ys).chosen() == c.pending[ys.len() as int],
    decreases ys.len(),
{
    if ys.len() == 0 {
        assert(c.pending.skip(0) =~= c.pending);
    } else {
        let next = c.selected().committed(ys[0]);
        let rest = ys.drop_first();
        lemma_fifo_order(next, rest);
        assert(next.pending.skip(rest.len() as int) =~= c.pending.skip(ys.len() as int));
    }
}

/// What the first half of a tick hands to the filters.
pub struct Tick<T> {
    /// Input of each channel.
    pub inputs: Vec<T>,
    /// Event mark of the frame taken by this tick, 0 where none was pending.
    pub mark: u8,
}

/// The mark that a tick takes from the pending ones: the oldest, or 0 (no
/// mark) where none is pending. Unlike a sample, a mark is not held.
pub open spec fn chosen_mark(pending: Seq<u8>) -> u8 {
    if pending.len() == 0 {
        0
    } else {
        pending[0]
    }
}

/// The pending marks once a tick has taken its mark.
pub open spec fn marks_after(pending: Seq<u8>) -> Seq<u8> {
    if pending.len() == 0 {
        pending
    } else {
        pending.drop_first()
    }
}

/// The fixed-rate consumer of all channels, with the event marks that
/// arrived beside the samples.
pub struct Resynchronizer<T> {
    channels: Vec<Channel<T>>,
    marks: PreBuffer<u8>,
}

impl<T: Copy> Resynchronizer<T> {
    /// Number of channels.
    pub closed spec fn channel_count(&self) -> nat {
        self.channels@.len()
    }

    /// State of channel `i`.
    pub closed spec fn channel(&self, i: int) -> ChannelView<T> {
        self.channels@[i]@
    }

    /// Event marks waiting for their tick, oldest first.
    pub closed spec fn pending_marks(&self) -> Seq<u8> {
        self.marks@
    }

    /// Every channel has as many values pending as there are marks
    /// pending: what one tick takes, samples and mark, came in one frame.
    pub open spec fn aligned(&self) -> bool {
        forall|i: int|
            0 <= i < self.channel_count() ==> (#[trigger] self.channel(i)).pending.len()
                == self.pending_marks().len()
    }

    /// Alignment, channel by channel.
    proof fn lemma_aligned(&self)
        ensures
            self.aligned() <==> forall|i: int|
                0 <= i < self.channels@.len() ==> (#[trigger] self.channels@[i])@.pending.len()
                    == self.marks@.len(),
    {
        if self.aligned() {
            assert forall|i: int| 0 <= i < self.channels@.len() implies (
            #[trigger] self.channels@[i])@.pending.len() == self.marks@.len() by {
                assert(self.channel(i) == self.channels@[i]@);
            }
        }
    }

    /// `channels` channels with nothing pending, each window holding
    /// `capacity` copies of `fill`.
    pub fn new(channels: usize, capacity: usize, fill: T) -> (resync: Self)
        ensures
            resync.aligned(),
            resync.channel_count() == channels,
            resync.pending_marks() == Seq::<u8>::empty(),
            forall|i: int|
                0 <= i < channels ==> #[trigger] resync.channel(i) == (ChannelView {
                    pending: Seq::<T>::empty(),
                    last: fill,
                    window: Seq::new(capacity as nat, |k: int| fill),
                }),
    {
        let mut list: Vec<Channel<T>> = Vec::new();
        let mut i: usize = 0;
        while i < channels
            invariant
                i <= channels,
                list@.len() == i,
                forall|j: int|
                    0 <= j < i ==> (#[trigger] list@[j])@ == (ChannelView {
                        pending: Seq::<T>::empty(),
                        last: fill,
                        window: Seq::new(capacity as nat, |k: int| fill),
                    }),
            decreases channels - i,
        {
            list.push(Channel::new(capacity, fill));
            i += 1;
        }
        Resynchronizer { channels: list, marks: PreBuffer::new() }
    }

    /// Number of channels.
    pub fn channels(&self) -> (n: usize)
        ensures
            n == self.channel_count(),
    {
        self.channels.len()
    }

    /// Takes in the samples of one frame, one per channel, and its event
    /// mark. A frame with another number of samples is refused and leaves
    /// everything as it was.
    pub fn ingest(&mut self, samples: &Vec<T>, mark: u8) -> (taken: Result<(), NapseError>)
        ensures
            old(self).aligned() ==> final(self).aligned(),
            final(self).channel_count() == old(self).channel_count(),
            taken is Ok <==> samples@.len() == old(self).channel_count(),
            taken matches Err(e) ==> e == NapseError::FailedToReadAllChannels && *final(self)
                == *old(self),
            taken is Ok ==> final(self).pending_marks() == old(self).pending_marks().push(mark),
            taken is Ok ==> forall|i: int|
                0 <= i < old(self).channel_count() ==> #[trigger] final(self).channel(i)
                    == old(self).channel(i).offered(samples@[i]),
    {
        let n: usize = self.channels.len();
        if samples.len() != n {
            return Err(NapseError::FailedToReadAllChannels);
        }
        let mut i: usize = 0;
        while i < n
            invariant
                i <= n,
                n == samples@.len(),
                self.channels@.len() == n,
                old(self).channels@.len() == n,
                self.marks == old(self).marks,
                forall|j: int|
                    0 <= j < i ==> (#[trigger] self.channels@[j])@
                        == old(self).channels@[j]@.offered(samples@[j]),
                forall|j: int|
                    i <= j < n ==> #[trigger] self.channels@[j] == old(self).channels@[j],
            decreases n - i,
        {
            self.channels[i].offer(samples[i]);
            i += 1;
        }
        self.marks.push(mark);
        proof {
            old(self).lemma_aligned();
            self.lemma_aligned();
        }
        Ok(())
    }

    /// First half of a tick: takes the input of every channel and the mark
    /// that arrived with the oldest pending frame.
    pub fn select(&mut self) -> (tick: Tick<T>)
        ensures
            old(self).aligned() ==> final(self).aligned(),
            final(self).channel_count() == old(self).channel_count(),
            tick.inputs@.len() == old(self).channel_count(),
            forall|i: int|
                0 <= i < old(self).channel_count() ==> #[trigger] tick.inputs@[i]
                    == old(self).channel(i).chosen(),
            forall|i: int|
                0 <= i < old(self).channel_count() ==> #[trigger] final(self).channel(i)
                    == old(self).channel(i).selected(),
            tick.mark == chosen_mark(old(self).pending_marks()),
            final(self).pending_marks() == marks_after(old(self).pending_marks()),
    {
        let n: usize = self.channels.len();
        let mut inputs: Vec<T> = Vec::new();
        let mut i: usize = 0;
        while i < n
            invariant
                i <= n,
                self.channels@.len() == n,
                old(self).channels@.len() == n,
                self.marks == old(self).marks,
                inputs@.len() == i,
                forall|j: int|
                    0 <= j < i ==> #[trigger] inputs@[j] == old(self).channels@[j]@.chosen(),
                forall|j: int|
                    0 <= j < i ==> (#[trigger] self.channels@[j])@
                        == old(self).channels@[j]@.selected(),
                forall|j: int|
                    i <= j < n ==> #[trigger] self.channels@[j] == old(self).channels@[j],
            decreases n - i,
        {
            let input: T = self.channels[i].select();
            inputs.push(input);
            i += 1;
        }
        let mark: u8 = match self.marks.pop() {
            Some(m) => m,
            None => 0,
        };
        proof {
            old(self).lemma_aligned();
            self.lemma_aligned();
        }
        Tick { inputs, mark }
    }

    /// Second half of a tick: emits one filtered value per channel into the
    /// rolling windows. A list with another number of values is refused and
    /// leaves everything as it was.
    pub fn commit(&mut self, outputs: &Vec<T>) -> (done: Result<(), NapseError>)
        ensures
            old(self).aligned() ==> final(self).aligned(),
            final(self).channel_count() == old(self).channel_count(),
            done is Ok <==> outputs@.len() == old(self).channel_count(),
            done matches Err(e) ==> e == NapseError::FailedToReadAllChannels && *final(self)
                == *old(self),
            final(self).pending_marks() == old(self).pending_marks(),
            done is Ok ==> forall|i: int|
                0 <= i < old(self).channel_count() ==> #[trigger] final(self).channel(i)
                    == old(self).channel(i).committed(outputs@[i]),
    {
        let n: usize = self.channels.len();
        if outputs.len() != n {
            return Err(NapseError::FailedToReadAllChannels);
        }
        let mut i: usize = 0;
        while i < n
            invariant
                i <= n,
                n == outputs@.len(),
                self.channels@.len() == n,
                old(self).channels@.len() == n,
                self.marks == old(self).marks,
                forall|j: int|
                    0 <= j < i ==> (#[trigger] self.channels@[j])@
                        == old(self).channels@[j]@.committed(outputs@[j]),
                forall|j: int|
                    i <= j < n ==> #[trigger] self.channels@[j] == old(self).channels@[j],
            decreases n - i,
        {
            self.channels[i].commit(outputs[i]);
            i += 1;
        }
        proof {
            old(self).lemma_aligned();
            self.lemma_aligned();
        }
        Ok(())
    }

    /// A copy of the rolling window of channel `i`, oldest first; `None`
    /// where there is no such channel.
    pub fn window(&self, i: usize) -> (values: Option<Vec<T>>)
        ensures
            values is Some <==> i < self.channel_count(),
            values matches Some(v) ==> v@ == self.channel(i as int).window,
    {
        if i < self.channels.len() {
            Some(self.channels[i].window())
        } else {
            None
        }
    }

    /// Copies of the rolling windows of all channels, taken at one moment.
    pub fn windows(&self) -> (all: Vec<Vec<T>>)
        ensures
            all@.len() == self.channel_count(),
            forall|i: int|
                0 <= i < self.channel_count() ==> (#[trigger] all@[i])@ == self.channel(i).window,
    {
        let n: usize = self.channels.len();
        let mut all: Vec<Vec<T>> = Vec::new();
        let mut i: usize = 0;
        while i < n
            invariant
                i <= n,
                n == self.channels@.len(),
                all@.len() == i,
                forall|j: int| 0 <= j < i ==> (#[trigger] all@[j])@ == self.channels@[j]@.window,
            decreases n - i,
        {
            all.push(self.channels[i].window());
            i += 1;
        }
        all
    }

    /// Number of values of channel `i` that wait for their tick; 0 where
    /// there is no such channel.
    pub fn backlog(&self, i: usize) -> (len: usize)
        ensures
            len == if i < self.channel_count() {
                self.channel(i as int).pending.len()
            } else {
                0
            },
    {
        if i < self.channels.len() {
            self.channels[i].backlog()
        } else {
            0
        }
    }
}

/// What the consumer does between two ticks.
#[derive(Clone, Copy, Debug, PartialEq, Eq, Structural)]
pub enum Pacing {
    /// The tick ended early: wait this many nanoseconds.
    Wait(u64),
    /// The tick overran its period: go on at once and give notice. No tick
    /// is skipped to catch up.
    Desync,
}

/// The period between two ticks in nanoseconds, one second over the
/// sampling rate; `None` for a rate of zero, which has no period.
pub fn tick_period_nanos(sampling_rate: u32) -> (period: Option<u64>)
    ensures
        period == if sampling_rate == 0 {
            None
        } else {
            Some((1_000_000_000int / sampling_rate as int) as u64)
        },
{
    if sampling_rate == 0 {
        None
    } else {
        Some(1_000_000_000u64 / (sampling_rate as u64))
    }
}

/// Decides what follows a tick that took `elapsed` nanoseconds of a period
/// of `period` nanoseconds.
pub fn pace(elapsed: u64, period: u64) -> (pacing: Pacing)
    ensures
        pacing == if elapsed < period {
            Pacing::Wait((period - elapsed) as u64)
        } else {
            Pacing::Desync
        },
{
    if elapsed < period {
        Pacing::Wait(period - elapsed)
    } else {
        Pacing::Desync
    }
}

/// The notice given when a tick overran its period.
pub fn desync_notice() -> (text: &'static str)
    ensures
        text@ == "Buffer out of sync"@,
{
    "Buffer out of sync"
}

} // verus!
