//! Recording sessions: the rows captured between a start and a stop.
//!
//! A session is kept row by row, one row per tick, so that its columns
//! (one of values and one of health flags per channel, and one of marks)
//! always have the same length.

use vstd::prelude::*;
use crate::copy::copy_of;

verus! {

/// What one tick adds to a session.
pub struct Row<T> {
    /// Filtered value of each channel.
    pub values: Vec<T>,
    /// Health flag of each channel, `true` for healthy.
    pub status: Vec<bool>,
    /// Event mark, 0 for none.
    pub mark: u8,
}

/// A row as contracts see it.
pub struct RowView<T> {
    pub values: Seq<T>,
    pub status: Seq<bool>,
    pub mark: u8,
}

impl<T> RowView<T> {
    /// The row has one value and one flag for each of `channels` channels.
    pub open spec fn fits(self, channels: nat) -> bool {
        self.values.len() == channels && self.status.len() == channels
    }
}

impl<T> View for Row<T> {
    type V = RowView<T>;

    open spec fn view(&self) -> RowView<T> {
        RowView { values: self.values@, status: self.status@, mark: self.mark }
    }
}

/// The column of values of channel `i`, first tick first.
pub open spec fn value_column<T>(rows: Seq<RowView<T>>, i: int) -> Seq<T> {
    Seq::new(rows.len(), |j: int| rows[j].values[i])
}

/// The column of health flags of channel `i`, first tick first.
pub open spec fn status_column<T>(rows: Seq<RowView<T>>, i: int) -> Seq<bool> {
    Seq::new(rows.len(), |j: int| rows[j].status[i])
}

/// The column of event marks, first tick first.
pub open spec fn mark_column<T>(rows: Seq<RowView<T>>) -> Seq<u8> {
    Seq::new(rows.len(), |j: int| rows[j].mark)
}

/// A recorder as contracts see it.
pub struct RecorderView<T> {
    /// Whether a session is being captured.
    pub recording: bool,
    /// Number of channels of every row.
    pub channels: nat,
    /// The rows captured so far in the current session.
    pub rows: Seq<RowView<T>>,
}

impl<T> RecorderView<T> {
    /// After a start trigger: an idle recorder begins an empty session, a
    /// recording one goes on with its session.
    pub open spec fn started(self) -> Self {
        if self.recording {
            self
        } else {
            RecorderView { recording: true, rows: Seq::empty(), ..self }
        }
    }

    /// After a tick that emitted `row`: a recording recorder appends a row
    /// that fits; an idle one, and a row that does not fit, change nothing.
    pub open spec fn ticked(self, row: RowView<T>) -> Self {
        if self.recording && row.fits(self.channels) {
            RecorderView { rows: self.rows.push(row), ..self }
        } else {
            self
        }
    }

    /// After the ticks that emitted `rows`, first to last.
    pub open spec fn ticked_all(self, rows: Seq<RowView<T>>) -> Self
        decreases rows.len(),
    {
        if rows.len() == 0 {
            self
        } else {
            self.ticked(rows[0]).ticked_all(rows.drop_first())
        }
    }

    /// After a stop trigger: idle, with nothing kept.
    pub open spec fn stopped(self) -> Self {
        RecorderView { recording: false, rows: Seq::empty(), ..self }
    }

    /// What a stop trigger hands out for export: the session, where one was
    /// being captured and a destination was confirmed.
    pub open spec fn flushed(self, confirmed: bool) -> Option<Seq<RowView<T>>> {
        if self.recording && confirmed {
            Some(self.rows)
        } else {
            None
        }
    }
}

/// What a press of the record button asks for.
#[derive(Clone, Copy, Debug, PartialEq, Eq, Structural)]
pub enum Trigger {
    /// Begin a session.
    Start,
    /// End the session.
    Stop,
    /// Nothing: no session is being captured and no amplifier is connected.
    Ignore,
}

/// The views of a list of rows.
pub open spec fn row_views<T>(rows: Seq<Row<T>>) -> Seq<RowView<T>> {
    Seq::new(rows.len(), |j: int| rows[j]@)
}

/// Captures sessions. It is idle at first; a start trigger begins a
/// session, a stop trigger ends it.
pub struct Recorder<T> {
    recording: bool,
    channels: usize,
    rows: Vec<Row<T>>,
}

impl<T> View for Recorder<T> {
    type V = RecorderView<T>;

    closed spec fn view(&self) -> RecorderView<T> {
        RecorderView {
            recording: self.recording,
            channels: self.channels as nat,
            rows: row_views(self.rows@),
        }
    }
}

impl<T> RecorderView<T> {
    /// Every row of the session has one value and one flag per channel, so
    /// that all columns have the same length.
    pub open spec fn wf(self) -> bool {
        forall|j: int| 0 <= j < self.rows.len() ==> (#[trigger] self.rows[j]).fits(self.channels)
    }
}

impl<T: Copy> Recorder<T> {
    /// An idle recorder for `channels` channels.
    pub fn new(channels: usize) -> (recorder: Self)
        ensures
            recorder@.wf(),
            recorder@ == (RecorderView {
                recording: false,
                channels: channels as nat,
                rows: Seq::<RowView<T>>::empty(),
            }),
    {
        let recorder = Recorder { recording: false, channels, rows: Vec::new() };
        assert(recorder@.rows =~= Seq::<RowView<T>>::empty());
        recorder
    }

    /// Whether a session is being captured.
    pub fn is_recording(&self) -> (recording: bool)
        ensures
            recording == self@.recording,
    {
        self.recording
    }

    /// Number of rows captured so far, which is the length of every column.
    pub fn len(&self) -> (len: usize)
        ensures
            len == self@.rows.len(),
            forall|i: int| value_column(self@.rows, i).len() == len,
            forall|i: int| status_column(self@.rows, i).len() == len,
            mark_column(self@.rows).len() == len,
    {
        self.rows.len()
    }

    /// What a press of the record button asks for: to stop while a session
    /// is being captured, to start while idle and connected, else nothing.
    pub fn on_button(&self, connected: bool) -> (trigger: Trigger)
        ensures
            trigger == if self@.recording {
                Trigger::Stop
            } else if connected {
                Trigger::Start
            } else {
                Trigger::Ignore
            },
    {
        if self.recording {
            Trigger::Stop
        } else if connected {
            Trigger::Start
        } else {
            Trigger::Ignore
        }
    }

    /// Start trigger. Returns whether a session began.
    pub fn start(&mut self) -> (began: bool)
        requires
            old(self)@.wf(),
        ensures
            final(self)@.wf(),
            final(self)@ == old(self)@.started(),
            began == !old(self)@.recording,
    {
        if self.recording {
            false
        } else {
            self.rows = Vec::new();
            self.recording = true;
            assert(self@.rows =~= Seq::<RowView<T>>::empty());
            true
        }
    }

    /// One tick: appends the filtered values, the health flags and the mark
    /// as a row while a session is being captured. Returns whether the row
    /// was appended.
    pub fn tick(&mut self, values: &Vec<T>, status: &Vec<bool>, mark: u8) -> (appended: bool)
        requires
            old(self)@.wf(),
        ensures
            final(self)@.wf(),
            final(self)@ == old(self)@.ticked(
                RowView { values: values@, status: status@, mark },
            ),
            appended == (old(self)@.recording && values@.len() == old(self)@.channels
                && status@.len() == old(self)@.channels),
    {
        if self.recording && values.len() == self.channels && status.len() == self.channels {
            let row = Row { values: copy_of(values), status: copy_of(status), mark };
            self.rows.push(row);
            assert(self@.rows =~= old(self)@.rows.push(
                RowView { values: values@, status: status@, mark },
            ));
            true
        } else {
            false
        }
    }

    /// Stop trigger. The recorder becomes idle. The session is handed out
    /// for export where one was being captured and `confirmed` says that a
    /// destination was chosen; otherwise it is dropped.
    pub fn stop(&mut self, confirmed: bool) -> (session: Option<Vec<Row<T>>>)
        requires
            old(self)@.wf(),
        ensures
            final(self)@.wf(),
            final(self)@ == old(self)@.stopped(),
            session is Some <==> old(self)@.recording && confirmed,
            session matches Some(rows) ==> row_views(rows@) == old(self)@.rows && forall|j: int|
                0 <= j < rows@.len() ==> (#[trigger] rows@[j])@.fits(old(self)@.channels),
    {
        let was_recording: bool = self.recording;
        let mut rows: Vec<Row<T>> = Vec::new();
        core::mem::swap(&mut self.rows, &mut rows);
        self.recording = false;
        assert(self@.rows =~= Seq::<RowView<T>>::empty());
        assert forall|j: int| 0 <= j < rows@.len() implies (#[trigger] rows@[j])@.fits(
            old(self)@.channels,
        ) by {
            assert(rows@[j]@ == old(self)@.rows[j]);
        }
        if was_recording && confirmed {
            Some(rows)
        } else {
            None
        }
    }
}

/// A session begun from idle holds exactly the rows of the ticks since its
/// start: after `rows.len()` ticks every column has that length, and the
/// columns hold the values, flags and marks of those ticks in order.
pub proof fn lemma_session_holds_ticks<T>(idle: RecorderView<T>, rows: Seq<RowView<T>>)
    requires
        !idle.recording,
        forall|j: int| 0 <= j < rows.len() ==> (#[trigger] rows[j]).fits(idle.channels),
    ensures
        idle.started().rows.len() == 0,
        idle.started().ticked_all(rows).recording,
        idle.started().ticked_all(rows).rows == rows,
        forall|i: int| value_column(idle.started().ticked_all(rows).rows, i).len() == rows.len(),
        forall|i: int| status_column(idle.started().ticked_all(rows).rows, i).len() == rows.len(),
        mark_column(idle.started().ticked_all(rows).rows).len() == rows.len(),
{
    lemma_ticks_append(idle.started(), rows);
    assert(Seq::<RowView<T>>::empty() + rows =~= rows);
}

/// While recording, ticks whose rows fit append those rows in order.
pub proof fn lemma_ticks_append<T>(s: RecorderView<T>, rows: Seq<RowView<T>>)
    requires
        s.recording,
        forall|j: int| 0 <= j < rows.len() ==> (#[trigger] rows[j]).fits(s.channels),
    ensures
        s.ticked_all(rows) == (RecorderView { rows: s.rows + rows, ..s }),
    decreases rows.len(),
{
    if rows.len() == 0 {
        assert(s.rows + rows =~= s.rows);
    } else {
        let next = s.ticked(rows[0]);
        let rest = rows.drop_first();
        assert(rows[0].fits(s.channels));
        assert forall|j: int| 0 <= j < rest.len() implies (#[trigger] rest[j]).fits(
            next.channels,
        ) by {
            assert(rest[j] == rows[j + 1]);
        }
        lemma_ticks_append(next, rest);
        assert(next.rows + rest =~= s.rows + rows);
    }
}

/// An idle recorder ignores ticks, and a stop without a confirmed
/// destination hands nothing out.
pub proof fn lemma_idle_and_unconfirmed<T>(s: RecorderView<T>, row: RowView<T>)
    ensures
        !s.recording ==> s.ticked(row) == s,
        s.flushed(false) is None,
        !s.stopped().recording,
        s.stopped().rows.len() == 0,
{
}

/// While a session is captured, every tick adds exactly one row: after
/// a tick that was accepted all columns are one longer than before.
pub proof fn lemma_tick_adds_one_row<T>(
    before: RecorderView<T>,
    row: RowView<T>,
)
    requires
        before.recording,
        row.fits(before.channels),
    ensures
        before.ticked(row).rows.len() == before.rows.len() + 1,
        before.ticked(row).rows.last() == row,
        before.wf() ==> before.ticked(row).wf(),
{
}

} // verus!
