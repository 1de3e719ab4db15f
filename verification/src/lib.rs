//! Acquisition pipeline for a multi-channel biosignal amplifier: frame
//! decoding, jitter absorption and fixed-rate resynchronisation, rolling
//! windows, spectrum bands, session recording and the control commands.
//!
//! Sample values are opaque to this crate: every container is generic over
//! the value type. The numeric steps that need real arithmetic, the
//! low-pass filter of each channel and the Fourier transform of a window,
//! are functions that the caller hands in; the crate decides when they run,
//! on what, and where their results go.

pub mod copy;
pub mod pipeline;
pub mod wave;
pub mod wifi;

use vstd::prelude::*;

verus! {

/// The messages shown to the operator. Every message is kept, in the order
/// in which it was logged, both in the list of errors and in the list of
/// notifications; nothing is ever taken out.
pub struct NotificationLog {
    errors: Vec<String>,
    notifications: Vec<String>,
}

/// The texts of a list of strings.
pub open spec fn texts(strings: Seq<String>) -> Seq<Seq<char>> {
    Seq::new(strings.len(), |i: int| strings[i]@)
}

impl NotificationLog {
    /// The errors logged so far, oldest first.
    pub closed spec fn errors(&self) -> Seq<Seq<char>> {
        texts(self.errors@)
    }

    /// The notifications logged so far, oldest first.
    pub closed spec fn notifications(&self) -> Seq<Seq<char>> {
        texts(self.notifications@)
    }

    /// A log without messages.
    pub fn new() -> (log: Self)
        ensures
            log.errors() == Seq::<Seq<char>>::empty(),
            log.notifications() == Seq::<Seq<char>>::empty(),
    {
        let log = NotificationLog { errors: Vec::new(), notifications: Vec::new() };
        assert(log.errors() =~= Seq::<Seq<char>>::empty());
        assert(log.notifications() =~= Seq::<Seq<char>>::empty());
        log
    }

    /// Number of errors logged so far.
    pub fn error_count(&self) -> (n: usize)
        ensures
            n == self.errors().len(),
    {
        self.errors.len()
    }

    /// Number of notifications logged so far.
    pub fn notification_count(&self) -> (n: usize)
        ensures
            n == self.notifications().len(),
    {
        self.notifications.len()
    }

    /// The notification number `i`, counted from the oldest; `None` past
    /// the end.
    pub fn notification(&self, i: usize) -> (message: Option<String>)
        ensures
            message is Some <==> i < self.notifications().len(),
            message matches Some(text) ==> text@ == self.notifications()[i as int],
    {
        if i < self.notifications.len() {
            Some(self.notifications[i].clone())
        } else {
            None
        }
    }

    /// The most recent error, if any was logged.
    pub fn latest_error(&self) -> (message: Option<String>)
        ensures
            message is Some <==> self.errors().len() > 0,
            message matches Some(text) ==> text@ == self.errors().last(),
    {
        let n: usize = self.errors.len();
        if n == 0 {
            None
        } else {
            Some(self.errors[n - 1].clone())
        }
    }

    /// The error number `i`, counted from the oldest; `None` past the end.
    pub fn error(&self, i: usize) -> (message: Option<String>)
        ensures
            message is Some <==> i < self.errors().len(),
            message matches Some(text) ==> text@ == self.errors()[i as int],
    {
        if i < self.errors.len() {
            Some(self.errors[i].clone())
        } else {
            None
        }
    }
}

/// Appends `msg` to the errors and to the notifications of `log`.
pub fn log_err(log: &mut NotificationLog, msg: String)
    ensures
        final(log).errors() == old(log).errors().push(msg@),
        final(log).notifications() == old(log).notifications().push(msg@),
{
    let copy: String = msg.clone();
    log.errors.push(copy);
    log.notifications.push(msg);
    assert(log.errors() =~= old(log).errors().push(msg@));
    assert(log.notifications() =~= old(log).notifications().push(msg@));
}

} // verus!
