//! The opening and closing transitions of the dashboard's one modal.
//!
//! Times are readings of a monotonic clock in milliseconds.

use vstd::prelude::*;

verus! {

/// How long opening takes.
pub const OPEN_MS: u64 = 220;

/// How long closing takes.
pub const CLOSE_MS: u64 = 220;

/// The transition of the modal.
#[derive(Debug)]
pub struct ModalChrome {
    /// When the running transition began.
    pub start: u64,
    pub closing: bool,
    pub open: bool,
}

/// The time from `start` to `now`; none where `now` is earlier.
pub open spec fn elapsed(start: u64, now: u64) -> nat {
    if now >= start {
        (now - start) as nat
    } else {
        0
    }
}

impl ModalChrome {
    /// A modal closes only where one is open.
    pub open spec fn wf(self) -> bool {
        self.closing ==> self.open
    }

    /// Frames are still needed.
    pub open spec fn animating(self, now: u64) -> bool {
        self.open && (self.closing || elapsed(self.start, now) < OPEN_MS)
    }

    /// The modal has finished closing.
    pub open spec fn settles(self, now: u64) -> bool {
        self.closing && elapsed(self.start, now) >= CLOSE_MS
    }

    /// The state once closing was started.
    pub open spec fn close_started(self, now: u64) -> ModalChrome {
        if self.open && !self.closing {
            ModalChrome { start: now, closing: true, open: true }
        } else {
            self
        }
    }

    /// The state after a frame.
    pub open spec fn ticked(self, now: u64) -> ModalChrome {
        if self.settles(now) {
            ModalChrome { start: self.start, closing: false, open: false }
        } else {
            self
        }
    }

    /// No modal.
    pub fn new(now: u64) -> (r: ModalChrome)
        ensures
            r == (ModalChrome { start: now, closing: false, open: false }),
            r.wf(),
    {
        ModalChrome { start: now, closing: false, open: false }
    }

    /// A fresh modal opens, whatever went on before.
    pub fn open(&mut self, now: u64)
        ensures
            *final(self) == (ModalChrome { start: now, closing: false, open: true }),
            final(self).wf(),
    {
        self.start = now;
        self.closing = false;
        self.open = true;
    }

    /// The modal starts to close. Nothing happens where none is open, or where
    /// it is closing already.
    pub fn start_close(&mut self, now: u64)
        ensures
            *final(self) == old(self).close_started(now),
            old(self).wf() ==> final(self).wf(),
    {
        if !self.open || self.closing {
            return;
        }
        self.closing = true;
        self.start = now;
    }

    /// The time that the running transition has taken.
    pub fn elapsed_ms(&self, now: u64) -> (r: u64)
        ensures
            r == elapsed(self.start, now),
    {
        now.saturating_sub(self.start)
    }

    /// Whether frames are still needed: until the modal is open, and all the way
    /// through closing, so that the closing can be finished.
    pub fn is_animating(&self, now: u64) -> (b: bool)
        ensures
            b == self.animating(now),
    {
        if !self.open {
            return false;
        }
        if self.closing {
            return true;
        }
        self.elapsed_ms(now) < OPEN_MS
    }

    /// A frame: once closing has taken its time the modal is gone, and this is
    /// told.
    pub fn tick_settled(&mut self, now: u64) -> (b: bool)
        ensures
            b == old(self).settles(now),
            *final(self) == old(self).ticked(now),
            old(self).wf() ==> final(self).wf(),
    {
        if self.closing && self.elapsed_ms(now) >= CLOSE_MS {
            self.closing = false;
            self.open = false;
            return true;
        }
        false
    }
}

/// A modal that is closing keeps asking for frames, and the frame that comes
/// once its time is over makes it go.
pub proof fn law_closing_ends(c: ModalChrome, now: u64)
    requires
        c.wf(),
        c.closing,
    ensures
        c.animating(now),
        now >= c.start + CLOSE_MS ==> c.settles(now) && !c.ticked(now).open && !c.ticked(
            now,
        ).animating(now),
{
}

/// Closing twice is closing once: the second request does not restart it.
pub proof fn law_close_once(c: ModalChrome, t0: u64, t1: u64)
    ensures
        c.close_started(t0).close_started(t1) == c.close_started(t0),
{
}

} // verus!
