//! What the wallet has copied is cleared from the clipboard after a while, unless
//! the user has copied something else since.

use vstd::prelude::*;

use crate::text::{dec, decimal, join3, same_text};

verus! {

/// How long a copied text stays on the clipboard, in seconds.
pub const CLIPBOARD_CLEAR_SECS: u64 = 10;

/// A text that is to be cleared.
#[derive(Debug)]
pub struct ClipboardClearState {
    /// What the wallet wrote.
    pub expected: String,
    /// When it is to be cleared, in milliseconds.
    pub deadline: u64,
    /// Which copy this is.
    pub generation: u64,
}

/// The clearing of the clipboard.
#[derive(Debug)]
pub struct Clipboard {
    pub clear: Option<ClipboardClearState>,
    /// Counts the copies; it wraps around.
    pub generation: u64,
}

/// The number of the copy after the given one.
pub open spec fn next_copy(g: u64) -> u64 {
    if g == u64::MAX {
        0
    } else {
        (g + 1) as u64
    }
}

/// When a text that is copied now is to be cleared.
pub open spec fn clear_at(now: u64) -> u64 {
    if now > u64::MAX - CLIPBOARD_CLEAR_SECS * 1000 {
        u64::MAX
    } else {
        (now + CLIPBOARD_CLEAR_SECS * 1000) as u64
    }
}

impl Clipboard {
    /// Nothing was copied yet.
    pub fn new() -> (r: Clipboard)
        ensures
            r == (Clipboard { clear: None, generation: 0 }),
    {
        Clipboard { clear: None, generation: 0 }
    }

    /// After a text was copied.
    pub open spec fn armed(self, text: String, now: u64) -> Clipboard {
        Clipboard {
            clear: Some(
                ClipboardClearState {
                    expected: text,
                    deadline: clear_at(now),
                    generation: next_copy(self.generation),
                },
            ),
            generation: next_copy(self.generation),
        }
    }

    /// Whether the copy that is to be cleared is the given one.
    pub open spec fn awaits(self, generation: u64) -> bool {
        self.clear matches Some(s) && s.generation == generation
    }

    /// After the clipboard was read for the given copy.
    pub open spec fn probed(self, generation: u64) -> Clipboard {
        if self.awaits(generation) {
            Clipboard { clear: None, ..self }
        } else {
            self
        }
    }

    /// Whether the clipboard still holds the given copy.
    pub open spec fn owns(self, generation: u64, actual: Option<String>) -> bool {
        self.awaits(generation) && (actual matches Some(a) && a@ == self.clear->0.expected@)
    }

    /// A text was copied: it is to be cleared. Returns the number of the copy, for
    /// the timer.
    pub fn arm_clipboard_clear(&mut self, text: String, now: u64) -> (r: u64)
        ensures
            *final(self) == old(self).armed(text, now),
            r == next_copy(old(self).generation),
    {
        self.generation = if self.generation == u64::MAX {
            0
        } else {
            self.generation + 1
        };
        let wait: u64 = CLIPBOARD_CLEAR_SECS * 1000;
        let deadline: u64 = if now > u64::MAX - wait {
            u64::MAX
        } else {
            now + wait
        };
        self.clear = Some(
            ClipboardClearState { expected: text, deadline, generation: self.generation },
        );
        self.generation
    }

    /// The timer of a copy has run out: tells whether the clipboard is to be read
    /// now. A later copy makes the timer void.
    pub fn timer_ran_out(&self, generation: u64) -> (b: bool)
        ensures
            b == self.awaits(generation),
    {
        match &self.clear {
            Some(s) => s.generation == generation,
            None => false,
        }
    }

    /// The clipboard was read: tells whether it is to be cleared, which is where it
    /// still holds what the wallet wrote.
    pub fn clipboard_read(&mut self, generation: u64, actual: Option<String>) -> (b: bool)
        ensures
            *final(self) == old(self).probed(generation),
            b == old(self).owns(generation, actual),
    {
        let ours = match &self.clear {
            Some(s) => {
                if s.generation != generation {
                    return false;
                }
                match &actual {
                    Some(a) => same_text(a.as_str(), s.expected.as_str()),
                    None => false,
                }
            },
            None => {
                return false;
            },
        };
        self.clear = None;
        ours
    }
}

/// How many seconds are left, counting a started second as a whole one.
pub open spec fn seconds_left(deadline: u64, now: u64) -> nat {
    if deadline <= now {
        0
    } else {
        ((deadline - now + 999) / 1000) as nat
    }
}

/// The countdown that is shown while a text is to be cleared.
pub fn clipboard_clear_chip(state: &ClipboardClearState, now: u64) -> (r: String)
    ensures
        r@ == "autoclear in "@ + dec(seconds_left(state.deadline, now)) + "…"@,
{
    let left: u64 = if state.deadline <= now {
        0
    } else {
        let ms: u64 = state.deadline - now;
        let whole: u64 = ms / 1000;
        if ms % 1000 > 0 {
            whole + 1
        } else {
            whole
        }
    };
    let n = decimal(left);
    join3("autoclear in ", n.as_str(), "…")
}

// ── laws ────────────────────────────────────────────────────────────────────

/// The clipboard is cleared only where it holds what the wallet wrote last; what
/// the user has copied since is left alone.
pub proof fn law_only_own_text_is_cleared(c: Clipboard, generation: u64, actual: Option<String>)
    ensures
        c.owns(generation, actual) ==> {
            &&& c.clear is Some
            &&& actual is Some
            &&& actual->0@ == c.clear->0.expected@
            &&& c.clear->0.generation == generation
        },
{
}

/// A fresh copy voids the timers of the one before it.
pub proof fn law_fresh_copies_void_older_timers(
    c: Clipboard,
    text: String,
    now: u64,
    actual: Option<String>,
)
    ensures
        !c.armed(text, now).awaits(c.generation),
        !c.armed(text, now).owns(c.generation, actual),
        c.armed(text, now).probed(c.generation) == c.armed(text, now),
        c.armed(text, now).awaits(next_copy(c.generation)),
{
}

/// A copy is cleared at most once.
pub proof fn law_a_copy_is_cleared_once(
    c: Clipboard,
    generation: u64,
    first: Option<String>,
    second: Option<String>,
)
    requires
        c.owns(generation, first),
    ensures
        !c.probed(generation).owns(generation, second),
{
}

} // verus!
