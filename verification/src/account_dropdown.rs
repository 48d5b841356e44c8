//! The account picker below the sidebar's account card.

use vstd::prelude::*;

use crate::keys::Event;
use crate::types::Chain;

verus! {

/// What happens to the picker.
#[derive(Debug, Clone, Copy)]
pub enum Message {
    Select(usize),
    SelectSafe(usize),
    Add,
    Close,
    /// A click inside the box, which must not close it.
    BoxClickIgnored,
    Key(Event),
}

/// What the picker asks of its coordinator.
#[derive(Debug, Clone, Copy, PartialEq, Eq, Structural)]
pub enum Outcome {
    Switch(usize),
    SelectSafe(usize),
    Add,
    Closed,
}

/// The account picker. It has no state of its own.
#[derive(Debug, Clone, Copy)]
pub struct AccountDropdown;

impl AccountDropdown {
    /// The picker.
    pub fn new() -> (r: AccountDropdown)
        ensures
            r == AccountDropdown,
    {
        AccountDropdown
    }

    /// Handles a message.
    pub fn update(&mut self, msg: Message) -> (r: Option<Outcome>)
        ensures
            r == match msg {
                Message::Select(i) => Some(Outcome::Switch(i)),
                Message::SelectSafe(i) => Some(Outcome::SelectSafe(i)),
                Message::Add => Some(Outcome::Add),
                Message::Close => Some(Outcome::Closed),
                Message::BoxClickIgnored => None,
                Message::Key(e) => if e.is_escape() {
                    Some(Outcome::Closed)
                } else {
                    None
                },
            },
            *final(self) == *old(self),
    {
        match msg {
            Message::Select(i) => Some(Outcome::Switch(i)),
            Message::SelectSafe(i) => Some(Outcome::SelectSafe(i)),
            Message::Add => Some(Outcome::Add),
            Message::Close => Some(Outcome::Closed),
            Message::BoxClickIgnored => None,
            Message::Key(e) => if e.escape() {
                Some(Outcome::Closed)
            } else {
                None
            },
        }
    }
}

/// The name of the chain with an id; a question mark for an unknown one.
pub open spec fn chain_name(chain_id: u64) -> Seq<char> {
    match Chain::of_id(chain_id) {
        Some(c) => c.long_name(),
        None => "?"@,
    }
}

/// The name of the chain with an id; a question mark for an unknown one.
pub fn chain_label_for_id(chain_id: u64) -> (s: &'static str)
    ensures
        s@ == chain_name(chain_id),
{
    match Chain::from_chain_id(chain_id) {
        Some(c) => c.display_name(),
        None => "?",
    }
}

/// The mark at the end of a row of the picker.
#[derive(Debug, Clone, Copy, PartialEq, Eq, Structural)]
pub enum Mark {
    /// The active one.
    Active,
    /// One that can be picked.
    Idle,
    /// One that cannot.
    Absent,
}

/// The account with index `i` is the active one. While a Safe is active no
/// account is.
pub open spec fn account_active(i: usize, active_index: usize, active_safe: Option<usize>) -> bool {
    active_safe is None && i == active_index
}

/// The Safe with index `i` is the active one; one that is only watched never
/// is.
pub open spec fn safe_active(i: usize, linked: usize, active_safe: Option<usize>) -> bool {
    linked > 0 && active_safe == Some(i)
}

/// The mark of the account with index `i`.
pub fn account_mark(i: usize, active_index: usize, active_safe: Option<usize>) -> (m: Mark)
    ensures
        m == if account_active(i, active_index, active_safe) {
            Mark::Active
        } else {
            Mark::Idle
        },
{
    if active_safe.is_none() && i == active_index {
        Mark::Active
    } else {
        Mark::Idle
    }
}

/// A row for a Safe.
#[derive(Debug)]
pub struct SafeRow {
    pub badge: &'static str,
    pub chain: &'static str,
    pub kaomoji: &'static str,
    pub mark: Mark,
    /// What a click on the row does; a Safe that is only watched does nothing.
    pub on_press: Option<Message>,
}

/// The row of the Safe with index `i`. A Safe without a linked signer is only
/// watched: it can be neither picked nor active.
pub fn safe_row(i: usize, chain_id: u64, linked: usize, active_safe: Option<usize>) -> (r: SafeRow)
    ensures
        r.chain@ == chain_name(chain_id),
        linked == 0 ==> {
            &&& r.badge@ == "Safe (watch)"@
            &&& r.kaomoji@ == "(◐_◐)"@
            &&& r.mark == Mark::Absent
            &&& r.on_press is None
        },
        linked > 0 ==> {
            &&& r.badge@ == "Safe"@
            &&& r.kaomoji@ == "(◐‿◐)"@
            &&& r.mark == if safe_active(i, linked, active_safe) {
                Mark::Active
            } else {
                Mark::Idle
            }
            &&& r.on_press == Some(Message::SelectSafe(i))
        },
{
    let chain = chain_label_for_id(chain_id);
    if linked == 0 {
        return SafeRow {
            badge: "Safe (watch)",
            chain,
            kaomoji: "(◐_◐)",
            mark: Mark::Absent,
            on_press: None,
        };
    }
    let active = match active_safe {
        Some(j) => j == i,
        None => false,
    };
    let mark = if active {
        Mark::Active
    } else {
        Mark::Idle
    };
    SafeRow {
        badge: "Safe",
        chain,
        kaomoji: "(◐‿◐)",
        mark,
        on_press: Some(Message::SelectSafe(i)),
    }
}

/// Of all the rows at most one is marked as active.
pub proof fn law_one_active_row(
    i: usize,
    j: usize,
    linked_i: usize,
    linked_j: usize,
    active_index: usize,
    active_safe: Option<usize>,
)
    ensures
        !(account_active(i, active_index, active_safe) && safe_active(j, linked_j, active_safe)),
        account_active(i, active_index, active_safe) && account_active(j, active_index, active_safe)
            ==> i == j,
        safe_active(i, linked_i, active_safe) && safe_active(j, linked_j, active_safe) ==> i == j,
{
}

} // verus!
