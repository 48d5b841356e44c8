//! The queue of a Safe's transactions that wait for signatures.

use vstd::prelude::*;

use crate::home::PendingSafeTx;
use crate::identity::IdentityModel;
use crate::types::{Address, Chain};

verus! {

/// The queue of the Safe on screen.
#[derive(Debug)]
pub struct SafeQueue {
    pub pending: Vec<PendingSafeTx>,
    /// The queue was asked for and has not come yet.
    pub loading: bool,
    /// Why it did not come the last time.
    pub error: Option<String>,
}

/// What a `SafeQueue` holds.
pub struct QueueModel {
    pub pending: Seq<PendingSafeTx>,
    pub loading: bool,
    pub error: Option<String>,
}

impl View for SafeQueue {
    type V = QueueModel;

    open spec fn view(&self) -> QueueModel {
        QueueModel { pending: self.pending@, loading: self.loading, error: self.error }
    }
}

impl IdentityModel {
    /// Whether the given Safe on the given chain is the one on screen.
    pub open spec fn shows_safe(self, safe: Address, chain: Chain) -> bool {
        self.safe() matches Some(s) && s.address == safe && s.chain_id == chain.id()
    }
}

impl QueueModel {
    /// An empty queue.
    pub open spec fn empty() -> QueueModel {
        QueueModel { pending: Seq::empty(), loading: false, error: None }
    }

    /// While the queue is asked for, or is not.
    pub open spec fn asked(self, launched: bool) -> QueueModel {
        QueueModel { loading: launched, ..self }
    }

    /// After the queue of the Safe on screen came, or failed to.
    pub open spec fn fetched(self, result: Result<Seq<PendingSafeTx>, String>) -> QueueModel {
        match result {
            Ok(p) => QueueModel { pending: p, loading: false, error: None },
            Err(e) => QueueModel { loading: false, error: Some(e), ..self },
        }
    }
}

impl SafeQueue {
    /// An empty queue.
    pub fn new() -> (r: SafeQueue)
        ensures
            r@ == QueueModel::empty(),
    {
        SafeQueue { pending: Vec::new(), loading: false, error: None }
    }

    /// Whether the queue is being asked for: it is only then that an answer comes
    /// and ends the wait.
    pub fn ask(&mut self, launched: bool)
        ensures
            final(self)@ == old(self)@.asked(launched),
    {
        self.loading = launched;
    }

    /// Another identity came on screen.
    pub fn clear(&mut self)
        ensures
            final(self)@ == QueueModel::empty(),
    {
        self.pending = Vec::new();
        self.loading = false;
        self.error = None;
    }

    /// The queue of the Safe on screen came, or failed to. What was there stays
    /// where it failed.
    pub fn fetch_done(&mut self, result: Result<Vec<PendingSafeTx>, String>)
        ensures
            final(self)@ == old(self)@.fetched(
                match result {
                    Ok(v) => Ok(v@),
                    Err(e) => Err(e),
                },
            ),
    {
        self.loading = false;
        match result {
            Ok(p) => {
                self.pending = p;
                self.error = None;
            },
            Err(e) => {
                self.error = Some(e);
            },
        }
    }
}

} // verus!
