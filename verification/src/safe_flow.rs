//! What is done with a Safe's transaction, step by step: preparing it for the review,
//! signing and executing it, proposing it, and what can be done with one in the queue.

use vstd::prelude::*;

use crate::safe_tx::{
    build_rejection_tx, build_safe_tx_with_nonce, queued_hash, rebuild_nonce, rebuild_pin,
    reviewed_hash, reviewed_pin, reviewed_tx, safe_call, safe_gate, signing_gate, Executor,
    SafeSendRequest, SafeTx, SafeTxModel,
};
use crate::text::join2;
use crate::types::{hash_hex, push_hash, Address, Hash32};

verus! {

/// What is to be done with a Safe's transaction.
#[derive(Debug)]
pub enum SafeJob {
    /// A send is put together for the review.
    Prepare { req: SafeSendRequest },
    /// So many owners of the wallet sign the send that was reviewed, and it is
    /// executed.
    Broadcast { req: SafeSendRequest, owners: usize, executor: Executor },
    /// One owner signs the send that was reviewed, and it is proposed to the others.
    Propose { req: SafeSendRequest },
    /// One owner signs the queued transaction with this hash.
    Confirm { shown: Hash32 },
    /// A queued transaction that has its signatures is executed, and paid for with
    /// this key.
    Execute { key: Hash32 },
    /// One owner signs a rejection at this nonce, and it is proposed to the others.
    Reject { safe: Address, nonce: u64 },
}

/// What a job waits for.
#[derive(Debug, Clone, Copy, PartialEq, Eq, Structural)]
pub enum TaskStage {
    Provider,
    /// The signer of the owner with this number.
    Owner(usize),
    Nonce,
    Hashing,
    Verification,
    /// The signature of the owner with this number.
    Signature(usize),
    Assembly,
    Executor,
    Sending,
    Posting,
    Over,
}

/// What is to be done next.
#[derive(Debug)]
pub enum TaskAction {
    /// Find an endpoint of the chain.
    FindProvider,
    /// Connect the signer of the owner with this number.
    BuildOwner(usize),
    ReadNonce,
    /// Hash the transaction.
    HashTx,
    /// Ask the Safe whether it computes this hash.
    VerifyHash(Hash32),
    /// Let the owner with this number sign the hash.
    SignOwner { owner: usize, hash: Hash32 },
    /// Put the signatures together.
    Assemble,
    /// Make a signer out of the key that pays.
    BuildExecutor(Hash32),
    Send,
    /// Hand the transaction to the service, under this name.
    PostProposal(&'static str),
    /// Hand the signature of a queued transaction to the service.
    PostConfirmation(Hash32),
    /// The send is ready for the review.
    Prepared { nonce: u64, hash: Hash32 },
    /// The transaction was sent.
    Sent(Hash32),
    /// It is done; the text says what.
    Done(String),
    Failed(String),
    Nothing,
}

/// What a `TaskAction` holds.
pub enum TaskAct {
    FindProvider,
    BuildOwner(usize),
    ReadNonce,
    HashTx,
    VerifyHash(Hash32),
    SignOwner { owner: usize, hash: Hash32 },
    Assemble,
    BuildExecutor(Hash32),
    Send,
    PostProposal(Seq<char>),
    PostConfirmation(Hash32),
    Prepared { nonce: u64, hash: Hash32 },
    Sent(Hash32),
    Done(Seq<char>),
    Failed(Seq<char>),
    Nothing,
}

impl View for TaskAction {
    type V = TaskAct;

    open spec fn view(&self) -> TaskAct {
        match *self {
            TaskAction::FindProvider => TaskAct::FindProvider,
            TaskAction::BuildOwner(i) => TaskAct::BuildOwner(i),
            TaskAction::ReadNonce => TaskAct::ReadNonce,
            TaskAction::HashTx => TaskAct::HashTx,
            TaskAction::VerifyHash(h) => TaskAct::VerifyHash(h),
            TaskAction::SignOwner { owner, hash } => TaskAct::SignOwner { owner, hash },
            TaskAction::Assemble => TaskAct::Assemble,
            TaskAction::BuildExecutor(k) => TaskAct::BuildExecutor(k),
            TaskAction::Send => TaskAct::Send,
            TaskAction::PostProposal(t) => TaskAct::PostProposal(t@),
            TaskAction::PostConfirmation(h) => TaskAct::PostConfirmation(h),
            TaskAction::Prepared { nonce, hash } => TaskAct::Prepared { nonce, hash },
            TaskAction::Sent(h) => TaskAct::Sent(h),
            TaskAction::Done(t) => TaskAct::Done(t@),
            TaskAction::Failed(t) => TaskAct::Failed(t@),
            TaskAction::Nothing => TaskAct::Nothing,
        }
    }
}

/// What came back.
#[derive(Debug)]
pub enum TaskEvent {
    /// Whether the chain has an endpoint.
    Provider(bool),
    /// A signer was made, of an owner or of the key that pays.
    Built(Result<(), String>),
    Nonce(Result<u64, String>),
    Hashed(Hash32),
    Verified(Result<(), String>),
    Signed(Result<(), String>),
    Assembled(Result<(), String>),
    Sent(Result<Hash32, String>),
    Posted(Result<(), String>),
}

/// A job under way.
#[derive(Debug)]
pub struct SafeTask {
    pub job: SafeJob,
    pub stage: TaskStage,
    /// The transaction, once it is put together; a queued one is not put together
    /// here.
    pub tx: Option<SafeTx>,
    /// The hash that owners sign, once it is known.
    pub hash: Option<Hash32>,
}

/// What a `SafeTask` holds.
pub struct TaskModel {
    pub job: SafeJob,
    pub stage: TaskStage,
    pub tx: Option<SafeTxModel>,
    pub hash: Option<Hash32>,
}

impl View for SafeTask {
    type V = TaskModel;

    open spec fn view(&self) -> TaskModel {
        TaskModel {
            job: self.job,
            stage: self.stage,
            tx: match self.tx {
                Some(t) => Some(t@),
                None => None,
            },
            hash: self.hash,
        }
    }
}

/// What comes of an event.
pub struct TaskStep {
    pub state: TaskModel,
    pub act: TaskAct,
}

/// What is said where the owners do not suffice.
pub open spec fn too_few_owners() -> Seq<char> {
    "not enough signable owners to meet the Safe threshold"@
}

/// What is said once a transaction was executed.
pub open spec fn executed_text(h: Hash32) -> Seq<char> {
    "Executed · "@ + hash_hex(h)
}

impl SafeJob {
    /// How many owners sign.
    pub open spec fn signers(self) -> nat {
        match self {
            SafeJob::Broadcast { req, owners, .. } => if owners < req.threshold {
                owners as nat
            } else {
                req.threshold as nat
            },
            SafeJob::Execute { .. } => 0,
            SafeJob::Prepare { .. } => 0,
            _ => 1,
        }
    }

    /// The transaction of a rejection.
    pub open spec fn rejection(safe: Address, nonce: u64) -> SafeTxModel {
        safe_call(safe, 0, Seq::empty(), nonce)
    }
}

impl TaskModel {
    pub open spec fn at(self, stage: TaskStage, act: TaskAct) -> TaskStep {
        TaskStep { state: TaskModel { stage, ..self }, act }
    }

    pub open spec fn fails(self, why: Seq<char>) -> TaskStep {
        self.at(TaskStage::Over, TaskAct::Failed(why))
    }

    /// The owner signs.
    pub open spec fn asks_signature(self, owner: usize) -> TaskStep {
        match self.hash {
            Some(hash) => self.at(
                TaskStage::Signature(owner),
                TaskAct::SignOwner { owner, hash },
            ),
            None => self.at(TaskStage::Over, TaskAct::Nothing),
        }
    }

    /// The send that was reviewed is put together again: only where signing is open
    /// for the Safe and something was reviewed.
    pub open spec fn rebuilds(self, req: SafeSendRequest) -> TaskStep {
        match rebuild_pin(req) {
            Ok(_) => self.at(TaskStage::Nonce, TaskAct::ReadNonce),
            Err(e) => self.fails(e),
        }
    }

    /// What a job does first.
    pub open spec fn begun(job: SafeJob) -> TaskStep {
        let s = TaskModel { job, stage: TaskStage::Over, tx: None, hash: None };
        match job {
            SafeJob::Prepare { req } => match safe_gate(req.trust, req.version@) {
                Some(e) => s.fails(e),
                None => s.at(TaskStage::Nonce, TaskAct::ReadNonce),
            },
            SafeJob::Broadcast { .. } => s.at(TaskStage::Provider, TaskAct::FindProvider),
            SafeJob::Propose { req } => s.rebuilds(req),
            SafeJob::Confirm { .. } => s.at(TaskStage::Hashing, TaskAct::HashTx),
            SafeJob::Execute { .. } => s.at(TaskStage::Provider, TaskAct::FindProvider),
            SafeJob::Reject { safe, nonce } => (TaskModel {
                tx: Some(SafeJob::rejection(safe, nonce)),
                ..s
            }).at(TaskStage::Hashing, TaskAct::HashTx),
        }
    }

    /// An endpoint was looked for.
    pub open spec fn provided(self, there: bool) -> TaskStep {
        if !there {
            self.fails("no execution RPCs configured"@)
        } else {
            match self.job {
                SafeJob::Execute { key } => self.at(
                    TaskStage::Executor,
                    TaskAct::BuildExecutor(key),
                ),
                _ => if self.job.signers() == 0 {
                    self.fails(too_few_owners())
                } else {
                    self.at(TaskStage::Owner(0), TaskAct::BuildOwner(0))
                },
            }
        }
    }

    /// The signer of an owner is there.
    pub open spec fn connected(self, owner: usize) -> TaskStep {
        match self.job {
            SafeJob::Broadcast { req, .. } => if owner + 1 < self.job.signers() {
                self.at(
                    TaskStage::Owner((owner + 1) as usize),
                    TaskAct::BuildOwner((owner + 1) as usize),
                )
            } else if self.job.signers() < req.threshold {
                self.fails(too_few_owners())
            } else {
                self.rebuilds(req)
            },
            _ => self.asks_signature(0),
        }
    }

    /// The Safe's nonce came.
    pub open spec fn numbered(self, live: u64) -> TaskStep {
        match self.job {
            SafeJob::Prepare { req } => (TaskModel { tx: Some(req.tx_at(live)), ..self }).at(
                TaskStage::Hashing,
                TaskAct::HashTx,
            ),
            SafeJob::Broadcast { req, .. } => self.pinned(req, live),
            SafeJob::Propose { req } => self.pinned(req, live),
            _ => self.at(TaskStage::Over, TaskAct::Nothing),
        }
    }

    /// The Safe's nonce came, for a send that was reviewed: it has to be the same.
    pub open spec fn pinned(self, req: SafeSendRequest, live: u64) -> TaskStep {
        match rebuild_pin(req) {
            Ok(pin) => match rebuild_nonce(pin, Ok(live)) {
                Ok(_) => (TaskModel { tx: Some(req.tx_at(pin.nonce)), ..self }).at(
                    TaskStage::Hashing,
                    TaskAct::HashTx,
                ),
                Err(e) => self.fails(e),
            },
            Err(e) => self.fails(e),
        }
    }

    /// The transaction was hashed: the hash has to be the one that was shown.
    pub open spec fn hashed(self, h: Hash32) -> TaskStep {
        let known = TaskModel { hash: Some(h), ..self };
        let ask = known.at(TaskStage::Verification, TaskAct::VerifyHash(h));
        match self.job {
            SafeJob::Broadcast { req, .. } => self.as_reviewed(req, h),
            SafeJob::Propose { req } => self.as_reviewed(req, h),
            SafeJob::Confirm { shown } => if h == shown {
                ask
            } else {
                self.fails("safe-tx: detail hash drifted; refusing to sign"@)
            },
            _ => ask,
        }
    }

    /// The send was hashed: the hash has to be the one that was reviewed.
    pub open spec fn as_reviewed(self, req: SafeSendRequest, h: Hash32) -> TaskStep {
        match rebuild_pin(req) {
            Ok(pin) => if h == pin.safe_tx_hash {
                (TaskModel { hash: Some(h), ..self }).at(
                    TaskStage::Verification,
                    TaskAct::VerifyHash(h),
                )
            } else {
                self.fails("safe-tx differs from the reviewed hash — refusing to sign"@)
            },
            Err(e) => self.fails(e),
        }
    }

    /// The Safe computes the same hash.
    pub open spec fn verified(self) -> TaskStep {
        match self.job {
            SafeJob::Prepare { .. } => match (self.tx, self.hash) {
                (Some(tx), Some(hash)) => self.at(
                    TaskStage::Over,
                    TaskAct::Prepared { nonce: tx.nonce, hash },
                ),
                _ => self.at(TaskStage::Over, TaskAct::Nothing),
            },
            SafeJob::Broadcast { .. } => self.asks_signature(0),
            _ => self.at(TaskStage::Owner(0), TaskAct::BuildOwner(0)),
        }
    }

    /// An owner has signed.
    pub open spec fn signed(self, owner: usize) -> TaskStep {
        match self.job {
            SafeJob::Broadcast { .. } => if owner + 1 < self.job.signers() {
                self.asks_signature((owner + 1) as usize)
            } else {
                self.at(TaskStage::Assembly, TaskAct::Assemble)
            },
            SafeJob::Propose { .. } => self.at(TaskStage::Posting, TaskAct::PostProposal("Kao"@)),
            SafeJob::Reject { .. } => self.at(
                TaskStage::Posting,
                TaskAct::PostProposal("Kao:reject"@),
            ),
            SafeJob::Confirm { shown } => self.at(
                TaskStage::Posting,
                TaskAct::PostConfirmation(shown),
            ),
            _ => self.at(TaskStage::Over, TaskAct::Nothing),
        }
    }

    /// The signatures are put together.
    pub open spec fn assembled(self) -> TaskStep {
        match self.job {
            SafeJob::Broadcast { executor: Executor::Local(key), .. } => self.at(
                TaskStage::Executor,
                TaskAct::BuildExecutor(key),
            ),
            _ => self.at(TaskStage::Sending, TaskAct::Send),
        }
    }

    /// The signer that pays is there, or cannot be made.
    pub open spec fn funded(self, r: Result<(), String>) -> TaskStep {
        match (self.job, r) {
            (SafeJob::Execute { .. }, Ok(_)) => self.at(TaskStage::Assembly, TaskAct::Assemble),
            (SafeJob::Execute { .. }, Err(e)) => self.fails(e@),
            (_, Ok(_)) => self.at(TaskStage::Sending, TaskAct::Send),
            (_, Err(e)) => self.fails("derive executor: "@ + e@),
        }
    }

    /// The service has what it was handed.
    pub open spec fn posted(self) -> TaskStep {
        match self.job {
            SafeJob::Confirm { .. } => self.at(
                TaskStage::Over,
                TaskAct::Done("Signature added"@),
            ),
            SafeJob::Reject { .. } => self.at(
                TaskStage::Over,
                TaskAct::Done("Rejection proposed"@),
            ),
            _ => self.at(TaskStage::Over, TaskAct::Done(Seq::empty())),
        }
    }

    /// The transaction was sent.
    pub open spec fn sent(self, h: Hash32) -> TaskStep {
        match self.job {
            SafeJob::Execute { .. } => self.at(TaskStage::Over, TaskAct::Done(executed_text(h))),
            _ => self.at(TaskStage::Over, TaskAct::Sent(h)),
        }
    }

    /// What comes of an event. One that was not waited for changes nothing.
    pub open spec fn next(self, e: TaskEvent) -> TaskStep {
        match (self.stage, e) {
            (TaskStage::Provider, TaskEvent::Provider(there)) => self.provided(there),
            (TaskStage::Owner(i), TaskEvent::Built(Ok(_))) => self.connected(i),
            (TaskStage::Owner(_), TaskEvent::Built(Err(w))) => self.fails(w@),
            (TaskStage::Executor, TaskEvent::Built(r)) => self.funded(r),
            (TaskStage::Nonce, TaskEvent::Nonce(Ok(n))) => self.numbered(n),
            (TaskStage::Nonce, TaskEvent::Nonce(Err(w))) => self.fails(w@),
            (TaskStage::Hashing, TaskEvent::Hashed(h)) => self.hashed(h),
            (TaskStage::Verification, TaskEvent::Verified(Ok(_))) => self.verified(),
            (TaskStage::Verification, TaskEvent::Verified(Err(w))) => self.fails(w@),
            (TaskStage::Signature(i), TaskEvent::Signed(Ok(_))) => self.signed(i),
            (TaskStage::Signature(_), TaskEvent::Signed(Err(w))) => self.fails(w@),
            (TaskStage::Assembly, TaskEvent::Assembled(Ok(_))) => self.assembled(),
            (TaskStage::Assembly, TaskEvent::Assembled(Err(w))) => self.fails(w@),
            (TaskStage::Sending, TaskEvent::Sent(Ok(h))) => self.sent(h),
            (TaskStage::Sending, TaskEvent::Sent(Err(w))) => self.fails(w@),
            (TaskStage::Posting, TaskEvent::Posted(Ok(_))) => self.posted(),
            (TaskStage::Posting, TaskEvent::Posted(Err(w))) => self.fails(w@),
            _ => TaskStep { state: self, act: TaskAct::Nothing },
        }
    }
}

impl SafeJob {
    /// How many owners sign.
    fn signer_count(&self) -> (r: usize)
        ensures
            r == self.signers(),
    {
        match self {
            SafeJob::Broadcast { req, owners, .. } => {
                let threshold: usize = req.threshold as usize;
                if *owners < threshold {
                    *owners
                } else {
                    threshold
                }
            },
            SafeJob::Execute { .. } => 0,
            SafeJob::Prepare { .. } => 0,
            _ => 1,
        }
    }
}

impl SafeTask {
    fn at(&mut self, stage: TaskStage, a: TaskAction) -> (r: TaskAction)
        ensures
            (TaskStep { state: final(self)@, act: r@ }) == old(self)@.at(stage, a@),
    {
        self.stage = stage;
        a
    }

    fn fail(&mut self, why: String) -> (r: TaskAction)
        ensures
            (TaskStep { state: final(self)@, act: r@ }) == old(self)@.fails(why@),
    {
        self.stage = TaskStage::Over;
        TaskAction::Failed(why)
    }

    fn ask_signature(&mut self, owner: usize) -> (r: TaskAction)
        ensures
            (TaskStep { state: final(self)@, act: r@ }) == old(self)@.asks_signature(owner),
    {
        match self.hash {
            Some(hash) => {
                self.stage = TaskStage::Signature(owner);
                TaskAction::SignOwner { owner, hash }
            },
            None => self.at(TaskStage::Over, TaskAction::Nothing),
        }
    }

    /// Starts a job, and says what it does first.
    pub fn start(job: SafeJob) -> (r: (SafeTask, TaskAction))
        ensures
            (TaskStep { state: r.0@, act: r.1@ }) == TaskModel::begun(job),
    {
        let (stage, tx, act) = match &job {
            SafeJob::Prepare { req } => match signing_gate(req.trust, req.version.as_str()) {
                Ok(_) => (TaskStage::Nonce, None, TaskAction::ReadNonce),
                Err(e) => (TaskStage::Over, None, TaskAction::Failed(e)),
            },
            SafeJob::Broadcast { .. } => (TaskStage::Provider, None, TaskAction::FindProvider),
            SafeJob::Propose { req } => match reviewed_pin(req) {
                Ok(_) => (TaskStage::Nonce, None, TaskAction::ReadNonce),
                Err(e) => (TaskStage::Over, None, TaskAction::Failed(e)),
            },
            SafeJob::Confirm { .. } => (TaskStage::Hashing, None, TaskAction::HashTx),
            SafeJob::Execute { .. } => (TaskStage::Provider, None, TaskAction::FindProvider),
            SafeJob::Reject { safe, nonce } => (
                TaskStage::Hashing,
                Some(build_rejection_tx(*safe, *nonce)),
                TaskAction::HashTx,
            ),
        };
        (SafeTask { job, stage, tx, hash: None }, act)
    }

    fn provider_found(&mut self, there: bool) -> (r: TaskAction)
        ensures
            (TaskStep { state: final(self)@, act: r@ }) == old(self)@.provided(there),
    {
        if !there {
            return self.fail("no execution RPCs configured".to_string());
        }
        if let SafeJob::Execute { key } = self.job {
            return self.at(TaskStage::Executor, TaskAction::BuildExecutor(key));
        }
        if self.job.signer_count() == 0 {
            return self.fail("not enough signable owners to meet the Safe threshold".to_string());
        }
        self.at(TaskStage::Owner(0), TaskAction::BuildOwner(0))
    }

    fn owner_connected(&mut self, owner: usize) -> (r: TaskAction)
        ensures
            (TaskStep { state: final(self)@, act: r@ }) == old(self)@.connected(owner),
    {
        let needed = self.job.signer_count();
        let pin = match &self.job {
            SafeJob::Broadcast { req, .. } => {
                if owner < needed && owner + 1 < needed {
                    self.stage = TaskStage::Owner(owner + 1);
                    return TaskAction::BuildOwner(owner + 1);
                }
                if needed < req.threshold as usize {
                    return self.fail(
                        "not enough signable owners to meet the Safe threshold".to_string(),
                    );
                }
                reviewed_pin(req)
            },
            _ => {
                return self.ask_signature(0);
            },
        };
        match pin {
            Ok(_) => self.at(TaskStage::Nonce, TaskAction::ReadNonce),
            Err(e) => self.fail(e),
        }
    }

    fn nonce_came(&mut self, live: u64) -> (r: TaskAction)
        ensures
            (TaskStep { state: final(self)@, act: r@ }) == old(self)@.numbered(live),
    {
        let built: Result<SafeTx, String> = match &self.job {
            SafeJob::Prepare { req } => Ok(build_safe_tx_with_nonce(req.safe_tx_input(), live)),
            SafeJob::Broadcast { req, .. } => match reviewed_pin(req) {
                Ok(pin) => reviewed_tx(req, &pin, Ok(live)),
                Err(e) => Err(e),
            },
            SafeJob::Propose { req } => match reviewed_pin(req) {
                Ok(pin) => reviewed_tx(req, &pin, Ok(live)),
                Err(e) => Err(e),
            },
            _ => {
                return self.at(TaskStage::Over, TaskAction::Nothing);
            },
        };
        match built {
            Ok(tx) => {
                self.tx = Some(tx);
                self.stage = TaskStage::Hashing;
                TaskAction::HashTx
            },
            Err(e) => self.fail(e),
        }
    }

    fn hash_came(&mut self, h: Hash32) -> (r: TaskAction)
        ensures
            (TaskStep { state: final(self)@, act: r@ }) == old(self)@.hashed(h),
    {
        let checked: Result<(), String> = match &self.job {
            SafeJob::Broadcast { req, .. } => check_reviewed(req, h),
            SafeJob::Propose { req } => check_reviewed(req, h),
            SafeJob::Confirm { shown } => match queued_hash(h, *shown) {
                Ok(_) => Ok(()),
                Err(e) => Err(e.to_string()),
            },
            _ => Ok(()),
        };
        match checked {
            Ok(_) => {
                self.hash = Some(h);
                self.stage = TaskStage::Verification;
                TaskAction::VerifyHash(h)
            },
            Err(e) => self.fail(e),
        }
    }

    fn hash_confirmed(&mut self) -> (r: TaskAction)
        ensures
            (TaskStep { state: final(self)@, act: r@ }) == old(self)@.verified(),
    {
        match &self.job {
            SafeJob::Prepare { .. } => {
                let act = match (&self.tx, self.hash) {
                    (Some(tx), Some(hash)) => TaskAction::Prepared { nonce: tx.nonce, hash },
                    _ => TaskAction::Nothing,
                };
                self.at(TaskStage::Over, act)
            },
            SafeJob::Broadcast { .. } => self.ask_signature(0),
            _ => self.at(TaskStage::Owner(0), TaskAction::BuildOwner(0)),
        }
    }

    fn owner_signed(&mut self, owner: usize) -> (r: TaskAction)
        ensures
            (TaskStep { state: final(self)@, act: r@ }) == old(self)@.signed(owner),
    {
        let needed = self.job.signer_count();
        match &self.job {
            SafeJob::Broadcast { .. } => {
                if owner < needed && owner + 1 < needed {
                    return self.ask_signature(owner + 1);
                }
                self.at(TaskStage::Assembly, TaskAction::Assemble)
            },
            SafeJob::Propose { .. } => self.at(
                TaskStage::Posting,
                TaskAction::PostProposal("Kao"),
            ),
            SafeJob::Reject { .. } => self.at(
                TaskStage::Posting,
                TaskAction::PostProposal("Kao:reject"),
            ),
            SafeJob::Confirm { shown } => {
                let hash = *shown;
                self.at(TaskStage::Posting, TaskAction::PostConfirmation(hash))
            },
            _ => self.at(TaskStage::Over, TaskAction::Nothing),
        }
    }

    fn signatures_assembled(&mut self) -> (r: TaskAction)
        ensures
            (TaskStep { state: final(self)@, act: r@ }) == old(self)@.assembled(),
    {
        if let SafeJob::Broadcast { executor: Executor::Local(key), .. } = &self.job {
            let key = *key;
            return self.at(TaskStage::Executor, TaskAction::BuildExecutor(key));
        }
        self.at(TaskStage::Sending, TaskAction::Send)
    }

    fn executor_built(&mut self, built: Result<(), String>) -> (r: TaskAction)
        ensures
            (TaskStep { state: final(self)@, act: r@ }) == old(self)@.funded(built),
    {
        let executes = match &self.job {
            SafeJob::Execute { .. } => true,
            _ => false,
        };
        match built {
            Ok(_) => {
                if executes {
                    return self.at(TaskStage::Assembly, TaskAction::Assemble);
                }
                self.at(TaskStage::Sending, TaskAction::Send)
            },
            Err(e) => {
                if executes {
                    return self.fail(e);
                }
                self.fail(join2("derive executor: ", e.as_str()))
            },
        }
    }

    fn post_done(&mut self) -> (r: TaskAction)
        ensures
            (TaskStep { state: final(self)@, act: r@ }) == old(self)@.posted(),
    {
        let text = match &self.job {
            SafeJob::Confirm { .. } => "Signature added".to_string(),
            SafeJob::Reject { .. } => "Rejection proposed".to_string(),
            _ => String::new(),
        };
        self.at(TaskStage::Over, TaskAction::Done(text))
    }

    fn send_done(&mut self, h: Hash32) -> (r: TaskAction)
        ensures
            (TaskStep { state: final(self)@, act: r@ }) == old(self)@.sent(h),
    {
        match &self.job {
            SafeJob::Execute { .. } => {
                let mut text = "Executed · ".to_string();
                push_hash(&mut text, h);
                self.at(TaskStage::Over, TaskAction::Done(text))
            },
            _ => self.at(TaskStage::Over, TaskAction::Sent(h)),
        }
    }

    /// Takes in what came back and says what is to be done next.
    pub fn step(&mut self, e: TaskEvent) -> (r: TaskAction)
        ensures
            (TaskStep { state: final(self)@, act: r@ }) == old(self)@.next(e),
    {
        match (self.stage, e) {
            (TaskStage::Provider, TaskEvent::Provider(there)) => {
                return self.provider_found(there);
            },
            (TaskStage::Owner(i), TaskEvent::Built(Ok(_))) => {
                return self.owner_connected(i);
            },
            (TaskStage::Owner(_), TaskEvent::Built(Err(w))) => {
                return self.fail(w);
            },
            (TaskStage::Executor, TaskEvent::Built(r)) => {
                return self.executor_built(r);
            },
            (TaskStage::Nonce, TaskEvent::Nonce(Ok(n))) => {
                return self.nonce_came(n);
            },
            (TaskStage::Nonce, TaskEvent::Nonce(Err(w))) => {
                return self.fail(w);
            },
            (TaskStage::Hashing, TaskEvent::Hashed(h)) => {
                return self.hash_came(h);
            },
            (TaskStage::Verification, TaskEvent::Verified(Ok(_))) => {
                return self.hash_confirmed();
            },
            (TaskStage::Verification, TaskEvent::Verified(Err(w))) => {
                return self.fail(w);
            },
            (TaskStage::Signature(i), TaskEvent::Signed(Ok(_))) => {
                return self.owner_signed(i);
            },
            (TaskStage::Signature(_), TaskEvent::Signed(Err(w))) => {
                return self.fail(w);
            },
            (TaskStage::Assembly, TaskEvent::Assembled(Ok(_))) => {
                return self.signatures_assembled();
            },
            (TaskStage::Assembly, TaskEvent::Assembled(Err(w))) => {
                return self.fail(w);
            },
            (TaskStage::Sending, TaskEvent::Sent(Ok(h))) => {
                return self.send_done(h);
            },
            (TaskStage::Sending, TaskEvent::Sent(Err(w))) => {
                return self.fail(w);
            },
            (TaskStage::Posting, TaskEvent::Posted(Ok(_))) => {
                return self.post_done();
            },
            (TaskStage::Posting, TaskEvent::Posted(Err(w))) => {
                return self.fail(w);
            },
            _ => TaskAction::Nothing,
        }
    }
}

/// Checks that a send hashes to what was reviewed.
fn check_reviewed(req: &SafeSendRequest, h: Hash32) -> (r: Result<(), String>)
    ensures
        match (rebuild_pin(*req), r) {
            (Ok(pin), Ok(_)) => h == pin.safe_tx_hash,
            (Ok(pin), Err(e)) => h != pin.safe_tx_hash && e@
                == "safe-tx differs from the reviewed hash — refusing to sign"@,
            (Err(w), Err(e)) => e@ == w,
            (Err(_), Ok(_)) => false,
        },
{
    match reviewed_pin(req) {
        Ok(pin) => match reviewed_hash(&pin, h) {
            Ok(_) => Ok(()),
            Err(e) => Err(e.to_string()),
        },
        Err(e) => Err(e),
    }
}

// ── laws ────────────────────────────────────────────────────────────────────

/// The send that a job signs, where it is one that was reviewed.
pub open spec fn reviewed_by(job: SafeJob) -> Option<SafeSendRequest> {
    match job {
        SafeJob::Broadcast { req, .. } => Some(req),
        SafeJob::Propose { req } => Some(req),
        _ => None,
    }
}

/// Past the check of the hash: an owner of a job other than a broadcast is connected
/// only now.
pub open spec fn past_the_check(s: TaskModel) -> bool {
    match s.stage {
        TaskStage::Signature(_) => true,
        TaskStage::Posting => true,
        TaskStage::Owner(_) => !(s.job is Broadcast),
        TaskStage::Verification => true,
        _ => false,
    }
}

/// What holds of a job at all times: once the hash is asked for, it is the one that
/// was shown, and the transaction is the one that was asked for.
pub open spec fn faithful(s: TaskModel) -> bool {
    &&& s.stage == TaskStage::Provider ==> s.job is Broadcast || s.job is Execute
    &&& past_the_check(s) ==> s.hash is Some
    &&& past_the_check(s) ==> (s.job matches SafeJob::Confirm { shown } ==> s.hash == Some(shown))
    &&& past_the_check(s) ==> (reviewed_by(s.job) matches Some(req) ==> {
        &&& safe_gate(req.trust, req.version@) is None
        &&& req.prepared matches Some(pin) && s.hash == Some(pin.safe_tx_hash) && s.tx == Some(
            req.tx_at(pin.nonce),
        )
    })
    &&& s.stage == TaskStage::Hashing ==> (reviewed_by(s.job) matches Some(req)
        ==> req.prepared matches Some(pin) && s.tx == Some(req.tx_at(pin.nonce)))
    &&& s.job matches SafeJob::Reject { safe, nonce } ==> s.tx == Some(
        SafeJob::rejection(safe, nonce),
    )
}

/// Every job is faithful from its start, and stays so.
pub proof fn law_jobs_stay_faithful(job: SafeJob, s: TaskModel, e: TaskEvent)
    ensures
        faithful(TaskModel::begun(job).state),
        faithful(s) ==> faithful(s.next(e).state),
{
}

/// Owners sign only what was shown to the user: of a send, the transaction and the
/// hash that were reviewed, for a Safe that signing is open for; of a queued
/// transaction, the hash on screen; and in every case only after the Safe has computed
/// the same hash.
pub proof fn law_owners_sign_what_was_shown(s: TaskModel, e: TaskEvent)
    requires
        faithful(s),
        s.next(e).act is SignOwner,
    ensures
        s.next(e).state.hash == Some(s.next(e).act->SignOwner_hash),
        s.job matches SafeJob::Confirm { shown } ==> s.next(e).act->SignOwner_hash == shown,
        reviewed_by(s.job) matches Some(req) ==> {
            &&& safe_gate(req.trust, req.version@) is None
            &&& req.prepared matches Some(pin) && s.next(e).act->SignOwner_hash
                == pin.safe_tx_hash && s.next(e).state.tx == Some(req.tx_at(pin.nonce))
        },
        s.stage == TaskStage::Verification ==> e matches TaskEvent::Verified(Ok(_)),
{
}

/// A broadcast asks for a signature only where as many owners sign as the threshold
/// asks for, and never for one owner more.
pub proof fn law_broadcasts_meet_the_threshold(s: TaskModel, e: TaskEvent)
    requires
        s.job is Broadcast,
        s.stage matches TaskStage::Owner(i) ==> i < s.job.signers(),
    ensures
        s.stage is Owner && s.next(e).act is ReadNonce ==> s.job.signers()
            == s.job->Broadcast_req.threshold,
        s.stage is Signature && s.next(e).act is SignOwner ==> s.next(e).act->SignOwner_owner
            < s.job.signers(),
{
}

/// What has failed or is done stays so.
pub proof fn law_jobs_end(s: TaskModel, e: TaskEvent, f: TaskEvent)
    requires
        s.next(e).act is Failed || s.next(e).act is Done || s.next(e).act is Sent || s.next(
            e,
        ).act is Prepared,
    ensures
        s.next(e).state.next(f).act is Nothing,
        s.next(e).state.next(f).state == s.next(e).state,
{
}

} // verus!
