//! Writing a name, step by step.

use vstd::prelude::*;

use crate::crew::CrewKind;
use crate::name_writes::{NameSign, RegisterPlan};
use crate::safe_tx::Executor;
use crate::types::Hash32;

verus! {

/// How often the chain is asked whether a name write is mined.
pub const NAME_RECEIPT_POLLS: u32 = 60;

/// What is waited for.
#[derive(Debug, Clone, Copy, PartialEq, Eq, Structural)]
pub enum NameStage {
    /// The call, which a Safe has to know beforehand.
    Call,
    Crew,
    /// The call was made.
    Submission,
    /// An endpoint to wait for the receipt with.
    Provider,
    Receipt,
    Over,
}

/// What is to be done next.
#[derive(Debug)]
pub enum NameAction {
    /// Work out the call.
    BuildCall,
    /// Get the signers ready.
    Gather(CrewKind),
    /// Make the call with the account's signer.
    Submit,
    /// Make the call as the Safe.
    CallAsSafe,
    FindProvider,
    AwaitReceipt { hash: Hash32, polls: u32 },
    /// The commitment is mined; the name is revealed with the same plan.
    Committed { plan: RegisterPlan, hash: Hash32 },
    /// The write is mined.
    Written { name: String, hash: Hash32 },
    Failed(String),
    Nothing,
}

/// What a `NameAction` holds.
pub enum NameAct {
    BuildCall,
    Gather(CrewKind),
    Submit,
    CallAsSafe,
    FindProvider,
    AwaitReceipt { hash: Hash32, polls: u32 },
    Committed { plan: RegisterPlan, hash: Hash32 },
    Written { name: Seq<char>, hash: Hash32 },
    Failed(Seq<char>),
    Nothing,
}

impl View for NameAction {
    type V = NameAct;

    open spec fn view(&self) -> NameAct {
        match *self {
            NameAction::BuildCall => NameAct::BuildCall,
            NameAction::Gather(k) => NameAct::Gather(k),
            NameAction::Submit => NameAct::Submit,
            NameAction::CallAsSafe => NameAct::CallAsSafe,
            NameAction::FindProvider => NameAct::FindProvider,
            NameAction::AwaitReceipt { hash, polls } => NameAct::AwaitReceipt { hash, polls },
            NameAction::Committed { plan, hash } => NameAct::Committed { plan, hash },
            NameAction::Written { name, hash } => NameAct::Written { name: name@, hash },
            NameAction::Failed(t) => NameAct::Failed(t@),
            NameAction::Nothing => NameAct::Nothing,
        }
    }
}

/// What came back.
#[derive(Debug)]
pub enum NameEvent {
    Call(Result<(), String>),
    /// The signers are ready, or cannot be had.
    Crew(Result<(), String>),
    Sent(Result<Hash32, String>),
    Provider(bool),
    Mined(Result<(), String>),
}

/// Who writes.
#[derive(Debug, Clone, Copy, PartialEq, Eq, Structural)]
pub enum NameWriter {
    Account,
    Safe { owners: usize, executor: Executor },
}

/// A name write under way.
#[derive(Debug)]
pub struct NameWrite {
    pub sign: NameSign,
    pub writer: NameWriter,
    pub stage: NameStage,
    /// The transaction, once it is sent.
    pub hash: Option<Hash32>,
}

/// What comes of an event.
pub struct NameStep {
    pub state: NameWrite,
    pub act: NameAct,
}

impl NameWriter {
    pub open spec fn crew(self) -> CrewKind {
        match self {
            NameWriter::Account => CrewKind::NameAccount,
            NameWriter::Safe { owners, executor } => CrewKind::NameSafe { owners, executor },
        }
    }

    fn crew_kind(self) -> (r: CrewKind)
        ensures
            r == self.crew(),
    {
        match self {
            NameWriter::Account => CrewKind::NameAccount,
            NameWriter::Safe { owners, executor } => CrewKind::NameSafe { owners, executor },
        }
    }
}

impl NameWrite {
    pub open spec fn at(self, stage: NameStage, act: NameAct) -> NameStep {
        NameStep { state: NameWrite { stage, ..self }, act }
    }

    pub open spec fn fails(self, why: Seq<char>) -> NameStep {
        self.at(NameStage::Over, NameAct::Failed(why))
    }

    /// What is done first: a Safe has to know the call, an account makes it itself.
    pub open spec fn begun(sign: NameSign, writer: NameWriter) -> NameStep {
        let s = NameWrite { sign, writer, stage: NameStage::Over, hash: None };
        match writer {
            NameWriter::Account => s.at(NameStage::Crew, NameAct::Gather(writer.crew())),
            NameWriter::Safe { .. } => s.at(NameStage::Call, NameAct::BuildCall),
        }
    }

    /// The end of a write that is mined.
    pub open spec fn mined(self) -> NameAct {
        match self.hash {
            Some(hash) => match self.sign {
                NameSign::Commit(plan) => NameAct::Committed { plan, hash },
                sign => NameAct::Written { name: sign.name(), hash },
            },
            None => NameAct::Nothing,
        }
    }

    /// What comes of an event. One that was not waited for changes nothing.
    pub open spec fn next(self, e: NameEvent) -> NameStep {
        match (self.stage, e) {
            (NameStage::Call, NameEvent::Call(Ok(_))) => self.at(
                NameStage::Crew,
                NameAct::Gather(self.writer.crew()),
            ),
            (NameStage::Call, NameEvent::Call(Err(w))) => self.fails(w@),
            (NameStage::Crew, NameEvent::Crew(Ok(_))) => self.at(
                NameStage::Submission,
                match self.writer {
                    NameWriter::Account => NameAct::Submit,
                    NameWriter::Safe { .. } => NameAct::CallAsSafe,
                },
            ),
            (NameStage::Crew, NameEvent::Crew(Err(w))) => self.fails(w@),
            (NameStage::Submission, NameEvent::Sent(Ok(h))) => (NameWrite {
                hash: Some(h),
                ..self
            }).at(NameStage::Provider, NameAct::FindProvider),
            (NameStage::Submission, NameEvent::Sent(Err(w))) => self.fails(w@),
            (NameStage::Provider, NameEvent::Provider(true)) => match self.hash {
                Some(hash) => self.at(
                    NameStage::Receipt,
                    NameAct::AwaitReceipt { hash, polls: NAME_RECEIPT_POLLS },
                ),
                None => self.at(NameStage::Over, NameAct::Nothing),
            },
            (NameStage::Provider, NameEvent::Provider(false)) => self.fails(
                "no Ethereum mainnet RPC configured"@,
            ),
            (NameStage::Receipt, NameEvent::Mined(Ok(_))) => self.at(
                NameStage::Over,
                self.mined(),
            ),
            (NameStage::Receipt, NameEvent::Mined(Err(w))) => self.fails(w@),
            _ => NameStep { state: self, act: NameAct::Nothing },
        }
    }

    fn fail(&mut self, why: String) -> (r: NameAction)
        ensures
            (NameStep { state: *final(self), act: r@ }) == old(self).fails(why@),
    {
        self.stage = NameStage::Over;
        NameAction::Failed(why)
    }

    /// Starts a name write, and says what is done first.
    pub fn start(sign: NameSign, writer: NameWriter) -> (r: (NameWrite, NameAction))
        ensures
            (NameStep { state: r.0, act: r.1@ }) == NameWrite::begun(sign, writer),
    {
        match writer {
            NameWriter::Account => (
                NameWrite { sign, writer, stage: NameStage::Crew, hash: None },
                NameAction::Gather(writer.crew_kind()),
            ),
            NameWriter::Safe { .. } => (
                NameWrite { sign, writer, stage: NameStage::Call, hash: None },
                NameAction::BuildCall,
            ),
        }
    }

    fn finish(&mut self) -> (r: NameAction)
        ensures
            (NameStep { state: *final(self), act: r@ }) == old(self).at(
                NameStage::Over,
                old(self).mined(),
            ),
    {
        self.stage = NameStage::Over;
        match self.hash {
            Some(hash) => match &self.sign {
                NameSign::Commit(plan) => NameAction::Committed { plan: plan.clone(), hash },
                sign => NameAction::Written { name: sign.written_name(), hash },
            },
            None => NameAction::Nothing,
        }
    }

    /// Takes in what came back and says what is to be done next.
    pub fn step(&mut self, e: NameEvent) -> (r: NameAction)
        ensures
            (NameStep { state: *final(self), act: r@ }) == old(self).next(e),
    {
        match (self.stage, e) {
            (NameStage::Call, NameEvent::Call(Ok(_))) => {
                self.stage = NameStage::Crew;
                return NameAction::Gather(self.writer.crew_kind());
            },
            (NameStage::Call, NameEvent::Call(Err(w))) => {
                return self.fail(w);
            },
            (NameStage::Crew, NameEvent::Crew(Ok(_))) => {
                self.stage = NameStage::Submission;
                return match self.writer {
                    NameWriter::Account => NameAction::Submit,
                    NameWriter::Safe { .. } => NameAction::CallAsSafe,
                };
            },
            (NameStage::Crew, NameEvent::Crew(Err(w))) => {
                return self.fail(w);
            },
            (NameStage::Submission, NameEvent::Sent(Ok(h))) => {
                self.hash = Some(h);
                self.stage = NameStage::Provider;
                return NameAction::FindProvider;
            },
            (NameStage::Submission, NameEvent::Sent(Err(w))) => {
                return self.fail(w);
            },
            (NameStage::Provider, NameEvent::Provider(there)) => {
                if !there {
                    return self.fail("no Ethereum mainnet RPC configured".to_string());
                }
                return match self.hash {
                    Some(hash) => {
                        self.stage = NameStage::Receipt;
                        NameAction::AwaitReceipt { hash, polls: NAME_RECEIPT_POLLS }
                    },
                    None => {
                        self.stage = NameStage::Over;
                        NameAction::Nothing
                    },
                };
            },
            (NameStage::Receipt, NameEvent::Mined(Ok(_))) => {
                return self.finish();
            },
            (NameStage::Receipt, NameEvent::Mined(Err(w))) => {
                return self.fail(w);
            },
            _ => NameAction::Nothing,
        }
    }
}

// ── laws ────────────────────────────────────────────────────────────────────

/// The names app goes on only where the write is mined: nothing is reported as written
/// before the receipt came, and what is reported is the name and the transaction that
/// were sent.
pub proof fn law_names_are_written_once_mined(s: NameWrite, e: NameEvent)
    ensures
        ({
            let t = s.next(e);
            &&& t.act is Written || t.act is Committed ==> s.stage == NameStage::Receipt && (e matches
                NameEvent::Mined(Ok(_)))
            &&& t.act matches NameAct::Written { name, hash } ==> name == s.sign.name() && s.hash
                == Some(hash)
            &&& t.act matches NameAct::Committed { plan, hash } ==> s.sign == NameSign::Commit(
                plan,
            ) && s.hash == Some(hash)
        }),
{
}

/// An account's write is made with the account's signer, a Safe's as the Safe.
pub proof fn law_a_name_is_written_by_its_owner(s: NameWrite, e: NameEvent)
    ensures
        s.next(e).act is Submit ==> s.writer == NameWriter::Account,
        s.next(e).act is CallAsSafe ==> s.writer is Safe,
        s.next(e).state.writer == s.writer,
        s.next(e).state.sign == s.sign,
{
}

} // verus!
