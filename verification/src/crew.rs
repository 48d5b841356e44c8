//! Getting ready to sign: who signs, and who pays, for a send, an order or a name
//! write.

use vstd::prelude::*;

use crate::safe_tx::Executor;
use crate::text::join2;
use crate::types::Hash32;

verus! {

/// What is to be signed, and by whom.
#[derive(Debug, Clone, Copy, PartialEq, Eq, Structural)]
pub enum CrewKind {
    /// A send, with the signer of the account.
    SendAccount,
    /// An order, with the signer of the account.
    PlaceAccount,
    /// A cancellation, with the signer of the account.
    CancelAccount,
    /// A name write, with the signer of the account.
    NameAccount,
    /// An order, with the signers of a Safe's owners.
    PlaceSafe { owners: usize, executor: Executor },
    /// A cancellation, with the signers of a Safe's owners; nobody has to pay.
    CancelSafe { owners: usize },
    /// A name write, with the signers of a Safe's owners.
    NameSafe { owners: usize, executor: Executor },
}

impl CrewKind {
    /// What is said where the chain has no endpoint, if it needs one.
    pub open spec fn unreachable(self) -> Option<Seq<char>> {
        match self {
            CrewKind::SendAccount => Some("no execution RPCs configured"@),
            CrewKind::PlaceAccount => Some("no execution RPC configured"@),
            CrewKind::PlaceSafe { .. } => Some("no execution RPC configured"@),
            CrewKind::NameSafe { .. } => Some("no Ethereum mainnet RPC configured"@),
            _ => None,
        }
    }

    /// How many owners sign; none for an account.
    pub open spec fn owners(self) -> Option<usize> {
        match self {
            CrewKind::PlaceSafe { owners, .. } => Some(owners),
            CrewKind::CancelSafe { owners } => Some(owners),
            CrewKind::NameSafe { owners, .. } => Some(owners),
            _ => None,
        }
    }

    /// The key that pays, where it is not one of the signers that pays.
    pub open spec fn payer(self) -> Option<Hash32> {
        match self {
            CrewKind::PlaceSafe { executor: Executor::Local(k), .. } => Some(k),
            CrewKind::NameSafe { executor: Executor::Local(k), .. } => Some(k),
            _ => None,
        }
    }

    /// What is said where the key that pays makes no signer.
    pub open spec fn payer_failure(self, e: Seq<char>) -> Seq<char> {
        if self is PlaceSafe {
            "derive executor: "@ + e
        } else {
            e
        }
    }

    /// What is said where the chain has no endpoint, if it needs one.
    fn unreachable_text(self) -> (r: Option<&'static str>)
        ensures
            match r {
                Some(t) => self.unreachable() == Some(t@),
                None => self.unreachable() is None,
            },
    {
        match self {
            CrewKind::SendAccount => Some("no execution RPCs configured"),
            CrewKind::PlaceAccount => Some("no execution RPC configured"),
            CrewKind::PlaceSafe { .. } => Some("no execution RPC configured"),
            CrewKind::NameSafe { .. } => Some("no Ethereum mainnet RPC configured"),
            _ => None,
        }
    }

    /// How many owners sign; none for an account.
    fn owner_count(self) -> (r: Option<usize>)
        ensures
            r == self.owners(),
    {
        match self {
            CrewKind::PlaceSafe { owners, .. } => Some(owners),
            CrewKind::CancelSafe { owners } => Some(owners),
            CrewKind::NameSafe { owners, .. } => Some(owners),
            _ => None,
        }
    }

    /// The key that pays, where it is not one of the signers that pays.
    fn paying_key(self) -> (r: Option<Hash32>)
        ensures
            r == self.payer(),
    {
        match self {
            CrewKind::PlaceSafe { executor: Executor::Local(k), .. } => Some(k),
            CrewKind::NameSafe { executor: Executor::Local(k), .. } => Some(k),
            _ => None,
        }
    }
}

/// What is waited for.
#[derive(Debug, Clone, Copy, PartialEq, Eq, Structural)]
pub enum CrewStage {
    Provider,
    /// The signer that was lent.
    Signer,
    /// The signer of the owner with this number.
    Owner(usize),
    /// The signer that pays.
    Payer,
    /// All are there.
    Ready,
    /// It failed.
    Over,
}

/// What is to be done next.
#[derive(Debug)]
pub enum CrewAction {
    FindProvider,
    /// Take the lent signer, and reach its device.
    TakeSigner,
    BuildOwner(usize),
    BuildPayer(Hash32),
    /// Go on and sign.
    Proceed,
    Failed(String),
    Nothing,
}

/// What a `CrewAction` holds.
pub enum CrewAct {
    FindProvider,
    TakeSigner,
    BuildOwner(usize),
    BuildPayer(Hash32),
    Proceed,
    Failed(Seq<char>),
    Nothing,
}

impl View for CrewAction {
    type V = CrewAct;

    open spec fn view(&self) -> CrewAct {
        match *self {
            CrewAction::FindProvider => CrewAct::FindProvider,
            CrewAction::TakeSigner => CrewAct::TakeSigner,
            CrewAction::BuildOwner(i) => CrewAct::BuildOwner(i),
            CrewAction::BuildPayer(k) => CrewAct::BuildPayer(k),
            CrewAction::Proceed => CrewAct::Proceed,
            CrewAction::Failed(t) => CrewAct::Failed(t@),
            CrewAction::Nothing => CrewAct::Nothing,
        }
    }
}

/// What came back.
#[derive(Debug)]
pub enum CrewEvent {
    /// Whether the chain has an endpoint.
    Provider(bool),
    /// A signer is there, or cannot be had.
    Signer(Result<(), String>),
}

/// The signers, as far as they are there.
#[derive(Debug, Clone, Copy, PartialEq, Eq, Structural)]
pub struct Crew {
    pub kind: CrewKind,
    pub stage: CrewStage,
}

/// What comes of an event.
pub struct CrewStep {
    pub state: Crew,
    pub act: CrewAct,
}

impl Crew {
    pub open spec fn at(self, stage: CrewStage, act: CrewAct) -> CrewStep {
        CrewStep { state: Crew { stage, ..self }, act }
    }

    /// Once the chain is reachable, or need not be: the account's signer is taken, or
    /// the owners are connected, one after the other.
    pub open spec fn reachable(self) -> CrewStep {
        match self.kind.owners() {
            Some(n) => if n == 0 {
                self.at(
                    CrewStage::Over,
                    CrewAct::Failed("no signable owners for this Safe"@),
                )
            } else {
                self.at(CrewStage::Owner(0), CrewAct::BuildOwner(0))
            },
            None => self.at(CrewStage::Signer, CrewAct::TakeSigner),
        }
    }

    /// Once the owner with this number is there.
    pub open spec fn joined(self, i: usize) -> CrewStep {
        if self.kind.owners() matches Some(n) && i < n && i + 1 < n {
            self.at(CrewStage::Owner((i + 1) as usize), CrewAct::BuildOwner((i + 1) as usize))
        } else {
            match self.kind.payer() {
                Some(k) => self.at(CrewStage::Payer, CrewAct::BuildPayer(k)),
                None => self.at(CrewStage::Ready, CrewAct::Proceed),
            }
        }
    }

    /// What is done first.
    pub open spec fn begun(kind: CrewKind) -> CrewStep {
        let s = Crew { kind, stage: CrewStage::Over };
        if kind.unreachable() is Some {
            s.at(CrewStage::Provider, CrewAct::FindProvider)
        } else {
            s.reachable()
        }
    }

    /// What comes of an event. One that was not waited for changes nothing.
    pub open spec fn next(self, e: CrewEvent) -> CrewStep {
        match (self.stage, e) {
            (CrewStage::Provider, CrewEvent::Provider(true)) => self.reachable(),
            (CrewStage::Provider, CrewEvent::Provider(false)) => self.at(
                CrewStage::Over,
                CrewAct::Failed(
                    match self.kind.unreachable() {
                        Some(t) => t,
                        None => Seq::empty(),
                    },
                ),
            ),
            (CrewStage::Signer, CrewEvent::Signer(Ok(_))) => self.at(
                CrewStage::Ready,
                CrewAct::Proceed,
            ),
            (CrewStage::Owner(i), CrewEvent::Signer(Ok(_))) => self.joined(i),
            (CrewStage::Payer, CrewEvent::Signer(Ok(_))) => self.at(
                CrewStage::Ready,
                CrewAct::Proceed,
            ),
            (CrewStage::Payer, CrewEvent::Signer(Err(e))) => self.at(
                CrewStage::Over,
                CrewAct::Failed(self.kind.payer_failure(e@)),
            ),
            (CrewStage::Signer, CrewEvent::Signer(Err(e))) => self.at(
                CrewStage::Over,
                CrewAct::Failed(e@),
            ),
            (CrewStage::Owner(_), CrewEvent::Signer(Err(e))) => self.at(
                CrewStage::Over,
                CrewAct::Failed(e@),
            ),
            _ => CrewStep { state: self, act: CrewAct::Nothing },
        }
    }

    fn go_on(&mut self) -> (r: CrewAction)
        ensures
            (CrewStep { state: *final(self), act: r@ }) == old(self).reachable(),
    {
        match self.kind.owner_count() {
            Some(n) => {
                if n == 0 {
                    self.stage = CrewStage::Over;
                    return CrewAction::Failed("no signable owners for this Safe".to_string());
                }
                self.stage = CrewStage::Owner(0);
                CrewAction::BuildOwner(0)
            },
            None => {
                self.stage = CrewStage::Signer;
                CrewAction::TakeSigner
            },
        }
    }

    fn owner_joined(&mut self, i: usize) -> (r: CrewAction)
        ensures
            (CrewStep { state: *final(self), act: r@ }) == old(self).joined(i),
    {
        if let Some(n) = self.kind.owner_count() {
            if i < n && i + 1 < n {
                self.stage = CrewStage::Owner(i + 1);
                return CrewAction::BuildOwner(i + 1);
            }
        }
        match self.kind.paying_key() {
            Some(k) => {
                self.stage = CrewStage::Payer;
                CrewAction::BuildPayer(k)
            },
            None => {
                self.stage = CrewStage::Ready;
                CrewAction::Proceed
            },
        }
    }

    fn fail(&mut self, why: String) -> (r: CrewAction)
        ensures
            (CrewStep { state: *final(self), act: r@ }) == old(self).at(
                CrewStage::Over,
                CrewAct::Failed(why@),
            ),
    {
        self.stage = CrewStage::Over;
        CrewAction::Failed(why)
    }

    /// Starts to get ready, and says what is done first.
    pub fn gather(kind: CrewKind) -> (r: (Crew, CrewAction))
        ensures
            (CrewStep { state: r.0, act: r.1@ }) == Crew::begun(kind),
    {
        let mut crew = Crew { kind, stage: CrewStage::Over };
        if kind.unreachable_text().is_some() {
            crew.stage = CrewStage::Provider;
            return (crew, CrewAction::FindProvider);
        }
        let first = crew.go_on();
        (crew, first)
    }

    /// Takes in what came back and says what is to be done next.
    pub fn step(&mut self, e: CrewEvent) -> (r: CrewAction)
        ensures
            (CrewStep { state: *final(self), act: r@ }) == old(self).next(e),
    {
        match (self.stage, e) {
            (CrewStage::Provider, CrewEvent::Provider(there)) => {
                if there {
                    return self.go_on();
                }
                let why = match self.kind.unreachable_text() {
                    Some(t) => t.to_string(),
                    None => String::new(),
                };
                self.fail(why)
            },
            (CrewStage::Signer, CrewEvent::Signer(Ok(_))) => {
                self.stage = CrewStage::Ready;
                CrewAction::Proceed
            },
            (CrewStage::Owner(i), CrewEvent::Signer(Ok(_))) => self.owner_joined(i),
            (CrewStage::Payer, CrewEvent::Signer(Ok(_))) => {
                self.stage = CrewStage::Ready;
                CrewAction::Proceed
            },
            (CrewStage::Payer, CrewEvent::Signer(Err(e))) => {
                if let CrewKind::PlaceSafe { .. } = self.kind {
                    return self.fail(join2("derive executor: ", e.as_str()));
                }
                self.fail(e)
            },
            (CrewStage::Signer, CrewEvent::Signer(Err(e))) => self.fail(e),
            (CrewStage::Owner(_), CrewEvent::Signer(Err(e))) => self.fail(e),
            _ => CrewAction::Nothing,
        }
    }

    pub open spec fn has_signer(self) -> bool {
        self.stage == CrewStage::Ready && self.kind.owners() is None
    }

    /// Tells whether the lent signer was taken: it is to be put back once all is done,
    /// whatever came of it.
    pub fn holds_signer(&self) -> (b: bool)
        ensures
            b == self.has_signer(),
    {
        self.stage == CrewStage::Ready && self.kind.owner_count().is_none()
    }
}

// ── laws ────────────────────────────────────────────────────────────────────

/// The lent signer is taken only for an account, and only where the chain is
/// reachable as far as it has to be; a Safe's owners sign for the Safe, and the lent
/// signer goes back untouched.
pub proof fn law_a_safe_leaves_the_lent_signer_alone(kind: CrewKind, s: Crew, e: CrewEvent)
    ensures
        Crew::begun(kind).act is TakeSigner ==> kind.owners() is None && kind.unreachable() is None,
        s.next(e).act is TakeSigner ==> s.kind.owners() is None && e
            == CrewEvent::Provider(true),
        s.next(e).state.has_signer() ==> s.kind.owners() is None,
{
}

/// All owners are there before anything is signed: the one that is connected last has
/// the last number, and only then the payer follows or the crew is ready.
pub proof fn law_every_owner_joins(s: Crew, i: usize, e: CrewEvent)
    requires
        s.stage == CrewStage::Owner(i),
        s.kind.owners() is Some,
        i < s.kind.owners()->0,
        s.next(e).act is Proceed || s.next(e).act is BuildPayer,
    ensures
        i + 1 == s.kind.owners()->0,
        e matches CrewEvent::Signer(Ok(_)),
{
}

} // verus!
