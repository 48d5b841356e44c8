//! The dashboard: its state, what can happen to it, and what it asks of the
//! program around it.

use vstd::prelude::*;

use crate::account_dropdown::AccountDropdown;
use crate::activity::IndexedTx;
use crate::amounts::Holding;
use crate::apps::{self, AppsModel, AppsPane, AppsView, NameOutcome};
use crate::clipboard::Clipboard;
use crate::contacts::{contact_views, Contact, ContactView};
use crate::contacts_settings::{ContactsPane, Focus, PaneModel};
use crate::fetch::{ConfigModel, NetworkConfig};
use crate::history::{History, HistoryModel};
use crate::identity::{
    AccountDescriptor, HardwareStatus, Identity, IdentityModel, SafeDescriptor, SafeNameCtx,
    SafeNameModel, SafeSwapCtx, SafeSwapModel, SafeTrust,
};
use crate::keyed::Table;
use crate::modal_chrome::ModalChrome;
use crate::name_writes::{opt_view, NamePhase, NameSign};
use crate::nav::Nav;
use crate::orders::{CowHost, FillModel, OrderBook, SwapFillRefresh, TrackedOrder};
use crate::pool_app::{self, fresh_pool, OutcomeView, Relayer};
use crate::portfolio::{kept_rows, LiveToken, Portfolio, PortfolioModel, Slot};
use crate::review::{GateModel, ReviewGate};
use crate::safe_queue::{QueueModel, SafeQueue};
use crate::safe_tx::Executor;
use crate::signer::{Signer, SignerDesk, SignerHandoff};
use crate::swap::{QuoteResponse, SwapDraft};
use crate::types::{short_address, short_address_of, Address, Chain, Hash32, NetworkId};

verus! {

// ── what the program around the dashboard is asked to do ────────────────────

/// What the swap dialog or the swap composer is told.
#[derive(Debug)]
pub enum SwapNotice {
    Quote(Result<QuoteResponse, String>),
    /// The order is being placed now.
    Placing,
    /// The order is placed and followed from now on.
    Tracking(String),
    /// The order is placed; the form is cleared.
    Done,
    Failed(String),
}

/// What the names app is told.
#[derive(Debug)]
pub enum NamesNotice {
    /// A write is being signed.
    Begin(NamePhase),
    /// A write failed before it was signed.
    Failed { phase: NamePhase, why: String },
    /// The answer to a read has come and is still wanted.
    Scanned,
    StatusLoaded,
    Searched(u64),
    Quoted(u32),
    /// A write has come to its end, one way or the other.
    Written(NamePhase),
}

/// Something that the program around the dashboard is to do.
pub enum Effect {
    /// Ask the verified client for a balance, to learn how it is doing.
    RefreshVerification(Address),
    FetchBalances { address: Address, network: NetworkId },
    FetchHistory { address: Address, chain: Chain },
    /// Ask the given transaction service for the queue of a Safe.
    FetchQueue { service: String, safe: Address, chain: Chain, threshold: u32 },
    LookUpName(Address),
    SaveTheme(u8),
    /// Show the Safes of the wallet in their settings once more.
    ReseedSafes,
    WriteClipboard(String),
    /// Come back after the clearing time.
    StartClearTimer(u64),
    ReadClipboard(u64),
    ClearClipboard,
    FocusRename,
    FocusContacts(Focus),
    /// Look a name up that was typed in the contact form.
    ResolveContact { seq: u64, name: String },
    /// Fill in the most that can be sent of this token.
    ApplyMax(Holding),
    /// Ask for the gas and the nonce of the send on screen.
    QuoteSend,
    /// Decode the send on screen.
    DecodeSend,
    Broadcast { handoff: SignerHandoff, desc: AccountDescriptor },
    BroadcastSafe { owners: Vec<AccountDescriptor>, executor: Executor },
    ProposeSafe { owner: AccountDescriptor },
    SendFailed(String),
    ProposeFailed(String),
    /// Tell the send dialog what became of it.
    SendDone(Result<Hash32, String>),
    ProposeDone(Result<(), String>),
    /// Go on to the last page of the send dialog after a moment.
    AdvanceSend,
    ResolveSend { seq: u64, name: String },
    /// Work out the transaction of the Safe's send on screen and simulate it.
    PrepareSafeSend,
    /// Simulate the Safe's send on screen once more.
    RetrySafeSim { delayed: bool },
    OpenContacts { address: Address, ens: Option<String> },
    /// Fetch balances once this is done.
    RefreshLater,
    Swap { host: CowHost, notice: SwapNotice },
    QuoteSwap { host: CowHost, draft: SwapDraft, user: Address },
    /// Show the review of an order.
    ReviewSwap { host: CowHost, draft: SwapDraft, quote: QuoteResponse },
    /// Show the review of a cancellation.
    ReviewCancel { host: CowHost, uid: String },
    /// Work out the calls of the order under review.
    PrepareCow { seq: u64, user: Address, draft: SwapDraft, quote: QuoteResponse },
    PlaceOrder {
        host: CowHost,
        handoff: SignerHandoff,
        desc: AccountDescriptor,
        draft: SwapDraft,
        quote: QuoteResponse,
        user: Address,
    },
    PlaceOrderSafe {
        host: CowHost,
        handoff: SignerHandoff,
        draft: SwapDraft,
        quote: QuoteResponse,
        ctx: SafeSwapCtx,
    },
    CancelOrder {
        host: CowHost,
        handoff: SignerHandoff,
        desc: AccountDescriptor,
        chain: Chain,
        uid: String,
    },
    CancelOrderSafe {
        host: CowHost,
        handoff: SignerHandoff,
        chain: Chain,
        uid: String,
        ctx: SafeSwapCtx,
    },
    PollOrder { chain: Chain, uid: String },
    FetchOrders { chain: Chain, owner: Address },
    RefetchTokens(SwapFillRefresh),
    ReadNames { owner: Address, ask: NameOutcome },
    /// Work out the call of the name write under review.
    PrepareName { seq: u64, from: Address, sign: NameSign },
    WriteName { handoff: SignerHandoff, desc: AccountDescriptor, sign: NameSign },
    WriteNameSafe { handoff: SignerHandoff, sign: NameSign, ctx: SafeNameCtx },
    Names(NamesNotice),
    /// Ask the given transaction service for a queued transaction.
    LoadDetail {
        service: String,
        safe: Address,
        chain: Chain,
        hash: Hash32,
        threshold: u32,
        delayed: bool,
    },
    SimulateInner { safe: Address, chain: Chain, hash: Hash32, delayed: bool },
    SimulateExecution {
        executor: Address,
        safe: Address,
        chain: Chain,
        hash: Hash32,
        delayed: bool,
    },
    /// Sign a queued transaction, and tell the given transaction service.
    ConfirmTx {
        service: String,
        owner: AccountDescriptor,
        safe: Address,
        chain: Chain,
        hash: Hash32,
    },
    ExecuteTx { key: Hash32, safe: Address, chain: Chain, hash: Hash32 },
    /// Sign a rejection, and propose it to the given transaction service.
    RejectTx {
        service: String,
        owner: AccountDescriptor,
        safe: Address,
        chain: Chain,
        nonce: u64,
    },
    DetailFailed(String),
    DetailDone(Result<String, String>),
    Pool(pool_app::Outcome),
}

/// What an `Effect` holds, where it is more than plain values.
pub enum Act {
    Plain(Effect),
    FetchQueue { service: Seq<char>, safe: Address, chain: Chain, threshold: u32 },
    BroadcastSafe { owners: Seq<AccountDescriptor>, executor: Executor },
    SendFailed(Seq<char>),
    ProposeFailed(Seq<char>),
    SwapFailed { host: CowHost, why: Seq<char> },
    ResolveContact { seq: u64, name: Seq<char> },
    PlaceOrderSafe {
        host: CowHost,
        handoff: SignerHandoff,
        draft: SwapDraft,
        quote: QuoteResponse,
        ctx: SafeSwapModel,
    },
    CancelOrderSafe {
        host: CowHost,
        handoff: SignerHandoff,
        chain: Chain,
        uid: String,
        ctx: SafeSwapModel,
    },
    RefetchTokens(FillModel),
    WriteNameSafe { handoff: SignerHandoff, sign: NameSign, ctx: SafeNameModel },
    NamesFailed { phase: NamePhase, why: Seq<char> },
    LoadDetail {
        service: Seq<char>,
        safe: Address,
        chain: Chain,
        hash: Hash32,
        threshold: u32,
        delayed: bool,
    },
    ConfirmTx {
        service: Seq<char>,
        owner: AccountDescriptor,
        safe: Address,
        chain: Chain,
        hash: Hash32,
    },
    RejectTx {
        service: Seq<char>,
        owner: AccountDescriptor,
        safe: Address,
        chain: Chain,
        nonce: u64,
    },
    DetailFailed(Seq<char>),
    Pool(OutcomeView),
}

impl View for Effect {
    type V = Act;

    open spec fn view(&self) -> Act {
        match *self {
            Effect::FetchQueue { service, safe, chain, threshold } => Act::FetchQueue {
                service: service@,
                safe,
                chain,
                threshold,
            },
            Effect::LoadDetail { service, safe, chain, hash, threshold, delayed } =>
                Act::LoadDetail { service: service@, safe, chain, hash, threshold, delayed },
            Effect::ConfirmTx { service, owner, safe, chain, hash } => Act::ConfirmTx {
                service: service@,
                owner,
                safe,
                chain,
                hash,
            },
            Effect::RejectTx { service, owner, safe, chain, nonce } => Act::RejectTx {
                service: service@,
                owner,
                safe,
                chain,
                nonce,
            },
            Effect::BroadcastSafe { owners, executor } => Act::BroadcastSafe {
                owners: owners@,
                executor,
            },
            Effect::SendFailed(t) => Act::SendFailed(t@),
            Effect::ProposeFailed(t) => Act::ProposeFailed(t@),
            Effect::Swap { host, notice: SwapNotice::Failed(t) } => Act::SwapFailed {
                host,
                why: t@,
            },
            Effect::ResolveContact { seq, name } => Act::ResolveContact { seq, name: name@ },
            Effect::PlaceOrderSafe { host, handoff, draft, quote, ctx } => Act::PlaceOrderSafe {
                host,
                handoff,
                draft,
                quote,
                ctx: ctx@,
            },
            Effect::CancelOrderSafe { host, handoff, chain, uid, ctx } => Act::CancelOrderSafe {
                host,
                handoff,
                chain,
                uid,
                ctx: ctx@,
            },
            Effect::RefetchTokens(f) => Act::RefetchTokens(f@),
            Effect::WriteNameSafe { handoff, sign, ctx } => Act::WriteNameSafe {
                handoff,
                sign,
                ctx: ctx@,
            },
            Effect::Names(NamesNotice::Failed { phase, why }) => Act::NamesFailed {
                phase,
                why: why@,
            },
            Effect::DetailFailed(t) => Act::DetailFailed(t@),
            Effect::Pool(o) => Act::Pool(o@),
            e => Act::Plain(e),
        }
    }
}

/// What is to be done, in order.
pub open spec fn acts(s: Seq<Effect>) -> Seq<Act> {
    Seq::new(s.len(), |i: int| s[i]@)
}

/// What the dashboard asks of the application.
#[derive(Debug)]
pub enum Outcome {
    /// Show another account.
    Switch(usize),
    /// Add an account.
    Add,
    /// Store the name of the active account.
    RenameActive(Option<String>),
    SaveContacts(Vec<Contact>),
    /// Connect the device of the active account; then open the send dialog, if so
    /// told.
    NeedsHardwareReconnect { open_send: bool },
    SetSafeServiceUrl { index: usize, url: Option<String> },
}

/// What an `Outcome` holds.
pub enum Wish {
    Switch(usize),
    Add,
    RenameActive(Option<Seq<char>>),
    SaveContacts(Seq<ContactView>),
    NeedsHardwareReconnect { open_send: bool },
    SetSafeServiceUrl { index: usize, url: Option<String> },
}

impl View for Outcome {
    type V = Wish;

    open spec fn view(&self) -> Wish {
        match *self {
            Outcome::Switch(i) => Wish::Switch(i),
            Outcome::Add => Wish::Add,
            Outcome::RenameActive(n) => Wish::RenameActive(opt_view(n)),
            Outcome::SaveContacts(v) => Wish::SaveContacts(contact_views(v@)),
            Outcome::NeedsHardwareReconnect { open_send } => Wish::NeedsHardwareReconnect {
                open_send,
            },
            Outcome::SetSafeServiceUrl { index, url } => Wish::SetSafeServiceUrl { index, url },
        }
    }
}

/// What comes of a message: things to do, and a request to the application.
pub struct Reply {
    pub effects: Vec<Effect>,
    pub outcome: Option<Outcome>,
}

/// What a `Reply` holds.
pub struct Answer {
    pub acts: Seq<Act>,
    pub wish: Option<Wish>,
}

impl View for Reply {
    type V = Answer;

    open spec fn view(&self) -> Answer {
        Answer {
            acts: acts(self.effects@),
            wish: match self.outcome {
                Some(o) => Some(o@),
                None => None,
            },
        }
    }
}

/// Nothing to do.
pub open spec fn idle() -> Answer {
    Answer { acts: Seq::empty(), wish: None }
}

/// Things to do.
pub open spec fn doing(acts: Seq<Act>) -> Answer {
    Answer { acts, wish: None }
}

/// A request to the application.
pub open spec fn wishing(w: Wish) -> Answer {
    Answer { acts: Seq::empty(), wish: Some(w) }
}

impl Reply {
    /// Nothing to do.
    pub fn idle() -> (r: Reply)
        ensures
            r@ == idle(),
    {
        let r = Reply { effects: Vec::new(), outcome: None };
        assert(r@.acts =~= Seq::<Act>::empty());
        r
    }

    /// One thing to do.
    pub fn one(e: Effect) -> (r: Reply)
        ensures
            r@ == doing(seq![e@]),
    {
        let mut v: Vec<Effect> = Vec::new();
        v.push(e);
        let r = Reply { effects: v, outcome: None };
        assert(r@.acts =~= seq![e@]);
        r
    }

    /// Two things to do.
    pub fn two(a: Effect, b: Effect) -> (r: Reply)
        ensures
            r@ == doing(seq![a@, b@]),
    {
        let mut v: Vec<Effect> = Vec::new();
        v.push(a);
        v.push(b);
        let r = Reply { effects: v, outcome: None };
        assert(r@.acts =~= seq![a@, b@]);
        r
    }

    /// Things to do.
    pub fn all(v: Vec<Effect>) -> (r: Reply)
        ensures
            r@ == doing(acts(v@)),
    {
        Reply { effects: v, outcome: None }
    }

    /// A request to the application.
    pub fn ask(o: Outcome) -> (r: Reply)
        ensures
            r@ == wishing(o@),
    {
        let r = Reply { effects: Vec::new(), outcome: Some(o) };
        assert(r@.acts =~= Seq::<Act>::empty());
        r
    }
}

// ── the state ───────────────────────────────────────────────────────────────

/// What the dialog for a send has to remember here.
#[derive(Debug, Clone, Copy, PartialEq, Eq, Structural)]
pub struct SendModal {
    /// The sender is a Safe.
    pub is_safe: bool,
    /// A signature is being made.
    pub busy: bool,
}

/// What the queue has told of a transaction.
#[derive(Debug, Clone, Copy, PartialEq, Eq, Structural)]
pub struct DetailFacts {
    pub safe_tx_hash: Hash32,
    /// 0 for a call, 1 for a delegate call.
    pub operation: u8,
    /// It has its signatures, and is the next to be executed.
    pub next_up: bool,
}

/// What the dialog for a queued transaction has to remember here.
#[derive(Debug)]
pub struct DetailModal {
    pub safe: Address,
    pub chain: Chain,
    pub version: String,
    pub trust: SafeTrust,
    /// The service that the user set, if any.
    pub service: Option<String>,
    pub safe_tx_hash: Hash32,
    pub nonce: u64,
    /// What the queue told last; nothing where it could not.
    pub facts: Option<DetailFacts>,
    /// A signature is being made or an execution sent.
    pub busy: bool,
    /// It is an execution that is being sent.
    pub executing: bool,
    /// It was executed, though the queue may not know yet.
    pub exec_submitted: bool,
}

/// The dialog over the dashboard.
#[derive(Debug)]
pub enum Modal {
    Closed,
    Send(SendModal),
    Receive(Address),
    Swap,
    AccountDropdown,
    TxDetails(IndexedTx),
    SafeTxDetail(DetailModal),
}

/// The page of the settings.
#[derive(Debug)]
pub enum SettingsPane {
    Root,
    NetworkWizard,
    Safes,
    Appearance,
    Contacts(ContactsPane),
}

/// What a `SettingsPane` holds.
pub enum SettingsModel {
    Root,
    NetworkWizard,
    Safes,
    Appearance,
    Contacts(PaneModel),
}

impl View for SettingsPane {
    type V = SettingsModel;

    open spec fn view(&self) -> SettingsModel {
        match *self {
            SettingsPane::Root => SettingsModel::Root,
            SettingsPane::NetworkWizard => SettingsModel::NetworkWizard,
            SettingsPane::Safes => SettingsModel::Safes,
            SettingsPane::Appearance => SettingsModel::Appearance,
            SettingsPane::Contacts(p) => SettingsModel::Contacts(p@),
        }
    }
}

/// How the verified client is doing.
#[derive(Debug, Clone, Copy, PartialEq, Eq, Structural)]
pub enum VerificationStatus {
    Connecting,
    Verified,
    Unverified,
}

/// The dashboard.
pub struct WalletScreen {
    pub identity: Identity,
    pub desk: SignerDesk,
    pub theme: u8,
    pub nav: Nav,
    pub modal: Modal,
    pub chrome: ModalChrome,
    pub verification: VerificationStatus,
    pub settings: SettingsPane,
    pub portfolio: Portfolio,
    /// The name being typed, while the active account is renamed.
    pub rename_draft: Option<String>,
    pub history: History,
    pub queue: SafeQueue,
    pub clipboard: Clipboard,
    pub orders: OrderBook,
    pub apps: AppsPane,
    pub gate: ReviewGate,
}

/// What a `WalletScreen` holds.
pub struct ScreenModel {
    pub identity: IdentityModel,
    pub desk: SignerDesk,
    pub theme: u8,
    pub nav: Nav,
    pub modal: Modal,
    pub chrome: ModalChrome,
    pub verification: VerificationStatus,
    pub settings: SettingsModel,
    pub portfolio: PortfolioModel,
    pub rename_draft: Option<Seq<char>>,
    pub history: HistoryModel,
    pub queue: QueueModel,
    pub clipboard: Clipboard,
    pub orders: Seq<TrackedOrder>,
    pub apps: AppsModel,
    pub gate: GateModel,
}

impl View for WalletScreen {
    type V = ScreenModel;

    open spec fn view(&self) -> ScreenModel {
        ScreenModel {
            identity: self.identity@,
            desk: self.desk,
            theme: self.theme,
            nav: self.nav,
            modal: self.modal,
            chrome: self.chrome,
            verification: self.verification,
            settings: self.settings@,
            portfolio: self.portfolio@,
            rename_draft: opt_view(self.rename_draft),
            history: self.history@,
            queue: self.queue@,
            clipboard: self.clipboard,
            orders: self.orders@,
            apps: self.apps@,
            gate: self.gate@,
        }
    }
}

/// What comes of a message.
pub struct Turn {
    pub state: ScreenModel,
    pub answer: Answer,
}

/// A change of the state and nothing else.
pub open spec fn silent(state: ScreenModel) -> Turn {
    Turn { state, answer: idle() }
}

/// What holds at the moment of a message.
#[derive(Debug)]
pub struct Env {
    /// The time in milliseconds.
    pub now: u64,
    pub config: NetworkConfig,
}

/// What an `Env` holds.
pub struct EnvModel {
    pub now: u64,
    pub config: ConfigModel,
}

impl View for Env {
    type V = EnvModel;

    open spec fn view(&self) -> EnvModel {
        EnvModel { now: self.now, config: self.config@ }
    }
}

// ── fetching ────────────────────────────────────────────────────────────────

/// Asking the verified client how it is doing, for the identity on screen.
pub open spec fn verifying(m: IdentityModel) -> Act {
    Act::Plain(Effect::RefreshVerification(m.shown()))
}

/// Fetching the balances of the identity on screen.
pub open spec fn fetching_balances(m: IdentityModel, config: ConfigModel) -> Seq<Act> {
    let n = m.balance_networks(config);
    Seq::new(
        n.len(),
        |i: int| Act::Plain(Effect::FetchBalances { address: m.shown(), network: n[i] }),
    )
}

/// Fetching the history of the identity on screen.
pub open spec fn fetching_history(m: IdentityModel, config: ConfigModel) -> Seq<Act> {
    let c = m.history_chains(config);
    Seq::new(
        c.len(),
        |i: int| Act::Plain(Effect::FetchHistory { address: m.shown(), chain: c[i] }),
    )
}

/// Fetching the queue of the Safe on screen from its transaction service, where that
/// can be done.
pub open spec fn fetching_queue(m: IdentityModel, config: ConfigModel) -> Seq<Act> {
    match m.queue_request(config) {
        Some((safe, chain, threshold)) => seq![
            Act::FetchQueue { service: m.safe()->0.service(), safe, chain, threshold },
        ],
        None => Seq::empty(),
    }
}

/// Verifying, and fetching balances.
pub open spec fn reloading(m: IdentityModel, config: ConfigModel) -> Seq<Act> {
    seq![verifying(m)] + fetching_balances(m, config)
}

/// What two lists of effects do, their sum does.
pub proof fn lemma_acts_sum(a: Seq<Effect>, b: Seq<Effect>)
    ensures
        acts(a + b) == acts(a) + acts(b),
{
    assert(acts(a + b) =~= acts(a) + acts(b));
}

impl WalletScreen {
    /// Verifying, for the identity on screen.
    pub fn refresh_verification_task(&self) -> (r: Effect)
        ensures
            r@ == verifying(self@.identity),
    {
        Effect::RefreshVerification(self.identity.display_address())
    }

    /// Fetching the balances of the identity on screen, one network at a time.
    pub fn fetch_portfolio_task(&self, config: &NetworkConfig) -> (r: Vec<Effect>)
        ensures
            acts(r@) == fetching_balances(self@.identity, config@),
    {
        let address = self.identity.display_address();
        let networks = self.identity.balance_networks(config);
        let mut out: Vec<Effect> = Vec::new();
        let mut i: usize = 0;
        while i < networks.len()
            invariant
                i <= networks.len(),
                out@.len() == i,
                forall|j: int|
                    0 <= j < i ==> (#[trigger] out@[j]) == (Effect::FetchBalances {
                        address,
                        network: networks@[j],
                    }),
            decreases networks.len() - i,
        {
            out.push(Effect::FetchBalances { address, network: networks[i] });
            i += 1;
        }
        assert(acts(out@) =~= fetching_balances(self@.identity, config@));
        out
    }

    /// Fetching the history of the identity on screen, one chain at a time.
    pub fn fetch_history_task(&self, config: &NetworkConfig) -> (r: Vec<Effect>)
        ensures
            acts(r@) == fetching_history(self@.identity, config@),
    {
        let address = self.identity.display_address();
        let chains = self.identity.history_chains(config);
        let mut out: Vec<Effect> = Vec::new();
        let mut i: usize = 0;
        while i < chains.len()
            invariant
                i <= chains.len(),
                out@.len() == i,
                forall|j: int|
                    0 <= j < i ==> (#[trigger] out@[j]) == (Effect::FetchHistory {
                        address,
                        chain: chains@[j],
                    }),
            decreases chains.len() - i,
        {
            out.push(Effect::FetchHistory { address, chain: chains[i] });
            i += 1;
        }
        assert(acts(out@) =~= fetching_history(self@.identity, config@));
        out
    }

    /// Fetching the queue of the Safe on screen. There is nothing to fetch for an
    /// account, for a Safe on an unknown chain, or where the chain has no endpoint.
    pub fn fetch_safe_pending_task(&self, config: &NetworkConfig) -> (r: Option<Effect>)
        ensures
            match r {
                Some(e) => fetching_queue(self@.identity, config@) == seq![e@],
                None => fetching_queue(self@.identity, config@).len() == 0,
            },
            r is Some <==> self@.identity.queue_request(config@) is Some,
    {
        match (self.identity.queue_request(config), self.identity.active_safe_descriptor()) {
            (Some((safe, chain, threshold)), Some(s)) => {
                let service = s.tx_service_base();
                Some(Effect::FetchQueue { service, safe, chain, threshold })
            },
            _ => None,
        }
    }

    /// Looking up a name for the active account, unless it has one.
    pub fn fetch_ens_name_task(&self) -> (r: Option<Effect>)
        ensures
            match r {
                Some(e) => e@ == Act::Plain(Effect::LookUpName(self@.identity.address))
                    && !self@.identity.named(),
                None => self@.identity.named(),
            },
    {
        if self.identity.active_index < self.identity.accounts.len()
            && self.identity.accounts[self.identity.active_index].name().is_some() {
            return None;
        }
        Some(Effect::LookUpName(self.identity.address))
    }

    /// Verifying, and fetching balances.
    pub(crate) fn reload(&self, config: &NetworkConfig) -> (r: Vec<Effect>)
        ensures
            acts(r@) == reloading(self@.identity, config@),
    {
        let first = self.refresh_verification_task();
        let mut out: Vec<Effect> = Vec::new();
        out.push(first);
        let mut more = self.fetch_portfolio_task(config);
        proof {
            lemma_acts_sum(out@, more@);
        }
        assert(acts(out@) =~= seq![first@]);
        out.append(&mut more);
        out
    }
}

impl IdentityModel {
    /// Whether the active account has a name.
    pub open spec fn named(self) -> bool {
        self.account() matches Some(a) && a.given_name() is Some
    }
}

// ── what the dashboard is like ──────────────────────────────────────────────

impl ScreenModel {
    /// A signature for a send or for a queued transaction is being made.
    pub open spec fn send_busy(self) -> bool {
        match self.modal {
            Modal::Send(p) => p.busy,
            Modal::SafeTxDetail(p) => p.busy,
            _ => false,
        }
    }

    /// Some signature is being made.
    pub open spec fn signing(self) -> bool {
        self.send_busy() || self.desk.order_op_in_flight
    }

    pub open spec fn can_swap(self) -> bool {
        self.identity.swaps(self.desk.can_sign())
    }

    /// Whether the Apps pane is offered. It stays while an order or a name write
    /// has the signer.
    pub open spec fn has_apps(self) -> bool {
        self.can_swap() || self.desk.order_op_in_flight
    }

    /// The pane that is drawn: Home in place of Apps where that is not offered.
    pub open spec fn drawn(self) -> Nav {
        if self.nav == Nav::Apps && !self.has_apps() {
            Nav::Home
        } else {
            self.nav
        }
    }

    /// The dashboard of an account that was just opened.
    pub open spec fn fresh(
        signer: Signer,
        accounts: Seq<AccountDescriptor>,
        safes: Seq<SafeDescriptor>,
        active_index: usize,
        cache: Map<Slot, Seq<LiveToken>>,
        nav: Option<Nav>,
        theme: u8,
        relayers: Seq<Relayer>,
        now: u64,
    ) -> ScreenModel {
        let address = signer.signs_for();
        ScreenModel {
            identity: IdentityModel { address, accounts, safes, active_index, active_safe: None },
            desk: SignerDesk { address, signer, order_op_in_flight: false },
            theme,
            nav: match nav {
                Some(n) => n,
                None => Nav::Home,
            },
            modal: Modal::Closed,
            chrome: ModalChrome { start: now, closing: false, open: false },
            verification: VerificationStatus::Connecting,
            settings: SettingsModel::Root,
            portfolio: PortfolioModel::started(cache, address),
            rename_draft: None,
            history: HistoryModel::empty(),
            queue: QueueModel::empty(),
            clipboard: Clipboard { clear: None, generation: 0 },
            orders: Seq::empty(),
            apps: AppsModel { view: AppsView::Launcher, pool: fresh_pool(relayers) },
            gate: GateModel { review: None, seq: 0 },
        }
    }
}

impl WalletScreen {
    /// The dashboard of an account that was just opened. It shows what the cache
    /// holds for the account until fresh balances come.
    pub fn new(
        signer: Signer,
        accounts: Vec<AccountDescriptor>,
        safes: Vec<SafeDescriptor>,
        active_index: usize,
        cache: Table<Slot, Vec<LiveToken>>,
        initial_nav: Option<Nav>,
        theme: u8,
        relayers: Vec<Relayer>,
        now: u64,
    ) -> (r: WalletScreen)
        ensures
            r@ == ScreenModel::fresh(
                signer,
                accounts@,
                safes@,
                active_index,
                kept_rows(cache@),
                initial_nav,
                theme,
                relayers@,
                now,
            ),
    {
        let address = signer.address();
        WalletScreen {
            identity: Identity { address, accounts, safes, active_index, active_safe: None },
            desk: SignerDesk { address, signer, order_op_in_flight: false },
            theme,
            nav: match initial_nav {
                Some(n) => n,
                None => Nav::Home,
            },
            modal: Modal::Closed,
            chrome: ModalChrome::new(now),
            verification: VerificationStatus::Connecting,
            settings: SettingsPane::Root,
            portfolio: Portfolio::new(cache, address),
            rename_draft: None,
            history: History::new(),
            queue: SafeQueue::new(),
            clipboard: Clipboard::new(),
            orders: OrderBook::new(),
            apps: AppsPane::new(relayers),
            gate: ReviewGate::new(),
        }
    }

    /// Hands out the signer, and the cache for the next dashboard.
    pub fn into_signer(self) -> (r: (Signer, Table<Slot, Vec<LiveToken>>))
        ensures
            r.0 == self.desk.signer,
            kept_rows(r.1@) == self@.portfolio.cache,
    {
        (self.desk.signer, self.portfolio.cache)
    }

    /// Tells whether a signature for a send or for a queued transaction is being
    /// made.
    pub fn is_send_busy(&self) -> (b: bool)
        ensures
            b == self@.send_busy(),
    {
        match &self.modal {
            Modal::Send(p) => p.busy,
            Modal::SafeTxDetail(p) => p.busy,
            _ => false,
        }
    }

    /// Tells whether some signature is being made: the dashboard must not be left
    /// then, and no other signature be started.
    pub fn is_signing_busy(&self) -> (b: bool)
        ensures
            b == self@.signing(),
    {
        self.is_send_busy() || self.desk.order_op_in_flight
    }

    /// The active address, shortened.
    pub fn address_for_log(&self) -> (r: String)
        ensures
            r@ == short_address_of(self@.identity.address),
    {
        short_address(self.identity.address)
    }

    /// The pane that was chosen.
    pub fn current_nav(&self) -> (r: Nav)
        ensures
            r == self@.nav,
    {
        self.nav
    }

    /// The pane that is drawn.
    pub fn shown_nav(&self) -> (r: Nav)
        ensures
            r == self@.drawn(),
    {
        match self.nav {
            Nav::Apps => if self.apps_available() {
                Nav::Apps
            } else {
                Nav::Home
            },
            n => n,
        }
    }

    /// Tells whether Send is offered.
    pub fn can_send(&self) -> (b: bool)
        ensures
            b == self@.identity.sends(self@.desk.can_sign()),
    {
        self.identity.can_send(self.desk.signer.can_sign())
    }

    /// Tells whether a swap can be started now.
    pub fn can_swap(&self) -> (b: bool)
        ensures
            b == self@.can_swap(),
    {
        self.identity.can_swap(self.desk.signer.can_sign())
    }

    /// Tells whether the Apps pane is offered.
    pub fn apps_available(&self) -> (b: bool)
        ensures
            b == self@.has_apps(),
    {
        self.can_swap() || self.desk.order_op_in_flight
    }

    /// The hardware device of the active account. It counts as connected while the
    /// signer is with an order.
    pub fn hardware_status(&self) -> (r: Option<HardwareStatus>)
        ensures
            r == self@.identity.device(self@.desk.can_sign() || self@.desk.order_op_in_flight),
    {
        self.identity.hardware_status(self.desk.signer.can_sign() || self.desk.order_op_in_flight)
    }

    /// The orders of the identity on screen.
    pub fn active_cow_orders(&self) -> (r: Vec<TrackedOrder>)
        ensures
            r@ == crate::orders::orders_of(self@.orders, self@.identity.shown()),
    {
        self.orders.active_cow_orders(self.identity.order_owner())
    }

    /// What went wrong with the history, where that is to be shown: nothing has
    /// come, and some chain failed. The first chain that failed tells.
    pub fn history_error(&self) -> (r: Option<String>)
        ensures
            r == if self@.history.rows.len() > 0 {
                None
            } else {
                match self@.history.errors.mainnet {
                    Some(e) => Some(e),
                    None => match self@.history.errors.optimism {
                        Some(e) => Some(e),
                        None => self@.history.errors.base,
                    },
                }
            },
    {
        if self.history.rows.len() > 0 {
            return None;
        }
        match &self.history.errors.mainnet {
            Some(e) => Some(e.clone()),
            None => match &self.history.errors.optimism {
                Some(e) => Some(e.clone()),
                None => match &self.history.errors.base {
                    Some(e) => Some(e.clone()),
                    None => None,
                },
            },
        }
    }
}

} // verus!
