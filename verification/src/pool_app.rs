//! The Privacy Pools app: a pane with its own state, which asks its coordinator
//! for all that needs the network (discovering pools, syncing, quotes, proofs).
//!
//! Its screens: identity setup (create or restore), a masked backup, the
//! overview of pools and pool accounts, deposit, withdraw, review, proving, and
//! a confirmation once a transaction has been broadcast.

use vstd::prelude::*;

use crate::amounts::{amount_of_text, parse_amount};
use crate::keyed::{Key, Table};
use crate::keys::Event;
use crate::names::{looks_like_name, name_shaped};
use crate::phrase::{opt_phrase, Phrase};
use crate::text::{is_blank, join, join2, join3, same_text, trim, words};
use crate::text::{joined, trimmed, words_of};
use crate::types::{address_of_hex, checksum_of, two256};
use crate::types::{checksum, div, parse_address, wrapping_mul};
use crate::types::{Address, Amount, Chain, Hash32};

verus! {

impl Key for Address {
    fn same(&self, other: &Self) -> (b: bool) {
        *self == *other
    }
}

impl Key for Chain {
    fn same(&self, other: &Self) -> (b: bool) {
        *self == *other
    }
}

// ── what the pane works with ────────────────────────────────────────────────

/// A privacy pool on one chain.
#[derive(Debug)]
pub struct PoolInfo {
    pub pool: Address,
    pub chain: Chain,
    pub scope: Amount,
    pub entrypoint: Address,
    /// The token that the pool holds; meaningless for native coin.
    pub asset: Address,
    pub is_native: bool,
    pub symbol: String,
    pub decimals: u8,
    pub min_deposit: Amount,
    pub anonymity_set: u64,
    pub verified: bool,
}

impl Clone for PoolInfo {
    fn clone(&self) -> (r: Self)
        ensures
            r == *self,
    {
        PoolInfo {
            pool: self.pool,
            chain: self.chain,
            scope: self.scope,
            entrypoint: self.entrypoint,
            asset: self.asset,
            is_native: self.is_native,
            symbol: self.symbol.clone(),
            decimals: self.decimals,
            min_deposit: self.min_deposit,
            anonymity_set: self.anonymity_set,
            verified: self.verified,
        }
    }
}

/// Copies a list of pools.
fn copy_pools(v: &Vec<PoolInfo>) -> (r: Vec<PoolInfo>)
    ensures
        r@ == v@,
{
    let mut out: Vec<PoolInfo> = Vec::new();
    let mut i: usize = 0;
    while i < v.len()
        invariant
            i <= v.len(),
            out@ == v@.take(i as int),
        decreases v.len() - i,
    {
        out.push(v[i].clone());
        assert(v@.take(i + 1) =~= v@.take(i as int).push(v@[i as int]));
        i += 1;
    }
    assert(v@.take(v@.len() as int) =~= v@);
    out
}

/// A service that submits withdrawals and pays their gas.
#[derive(Debug)]
pub struct Relayer {
    pub name: String,
    pub url: String,
}

/// A relayer's answer to a request for a quote.
#[derive(Debug)]
pub struct QuoteResponse {
    /// The fee in hundredths of a percent, where the answer names one.
    pub fee_bps: Option<u64>,
    /// The answer as it came, to be handed back with the withdrawal.
    pub raw: String,
}

impl Clone for QuoteResponse {
    fn clone(&self) -> (r: Self)
        ensures
            r == *self,
    {
        QuoteResponse { fee_bps: self.fee_bps, raw: self.raw.clone() }
    }
}

/// One account of the user's in a pool.
#[derive(Debug, Clone, Copy)]
pub struct PoolAccount {
    pub label: Hash32,
    /// The value of its unspent commitment, where there is one.
    pub spendable: Option<Amount>,
}

/// What a sync found out about a pool.
#[derive(Debug)]
pub struct PoolState {
    pub accounts: Vec<PoolAccount>,
    pub next_deposit_index: u64,
}

/// Everything that a withdrawal is made from.
#[derive(Debug)]
pub struct WithdrawRequest {
    /// The pool to withdraw from.
    pub info: PoolInfo,
    /// The account's index among the pool's accounts.
    pub account: usize,
    pub target: Address,
    pub amount: Amount,
    /// The relayer's base URL; without one the withdrawal is self-relayed.
    pub relayer: Option<String>,
}

/// How far the withdrawal target has been made out. A name, or a picked
/// contact's name, is resolved before its address can go into a proof.
#[derive(Debug)]
pub enum TargetResolution {
    Empty,
    /// Neither an address nor a name, or the zero address.
    Invalid,
    /// An address that was typed or pasted.
    Address(Address),
    /// A name that is being resolved.
    Resolving { name: String },
    /// A picked contact: its address is usable while its name is resolved
    /// again.
    AddressVerifying { pinned: Address, name: String },
    /// A name that resolved.
    Resolved { name: String, addr: Address },
    /// A name without an address record.
    NotFound { name: String },
    /// The lookup failed, so no address is trusted.
    Error { name: String, msg: String },
    /// A picked contact's name resolves to another address than the contact's;
    /// the user has to accept it.
    EnsDivergence { name: String, pinned: Address, fresh: Address },
}

/// Which operation was broadcast.
#[derive(Debug, Clone, Copy, PartialEq, Eq, Structural)]
pub enum PoolTxKind {
    Deposit,
    Withdrawal,
    Ragequit,
}

/// The pane's screens.
#[derive(Debug, Clone, Copy, PartialEq, Eq, Structural)]
pub enum Screen {
    Setup,
    Restore,
    Backup,
    Overview,
    Deposit,
    Withdraw,
    Review,
    Proving,
    Success,
}

/// What happens to the pane.
#[derive(Debug)]
pub enum Message {
    CreateIdentity,
    OpenRestore,
    RestoreInput(String),
    /// The restore form was submitted; `checked` says whether the phrase that
    /// [`PoolApp::restore_phrase`] gives is a valid mnemonic.
    RestoreSubmit { checked: Result<(), String> },
    OpenBackup,
    ToggleReveal,
    CopyPhrase,
    BackupDone,
    SelectChain(Chain),
    Refresh,
    Back,
    /// Leave the app for the launcher.
    ExitApp,
    ToggleAsp(bool),
    AspUrlInput(String),
    OpenDeposit(usize),
    DepositAmount(String),
    /// One of the preset amounts was picked.
    DepositSetAmount(String),
    DepositReview,
    OpenWithdraw(usize, usize),
    WithdrawTarget(String),
    /// A recipient was picked, with its pinned name where it has one.
    PickTarget { address: Address, ens: Option<String> },
    /// The address that a pinned name now resolves to was accepted.
    AcceptTargetDivergence,
    WithdrawAmount(String),
    /// A share of the balance was picked; `shown` is the text of the amount
    /// that [`PoolApp::percent_amount`] gives.
    WithdrawPercent { shown: String },
    SelectRelayer(usize),
    WithdrawGetQuote,
    WithdrawConfirm,
    Ragequit(usize, usize),
    CopyTxHash,
    /// The link to the transaction was asked for; `base` is the address of the
    /// active chain's block explorer.
    CopyExplorer { base: String },
    SubmittedDone,
    Key(Event),
    /// A frame of an animation.
    Tick,
}

/// What the pane asks of its coordinator.
pub enum Outcome {
    /// Make and save a new recovery phrase.
    CreateIdentity,
    /// Restore the identity from a phrase.
    RestoreIdentity(Phrase),
    /// Show the recovery phrase.
    RevealBackup,
    /// Discover the pools of a chain and sync the user's notes.
    Sync(Chain),
    /// Deposit into a pool.
    Deposit { info: PoolInfo, amount: Amount },
    /// Fetch a relayer's quote.
    Quote(WithdrawRequest),
    /// Prove the withdrawal and submit it through the relayer.
    Submit { req: WithdrawRequest, quote: QuoteResponse },
    /// Exit a pool account as its depositor.
    Ragequit { info: PoolInfo, account: usize },
    /// Copy a text to the clipboard.
    CopyText(String),
    /// Leave the app.
    Close,
}

/// The pane's state.
pub struct PoolApp {
    pub screen: Screen,
    pub has_identity: bool,
    pub chain: Chain,
    pub syncing: bool,
    /// When the running sync began.
    pub syncing_started: Option<u64>,
    pub error: Option<String>,
    /// The pools of the active chain.
    pub pools: Vec<PoolInfo>,
    /// The pools found per chain.
    pub pool_cache: Table<Chain, Vec<PoolInfo>>,
    /// What was synced per pool.
    pub states: Table<Address, PoolState>,
    /// Per pool, which of the user's labels are approved. A pool without an
    /// entry has not been checked.
    pub approvals: Table<Address, Vec<Hash32>>,
    /// The pools with a deposit under way.
    pub depositing_pools: Table<Address, ()>,
    /// When the first of those deposits began.
    pub deposit_started: Option<u64>,
    pub backup_phrase: Option<Phrase>,
    pub revealed: bool,
    pub did_copy: bool,
    pub restore_input: String,
    pub deposit_pool: usize,
    pub deposit_amount: String,
    pub withdraw_pool: usize,
    pub withdraw_account: usize,
    pub withdraw_target: String,
    pub withdraw_resolution: TargetResolution,
    /// Counts the changes of the target, so that a late result is dropped.
    pub withdraw_resolution_seq: u64,
    /// The count for which a lookup was last handed out.
    pub last_dispatched_resolve_seq: Option<u64>,
    pub withdraw_amount: String,
    pub relayers: Vec<Relayer>,
    pub relayer_sel: usize,
    pub quote: Option<QuoteResponse>,
    pub asp_enabled: bool,
    pub asp_url: String,
    pub proving_started: Option<u64>,
    pub proving_label: String,
    /// The last broadcast operation and its transaction hash.
    pub submitted: Option<(PoolTxKind, Option<String>)>,
}

// ── the model ───────────────────────────────────────────────────────────────

/// How far the target has been made out, with texts as character sequences.
pub enum Target {
    Empty,
    Invalid,
    Address(Address),
    Resolving { name: Seq<char> },
    AddressVerifying { pinned: Address, name: Seq<char> },
    Resolved { name: Seq<char>, addr: Address },
    NotFound { name: Seq<char> },
    Error { name: Seq<char>, msg: Seq<char> },
    EnsDivergence { name: Seq<char>, pinned: Address, fresh: Address },
}

impl View for TargetResolution {
    type V = Target;

    open spec fn view(&self) -> Target {
        match self {
            TargetResolution::Empty => Target::Empty,
            TargetResolution::Invalid => Target::Invalid,
            TargetResolution::Address(a) => Target::Address(*a),
            TargetResolution::Resolving { name } => Target::Resolving { name: name@ },
            TargetResolution::AddressVerifying { pinned, name } => Target::AddressVerifying {
                pinned: *pinned,
                name: name@,
            },
            TargetResolution::Resolved { name, addr } => Target::Resolved {
                name: name@,
                addr: *addr,
            },
            TargetResolution::NotFound { name } => Target::NotFound { name: name@ },
            TargetResolution::Error { name, msg } => Target::Error { name: name@, msg: msg@ },
            TargetResolution::EnsDivergence { name, pinned, fresh } => Target::EnsDivergence {
                name: name@,
                pinned: *pinned,
                fresh: *fresh,
            },
        }
    }
}

/// The text of an optional string.
pub open spec fn opt_text(o: Option<String>) -> Option<Seq<char>> {
    match o {
        Some(s) => Some(s@),
        None => None,
    }
}

/// A withdrawal request, with texts as character sequences.
pub struct RequestView {
    pub info: PoolInfo,
    pub account: usize,
    pub target: Address,
    pub amount: nat,
    pub relayer: Option<Seq<char>>,
}

impl View for WithdrawRequest {
    type V = RequestView;

    open spec fn view(&self) -> RequestView {
        RequestView {
            info: self.info,
            account: self.account,
            target: self.target,
            amount: self.amount@,
            relayer: opt_text(self.relayer),
        }
    }
}

/// A request to the coordinator, with texts as character sequences.
pub enum OutcomeView {
    CreateIdentity,
    RestoreIdentity(Seq<char>),
    RevealBackup,
    Sync(Chain),
    Deposit { info: PoolInfo, amount: nat },
    Quote(RequestView),
    Submit { req: RequestView, quote: QuoteResponse },
    Ragequit { info: PoolInfo, account: usize },
    CopyText(Seq<char>),
    Close,
}

impl View for Outcome {
    type V = OutcomeView;

    open spec fn view(&self) -> OutcomeView {
        match self {
            Outcome::CreateIdentity => OutcomeView::CreateIdentity,
            Outcome::RestoreIdentity(p) => OutcomeView::RestoreIdentity(p@),
            Outcome::RevealBackup => OutcomeView::RevealBackup,
            Outcome::Sync(c) => OutcomeView::Sync(*c),
            Outcome::Deposit { info, amount } => OutcomeView::Deposit {
                info: *info,
                amount: amount@,
            },
            Outcome::Quote(req) => OutcomeView::Quote(req@),
            Outcome::Submit { req, quote } => OutcomeView::Submit { req: req@, quote: *quote },
            Outcome::Ragequit { info, account } => OutcomeView::Ragequit {
                info: *info,
                account: *account,
            },
            Outcome::CopyText(s) => OutcomeView::CopyText(s@),
            Outcome::Close => OutcomeView::Close,
        }
    }
}

/// An optional request, viewed.
pub open spec fn opt_outcome(o: Option<Outcome>) -> Option<OutcomeView> {
    match o {
        Some(x) => Some(x@),
        None => None,
    }
}

/// The pane's state, with texts as character sequences and tables as maps.
pub struct PoolModel {
    pub screen: Screen,
    pub has_identity: bool,
    pub chain: Chain,
    pub syncing: bool,
    pub syncing_started: Option<u64>,
    pub error: Option<Seq<char>>,
    pub pools: Seq<PoolInfo>,
    pub pool_cache: Map<Chain, Vec<PoolInfo>>,
    pub states: Map<Address, PoolState>,
    pub approvals: Map<Address, Vec<Hash32>>,
    pub depositing: Map<Address, ()>,
    pub deposit_started: Option<u64>,
    pub backup_phrase: Option<Seq<char>>,
    pub revealed: bool,
    pub did_copy: bool,
    pub restore_input: Seq<char>,
    pub deposit_pool: usize,
    pub deposit_amount: Seq<char>,
    pub withdraw_pool: usize,
    pub withdraw_account: usize,
    pub withdraw_target: Seq<char>,
    pub resolution: Target,
    pub seq: u64,
    pub dispatched: Option<u64>,
    pub withdraw_amount: Seq<char>,
    pub relayers: Seq<Relayer>,
    pub relayer_sel: usize,
    pub quote: Option<QuoteResponse>,
    pub asp_enabled: bool,
    pub asp_url: Seq<char>,
    pub proving_started: Option<u64>,
    pub proving_label: Seq<char>,
    pub submitted: Option<(PoolTxKind, Option<Seq<char>>)>,
}

impl View for PoolApp {
    type V = PoolModel;

    open spec fn view(&self) -> PoolModel {
        PoolModel {
            screen: self.screen,
            has_identity: self.has_identity,
            chain: self.chain,
            syncing: self.syncing,
            syncing_started: self.syncing_started,
            error: opt_text(self.error),
            pools: self.pools@,
            pool_cache: self.pool_cache@,
            states: self.states@,
            approvals: self.approvals@,
            depositing: self.depositing_pools@,
            deposit_started: self.deposit_started,
            backup_phrase: opt_phrase(self.backup_phrase),
            revealed: self.revealed,
            did_copy: self.did_copy,
            restore_input: self.restore_input@,
            deposit_pool: self.deposit_pool,
            deposit_amount: self.deposit_amount@,
            withdraw_pool: self.withdraw_pool,
            withdraw_account: self.withdraw_account,
            withdraw_target: self.withdraw_target@,
            resolution: self.withdraw_resolution@,
            seq: self.withdraw_resolution_seq,
            dispatched: self.last_dispatched_resolve_seq,
            withdraw_amount: self.withdraw_amount@,
            relayers: self.relayers@,
            relayer_sel: self.relayer_sel,
            quote: self.quote,
            asp_enabled: self.asp_enabled,
            asp_url: self.asp_url@,
            proving_started: self.proving_started,
            proving_label: self.proving_label@,
            submitted: match self.submitted {
                Some((kind, tx)) => Some((kind, opt_text(tx))),
                None => None,
            },
        }
    }
}

/// A counter that starts over behind its largest value.
pub open spec fn next_seq(n: u64) -> u64 {
    if n == u64::MAX {
        0
    } else {
        (n + 1) as u64
    }
}

/// The address that a target stands for, where it can be used.
pub open spec fn recipient_of(t: Target) -> Option<Address> {
    match t {
        Target::Address(a) => Some(a),
        Target::Resolved { addr, .. } => Some(addr),
        Target::AddressVerifying { pinned, .. } => Some(pinned),
        _ => None,
    }
}

/// What a typed target stands for.
pub open spec fn classified(raw: Seq<char>) -> Target {
    let t = trimmed(raw);
    if t.len() == 0 {
        Target::Empty
    } else if address_of_hex(t) is Some {
        if address_of_hex(t)->0@ == 0 {
            Target::Invalid
        } else {
            Target::Address(address_of_hex(t)->0)
        }
    } else if name_shaped(t) {
        Target::Resolving { name: t }
    } else {
        Target::Invalid
    }
}

/// The target after `raw` was typed.
pub open spec fn with_target(s: PoolModel, raw: Seq<char>) -> PoolModel {
    PoolModel {
        withdraw_target: raw,
        seq: next_seq(s.seq),
        quote: None,
        resolution: classified(raw),
        ..s
    }
}

/// The target after the lookup of `name` came back with `result`.
pub open spec fn resolved_with(
    t: Target,
    name: Seq<char>,
    result: Result<Option<Address>, Seq<char>>,
) -> Target {
    match t {
        Target::Resolving { name: pending } if pending == name => match result {
            Ok(Some(addr)) => Target::Resolved { name, addr },
            Ok(None) => Target::NotFound { name },
            Err(msg) => Target::Error { name, msg },
        },
        Target::AddressVerifying { pinned, name: pending } if pending == name => match result {
            Ok(Some(fresh)) => if fresh == pinned {
                Target::Address(pinned)
            } else {
                Target::EnsDivergence { name, pinned, fresh }
            },
            _ => Target::Address(pinned),
        },
        _ => t,
    }
}

/// The address that goes into a proof, or why there is none yet.
pub open spec fn proof_target(t: Target) -> Result<Address, Seq<char>> {
    match t {
        Target::Address(a) | Target::Resolved { addr: a, .. } | Target::AddressVerifying {
            pinned: a,
            ..
        } => if a@ == 0 {
            Err("Recipient can't be the zero address"@)
        } else {
            Ok(a)
        },
        Target::Resolving { .. } => Err("Still resolving that name — try again in a moment"@),
        Target::EnsDivergence { .. } => Err(
            "That name now resolves to a different address — confirm it first"@,
        ),
        Target::NotFound { name } => Err("“"@ + name + "” has no address record"@),
        Target::Error { name, .. } => Err("Name lookup for “"@ + name + "” failed"@),
        Target::Empty | Target::Invalid => Err("Enter a valid recipient address or name"@),
    }
}

/// The withdrawal that the form describes: nothing where its pool is gone, and
/// the reason where it is not complete.
pub open spec fn request_of(s: PoolModel) -> Option<Result<RequestView, Seq<char>>> {
    if s.withdraw_pool >= s.pools.len() {
        None
    } else {
        let info = s.pools[s.withdraw_pool as int];
        let amount = amount_of_text(s.withdraw_amount, info.decimals as nat);
        match proof_target(s.resolution) {
            Err(msg) => Some(Err(msg)),
            Ok(target) => if amount is None || amount->0 == 0 {
                Some(Err("Enter a valid amount"@))
            } else if s.relayer_sel >= s.relayers.len() {
                Some(Err("no relayer available for this chain"@))
            } else {
                Some(
                    Ok(
                        RequestView {
                            info,
                            account: s.withdraw_account,
                            target,
                            amount: amount->0,
                            relayer: Some(s.relayers[s.relayer_sel as int].url@),
                        },
                    ),
                )
            },
        }
    }
}

/// The state after a message, and what the message asks of the coordinator.
pub struct Step {
    pub state: PoolModel,
    pub out: Option<OutcomeView>,
}

/// A step that asks for nothing.
pub open spec fn quiet(state: PoolModel) -> Step {
    Step { state, out: None }
}

/// A step that asks for `o`.
pub open spec fn asking(state: PoolModel, o: OutcomeView) -> Step {
    Step { state, out: Some(o) }
}

/// The state after the withdrawal form was turned into a request: where it is
/// not complete, the reason is the pane's error.
pub open spec fn after_request(s: PoolModel) -> PoolModel {
    match request_of(s) {
        Some(Err(msg)) => PoolModel { error: Some(msg), ..s },
        _ => s,
    }
}

/// A quote was asked for.
pub open spec fn quote_asked(s: PoolModel) -> Step {
    match request_of(s) {
        Some(Ok(req)) => asking(s, OutcomeView::Quote(req)),
        _ => quiet(after_request(s)),
    }
}

/// The reviewed withdrawal was confirmed: without a quote nothing happens.
pub open spec fn withdraw_confirmed(s: PoolModel) -> Step {
    match s.quote {
        None => quiet(s),
        Some(quote) => match request_of(s) {
            Some(Ok(req)) => asking(s, OutcomeView::Submit { req, quote }),
            _ => quiet(after_request(s)),
        },
    }
}

/// Leaves the confirmation for the overview, and asks for a sync.
pub open spec fn submitted_done(s: PoolModel) -> Step {
    asking(
        PoolModel { submitted: None, screen: Screen::Overview, ..s },
        OutcomeView::Sync(s.chain),
    )
}

/// One screen back.
pub open spec fn stepped_back(s: PoolModel) -> Step {
    match s.screen {
        Screen::Success => submitted_done(s),
        Screen::Deposit | Screen::Withdraw | Screen::Backup => quiet(
            PoolModel { screen: Screen::Overview, ..s },
        ),
        Screen::Review => quiet(PoolModel { screen: Screen::Withdraw, ..s }),
        _ => quiet(s),
    }
}

/// The deposit that the form describes.
pub open spec fn deposit_reviewed(s: PoolModel) -> Step {
    if s.deposit_pool >= s.pools.len() {
        quiet(s)
    } else {
        let info = s.pools[s.deposit_pool as int];
        let amount = amount_of_text(s.deposit_amount, info.decimals as nat);
        if amount is Some && amount->0 > 0 {
            asking(s, OutcomeView::Deposit { info, amount: amount->0 })
        } else {
            quiet(PoolModel { error: Some("Enter a valid amount"@), ..s })
        }
    }
}

/// Another chain: its pools come from the cache, or else have to be discovered.
pub open spec fn chain_selected(s: PoolModel, c: Chain) -> Step {
    if c == s.chain {
        quiet(s)
    } else if s.pool_cache.dom().contains(c) {
        quiet(
            PoolModel { chain: c, screen: Screen::Overview, pools: s.pool_cache[c]@, ..s },
        )
    } else {
        asking(
            PoolModel { chain: c, screen: Screen::Overview, pools: Seq::empty(), ..s },
            OutcomeView::Sync(c),
        )
    }
}

/// The phrase that the restore form holds: its words with one space between.
pub open spec fn phrase_of(s: Seq<char>) -> Seq<char> {
    joined(words_of(s), " "@)
}

/// The balance of the account that is being withdrawn from.
pub open spec fn selected_balance(s: PoolModel) -> Option<Amount> {
    if s.withdraw_pool >= s.pools.len() {
        None
    } else {
        let pool = s.pools[s.withdraw_pool as int].pool;
        if !s.states.dom().contains(pool) || s.withdraw_account
            >= s.states[pool].accounts@.len() {
            None
        } else {
            s.states[pool].accounts@[s.withdraw_account as int].spendable
        }
    }
}

/// The share of a balance that `pct` percent are.
pub open spec fn share_of(balance: nat, pct: nat) -> nat {
    ((balance * pct) % two256()) / 100
}

/// The restore form was submitted: the phrase leaves it only where it is valid.
pub open spec fn restore_submitted(s: PoolModel, checked: Result<(), String>) -> Step {
    match checked {
        Err(e) => quiet(PoolModel { error: Some("Invalid recovery phrase: "@ + e@), ..s }),
        Ok(_) => asking(
            PoolModel { restore_input: Seq::empty(), ..s },
            OutcomeView::RestoreIdentity(phrase_of(s.restore_input)),
        ),
    }
}

/// A recipient was picked: its address is usable at once, and its pinned name
/// is resolved again.
pub open spec fn target_picked(s: PoolModel, address: Address, ens: Option<Seq<char>>) -> PoolModel {
    PoolModel {
        seq: next_seq(s.seq),
        withdraw_target: checksum_of(address@),
        resolution: match ens {
            Some(name) => Target::AddressVerifying { pinned: address, name },
            None => Target::Address(address),
        },
        quote: None,
        ..s
    }
}

/// The address that a pinned name now resolves to was accepted.
pub open spec fn divergence_accepted(s: PoolModel) -> PoolModel {
    match s.resolution {
        Target::EnsDivergence { fresh, .. } => PoolModel {
            resolution: Target::Address(fresh),
            quote: None,
            ..s
        },
        _ => s,
    }
}

/// A copy request for `text`, where there is one.
pub open spec fn copying(s: PoolModel, text: Option<Seq<char>>) -> Step {
    match text {
        Some(t) => asking(s, OutcomeView::CopyText(t)),
        None => quiet(s),
    }
}

/// The hash of the broadcast transaction.
pub open spec fn submitted_hash(s: PoolModel) -> Option<Seq<char>> {
    match s.submitted {
        Some((_, tx)) => tx,
        None => None,
    }
}

/// What a message does. Every message clears the last error first.
pub open spec fn stepped(before: PoolModel, m: Message) -> Step {
    let s = PoolModel { error: None, ..before };
    match m {
        Message::CreateIdentity => asking(s, OutcomeView::CreateIdentity),
        Message::OpenRestore => quiet(PoolModel { screen: Screen::Restore, ..s }),
        Message::RestoreInput(v) => quiet(PoolModel { restore_input: v@, ..s }),
        Message::RestoreSubmit { checked } => restore_submitted(s, checked),
        Message::OpenBackup => asking(s, OutcomeView::RevealBackup),
        Message::ToggleReveal => quiet(PoolModel { revealed: !s.revealed, ..s }),
        Message::CopyPhrase => copying(PoolModel { did_copy: true, ..s }, s.backup_phrase),
        Message::BackupDone => quiet(
            PoolModel { backup_phrase: None, revealed: false, screen: Screen::Overview, ..s },
        ),
        Message::SelectChain(c) => chain_selected(s, c),
        Message::Refresh => asking(
            PoolModel { pool_cache: s.pool_cache.remove(s.chain), ..s },
            OutcomeView::Sync(s.chain),
        ),
        Message::Back => stepped_back(s),
        Message::ExitApp => asking(s, OutcomeView::Close),
        Message::ToggleAsp(on) => if on {
            asking(PoolModel { asp_enabled: true, ..s }, OutcomeView::Sync(s.chain))
        } else {
            quiet(PoolModel { asp_enabled: false, approvals: Map::empty(), ..s })
        },
        Message::AspUrlInput(v) => quiet(PoolModel { asp_url: v@, ..s }),
        Message::SubmittedDone => submitted_done(s),
        Message::Key(event) => if event.is_escape() {
            stepped_back(s)
        } else {
            quiet(s)
        },
        Message::Tick => quiet(s),
        _ => form_stepped(s, m),
    }
}

/// What a message of the deposit form, the withdrawal form or the confirmation
/// does.
pub open spec fn form_stepped(s: PoolModel, m: Message) -> Step {
    match m {
        Message::OpenDeposit(pool) => quiet(
            PoolModel {
                deposit_pool: pool,
                deposit_amount: Seq::empty(),
                screen: Screen::Deposit,
                ..s
            },
        ),
        Message::DepositAmount(v) => quiet(PoolModel { deposit_amount: v@, ..s }),
        Message::DepositSetAmount(v) => quiet(PoolModel { deposit_amount: v@, ..s }),
        Message::DepositReview => deposit_reviewed(s),
        Message::OpenWithdraw(pool, account) => quiet(
            PoolModel {
                withdraw_pool: pool,
                withdraw_account: account,
                withdraw_amount: Seq::empty(),
                screen: Screen::Withdraw,
                ..with_target(s, Seq::empty())
            },
        ),
        Message::WithdrawTarget(v) => quiet(with_target(s, v@)),
        Message::PickTarget { address, ens } => quiet(target_picked(s, address, opt_text(ens))),
        Message::AcceptTargetDivergence => quiet(divergence_accepted(s)),
        Message::WithdrawAmount(v) => quiet(PoolModel { withdraw_amount: v@, ..s }),
        Message::WithdrawPercent { shown } => if selected_balance(s) is Some {
            quiet(PoolModel { withdraw_amount: shown@, ..s })
        } else {
            quiet(s)
        },
        Message::SelectRelayer(i) => quiet(PoolModel { relayer_sel: i, ..s }),
        Message::WithdrawGetQuote => quote_asked(s),
        Message::WithdrawConfirm => withdraw_confirmed(s),
        Message::Ragequit(pool, account) => if pool < s.pools.len() {
            asking(s, OutcomeView::Ragequit { info: s.pools[pool as int], account })
        } else {
            quiet(s)
        },
        Message::CopyTxHash => copying(s, submitted_hash(s)),
        Message::CopyExplorer { base } => copying(
            s,
            match submitted_hash(s) {
                Some(tx) => Some(base@ + "/tx/"@ + tx),
                None => None,
            },
        ),
        _ => quiet(s),
    }
}

/// The identity appeared or went away.
pub open spec fn with_identity(s: PoolModel, has: bool) -> PoolModel {
    if has {
        PoolModel {
            has_identity: true,
            screen: if s.screen == Screen::Setup || s.screen == Screen::Restore {
                Screen::Overview
            } else {
                s.screen
            },
            ..s
        }
    } else {
        PoolModel {
            has_identity: false,
            screen: Screen::Setup,
            depositing: Map::empty(),
            deposit_started: None,
            approvals: Map::empty(),
            ..s
        }
    }
}

/// A quote came in.
pub open spec fn with_quote(s: PoolModel, quote: QuoteResponse) -> PoolModel {
    PoolModel { quote: Some(quote), screen: Screen::Review, ..s }
}

/// A proof is being made.
pub open spec fn with_proving(s: PoolModel, label: Seq<char>, now: u64) -> PoolModel {
    PoolModel {
        proving_started: Some(now),
        proving_label: label,
        screen: Screen::Proving,
        ..s
    }
}

/// A transaction was broadcast.
pub open spec fn with_submitted(s: PoolModel, kind: PoolTxKind, tx: Option<Seq<char>>) -> PoolModel {
    PoolModel {
        quote: None,
        proving_started: None,
        error: None,
        submitted: Some((kind, tx)),
        screen: Screen::Success,
        ..s
    }
}

/// A sync began or ended.
pub open spec fn with_syncing(s: PoolModel, syncing: bool, now: u64) -> PoolModel {
    PoolModel {
        syncing,
        syncing_started: if !syncing {
            None
        } else if s.syncing_started is Some {
            s.syncing_started
        } else {
            Some(now)
        },
        ..s
    }
}

/// The pools of `chain` were discovered.
pub open spec fn with_pools(
    s: PoolModel,
    chain: Chain,
    pools: Vec<PoolInfo>,
    relayers: Seq<Relayer>,
) -> PoolModel {
    let t = PoolModel { pool_cache: s.pool_cache.insert(chain, pools), ..s };
    if chain != s.chain {
        t
    } else if relayers.len() == 0 {
        PoolModel { pools: pools@, ..t }
    } else {
        PoolModel {
            pools: pools@,
            relayers,
            relayer_sel: if s.relayer_sel < relayers.len() {
                s.relayer_sel
            } else {
                (relayers.len() - 1) as usize
            },
            ..t
        }
    }
}

/// A pool was synced.
pub open spec fn with_state(s: PoolModel, pool: Address, state: PoolState) -> PoolModel {
    PoolModel { states: s.states.insert(pool, state), ..s }
}

/// A deposit into a pool got under way, or was confirmed.
pub open spec fn with_depositing(s: PoolModel, pool: Address, on: bool, now: u64) -> PoolModel {
    let pools = if on {
        s.depositing.insert(pool, ())
    } else {
        s.depositing.remove(pool)
    };
    PoolModel {
        depositing: pools,
        deposit_started: if on {
            if s.deposit_started is Some {
                s.deposit_started
            } else {
                Some(now)
            }
        } else if pools == Map::<Address, ()>::empty() {
            None
        } else {
            s.deposit_started
        },
        ..s
    }
}

/// The name whose lookup has not been handed out yet.
pub open spec fn lookup_due(s: PoolModel) -> Option<Seq<char>> {
    if s.dispatched == Some(s.seq) {
        None
    } else {
        match s.resolution {
            Target::Resolving { name } => Some(name),
            Target::AddressVerifying { name, .. } => Some(name),
            _ => None,
        }
    }
}

/// The lookup that was due has been handed out.
pub open spec fn lookup_taken(s: PoolModel) -> PoolModel {
    if lookup_due(s) is Some {
        PoolModel { dispatched: Some(s.seq), ..s }
    } else {
        s
    }
}

/// The lookup of `name` for the target with count `seq` came back.
pub open spec fn lookup_done(
    s: PoolModel,
    seq: u64,
    name: Seq<char>,
    result: Result<Option<Address>, Seq<char>>,
) -> PoolModel {
    if seq != s.seq {
        s
    } else {
        let t = resolved_with(s.resolution, name, result);
        PoolModel {
            resolution: t,
            quote: if recipient_of(t) == recipient_of(s.resolution) {
                s.quote
            } else {
                None
            },
            ..s
        }
    }
}

/// A lookup's result, viewed.
pub open spec fn result_text(r: Result<Option<Address>, String>) -> Result<
    Option<Address>,
    Seq<char>,
> {
    match r {
        Ok(a) => Ok(a),
        Err(e) => Err(e@),
    }
}

/// What holds of the pane at all times: the clocks of the two animations run
/// exactly while there is something to animate.
pub open spec fn clocks_agree(s: PoolModel) -> bool {
    &&& s.syncing_started is Some <==> s.syncing
    &&& s.deposit_started is Some <==> s.depositing != Map::<Address, ()>::empty()
}

/// What the coordinator sets and no message touches: the sync, the synced pools
/// and the deposits under way.
pub open spec fn background_kept(a: PoolModel, b: PoolModel) -> bool {
    &&& a.syncing == b.syncing
    &&& a.syncing_started == b.syncing_started
    &&& a.states == b.states
    &&& a.depositing == b.depositing
    &&& a.deposit_started == b.deposit_started
    &&& a.has_identity == b.has_identity
}

/// Where the background is the same, the clocks agree as before.
proof fn lemma_clocks_follow(a: PoolModel, b: PoolModel)
    requires
        background_kept(a, b),
        clocks_agree(a),
    ensures
        clocks_agree(b),
{
}

/// No message of a form touches the background.
proof fn lemma_forms_keep_background(s: PoolModel, m: Message)
    ensures
        background_kept(s, form_stepped(s, m).state),
{
}

/// No message touches the sync, the synced pools or the deposits under way, so
/// none makes a clock disagree with what it times.
pub proof fn law_messages_keep_background(s: PoolModel, m: Message)
    ensures
        background_kept(s, stepped(s, m).state),
        clocks_agree(s) ==> clocks_agree(stepped(s, m).state),
{
    let t = stepped(s, m).state;
    assert(background_kept(s, t)) by {
        lemma_forms_keep_background(PoolModel { error: None, ..s }, m);
    }
    if clocks_agree(s) {
        lemma_clocks_follow(s, t);
    }
}

// ── the pane ────────────────────────────────────────────────────────────────

/// The feed of approved deposits that is used where none is configured.
pub open spec fn default_asp_url() -> Seq<char> {
    "https://api.0xbow.io"@
}

impl PoolTxKind {
    /// The headline of the confirmation.
    pub fn title(self) -> (s: &'static str)
        ensures
            s@ == match self {
                PoolTxKind::Deposit => "Deposit submitted"@,
                PoolTxKind::Withdrawal => "Withdrawal submitted"@,
                PoolTxKind::Ragequit => "Ragequit submitted"@,
            },
    {
        match self {
            PoolTxKind::Deposit => "Deposit submitted",
            PoolTxKind::Withdrawal => "Withdrawal submitted",
            PoolTxKind::Ragequit => "Ragequit submitted",
        }
    }

    /// What the confirmation says below its headline.
    pub fn blurb(self) -> (s: &'static str)
        ensures
            s@ == match self {
                PoolTxKind::Deposit => {
                    "Your deposit is on its way into the pool. Your balance updates once it confirms."@
                },
                PoolTxKind::Withdrawal => {
                    "The relayer has submitted your withdrawal on-chain — it should confirm shortly."@
                },
                PoolTxKind::Ragequit => {
                    "Your exit is on its way on-chain. Your pool balance updates once it confirms."@
                },
            },
    {
        match self {
            PoolTxKind::Deposit => {
                "Your deposit is on its way into the pool. Your balance updates once it confirms."
            },
            PoolTxKind::Withdrawal => {
                "The relayer has submitted your withdrawal on-chain — it should confirm shortly."
            },
            PoolTxKind::Ragequit => {
                "Your exit is on its way on-chain. Your pool balance updates once it confirms."
            },
        }
    }
}

impl TargetResolution {
    /// The address that can be used, where there is one.
    pub fn recipient(&self) -> (r: Option<Address>)
        ensures
            r == recipient_of(self@),
    {
        match self {
            TargetResolution::Address(a) => Some(*a),
            TargetResolution::Resolved { addr, .. } => Some(*addr),
            TargetResolution::AddressVerifying { pinned, .. } => Some(*pinned),
            _ => None,
        }
    }
}

/// Makes out what a typed target stands for.
fn classify(raw: &str) -> (r: TargetResolution)
    ensures
        r@ == classified(raw@),
{
    let t = trim(raw);
    if t.as_str().is_empty() {
        TargetResolution::Empty
    } else {
        match parse_address(t.as_str()) {
            Some(a) => if a.is_zero() {
                TargetResolution::Invalid
            } else {
                TargetResolution::Address(a)
            },
            None => if looks_like_name(t.as_str()) {
                TargetResolution::Resolving { name: t }
            } else {
                TargetResolution::Invalid
            },
        }
    }
}

/// A pane without an identity, on Mainnet.
pub open spec fn fresh_pool(relayers: Seq<Relayer>) -> PoolModel {
    PoolModel {
        screen: Screen::Setup,
        has_identity: false,
        chain: Chain::Mainnet,
        syncing: false,
        syncing_started: None,
        error: None,
        pools: Seq::empty(),
        pool_cache: Map::empty(),
        states: Map::empty(),
        approvals: Map::empty(),
        depositing: Map::empty(),
        deposit_started: None,
        backup_phrase: None,
        revealed: false,
        did_copy: false,
        restore_input: Seq::empty(),
        deposit_pool: 0,
        deposit_amount: Seq::empty(),
        withdraw_pool: 0,
        withdraw_account: 0,
        withdraw_target: Seq::empty(),
        resolution: Target::Empty,
        seq: 0,
        dispatched: None,
        withdraw_amount: Seq::empty(),
        relayers,
        relayer_sel: 0,
        quote: None,
        asp_enabled: true,
        asp_url: default_asp_url(),
        proving_started: None,
        proving_label: Seq::empty(),
        submitted: None,
    }
}

impl PoolApp {
    /// A pane without an identity, on Mainnet.
    pub fn new(relayers: Vec<Relayer>) -> (r: PoolApp)
        ensures
            r@ == fresh_pool(relayers@),
            clocks_agree(r@),
    {
        PoolApp {
            screen: Screen::Setup,
            has_identity: false,
            chain: Chain::Mainnet,
            syncing: false,
            syncing_started: None,
            error: None,
            pools: Vec::new(),
            pool_cache: Table::new(),
            states: Table::new(),
            approvals: Table::new(),
            depositing_pools: Table::new(),
            deposit_started: None,
            backup_phrase: None,
            revealed: false,
            did_copy: false,
            restore_input: String::new(),
            deposit_pool: 0,
            deposit_amount: String::new(),
            withdraw_pool: 0,
            withdraw_account: 0,
            withdraw_target: String::new(),
            withdraw_resolution: TargetResolution::Empty,
            withdraw_resolution_seq: 0,
            last_dispatched_resolve_seq: None,
            withdraw_amount: String::new(),
            relayers,
            relayer_sel: 0,
            quote: None,
            asp_enabled: true,
            asp_url: "https://api.0xbow.io".to_owned(),
            proving_started: None,
            proving_label: String::new(),
            submitted: None,
        }
    }

    /// First open: asks for the identity and a sync.
    pub fn on_open(&self) -> (r: Option<Outcome>)
        ensures
            opt_outcome(r) == Some(OutcomeView::Sync(self@.chain)),
    {
        Some(Outcome::Sync(self.chain))
    }

    /// The identity appeared or went away. Without one, deposits under way and
    /// approvals belong to nobody.
    pub fn set_identity(&mut self, has: bool)
        ensures
            final(self)@ == with_identity(old(self)@, has),
            final(self)@ == if has {
                PoolModel {
                    has_identity: true,
                    screen: if old(self)@.screen == Screen::Setup || old(self)@.screen
                        == Screen::Restore {
                        Screen::Overview
                    } else {
                        old(self)@.screen
                    },
                    ..old(self)@
                }
            } else {
                PoolModel {
                    has_identity: false,
                    screen: Screen::Setup,
                    depositing: Map::empty(),
                    deposit_started: None,
                    approvals: Map::empty(),
                    ..old(self)@
                }
            },
            clocks_agree(old(self)@) ==> clocks_agree(final(self)@),
    {
        self.has_identity = has;
        if has {
            if self.screen == Screen::Setup || self.screen == Screen::Restore {
                self.screen = Screen::Overview;
            }
        } else {
            self.screen = Screen::Setup;
            self.depositing_pools.clear();
            self.deposit_started = None;
            self.approvals.clear();
        }
    }

    /// A sync began or ended. The clock starts with the first and stops with
    /// the last.
    pub fn set_syncing(&mut self, syncing: bool, now: u64)
        ensures
            final(self)@ == with_syncing(old(self)@, syncing, now),
            clocks_agree(old(self)@) ==> clocks_agree(final(self)@),
    {
        if !syncing {
            self.syncing_started = None;
        } else if self.syncing_started.is_none() {
            self.syncing_started = Some(now);
        }
        self.syncing = syncing;
    }

    /// Sets or clears the error line.
    pub fn set_error(&mut self, e: Option<String>)
        ensures
            final(self)@ == (PoolModel { error: opt_text(e), ..old(self)@ }),
            clocks_agree(old(self)@) ==> clocks_agree(final(self)@),
    {
        self.error = e;
    }

    /// The pools of `chain` were discovered. They show where the chain is still
    /// the active one; an empty list of relayers leaves the old one.
    pub fn set_pools(&mut self, chain: Chain, pools: Vec<PoolInfo>, relayers: Vec<Relayer>)
        ensures
            final(self)@ == with_pools(old(self)@, chain, pools, relayers@),
            clocks_agree(old(self)@) ==> clocks_agree(final(self)@),
    {
        if chain == self.chain {
            self.pools = copy_pools(&pools);
            if relayers.len() > 0 {
                if self.relayer_sel >= relayers.len() {
                    self.relayer_sel = relayers.len() - 1;
                }
                self.relayers = relayers;
            }
        }
        self.pool_cache.insert(chain, pools);
    }

    /// A pool was synced.
    pub fn set_state(&mut self, pool: Address, state: PoolState)
        ensures
            final(self)@ == with_state(old(self)@, pool, state),
            clocks_agree(old(self)@) ==> clocks_agree(final(self)@),
    {
        self.states.insert(pool, state);
    }

    /// The approved labels of a pool came in; from now on the pool counts as
    /// checked.
    pub fn set_pool_approvals(&mut self, pool: Address, approved: Vec<Hash32>)
        ensures
            final(self)@ == (PoolModel {
                approvals: old(self)@.approvals.insert(pool, approved),
                ..old(self)@
            }),
            clocks_agree(old(self)@) ==> clocks_agree(final(self)@),
    {
        self.approvals.insert(pool, approved);
    }

    /// A deposit into a pool got under way, or was confirmed. All deposits under
    /// way share one clock, which starts with the first and stops with the last.
    pub fn set_pool_depositing(&mut self, pool: Address, on: bool, now: u64)
        ensures
            final(self)@ == with_depositing(old(self)@, pool, on, now),
            clocks_agree(old(self)@) ==> clocks_agree(final(self)@),
    {
        if on {
            self.depositing_pools.insert(pool, ());
            if self.deposit_started.is_none() {
                self.deposit_started = Some(now);
            }
            assert(self.depositing_pools@.dom().contains(pool));
        } else {
            self.depositing_pools.remove(&pool);
            if self.depositing_pools.is_empty() {
                self.deposit_started = None;
            }
            proof {
                if old(self)@.depositing == Map::<Address, ()>::empty() {
                    assert(old(self)@.depositing.remove(pool) =~= Map::<Address, ()>::empty());
                }
            }
        }
    }

    /// The next unused deposit index of a pool; nothing where the pool has not
    /// been synced, so that no index is guessed.
    pub fn next_deposit_index(&self, pool: Address) -> (r: Option<u64>)
        ensures
            r == if self@.states.dom().contains(pool) {
                Some(self@.states[pool].next_deposit_index)
            } else {
                None
            },
    {
        match self.states.get(&pool) {
            Some(s) => Some(s.next_deposit_index),
            None => None,
        }
    }

    /// The configured feed of approved deposits, while it is switched on.
    pub fn asp_url(&self) -> (r: Option<String>)
        ensures
            opt_text(r) == if self@.asp_enabled && trimmed(self@.asp_url).len() > 0 {
                Some(trimmed(self@.asp_url))
            } else {
                None
            },
    {
        let url = trim(self.asp_url.as_str());
        if self.asp_enabled && !url.as_str().is_empty() {
            Some(url)
        } else {
            None
        }
    }

    /// Where pools are discovered: the configured feed or the default one,
    /// whether or not the feed is switched on.
    pub fn asp_endpoint(&self) -> (r: String)
        ensures
            r@ == if trimmed(self@.asp_url).len() > 0 {
                trimmed(self@.asp_url)
            } else {
                default_asp_url()
            },
    {
        let url = trim(self.asp_url.as_str());
        if url.as_str().is_empty() {
            "https://api.0xbow.io".to_owned()
        } else {
            url
        }
    }

    /// Leaves the proving screen for the overview.
    pub fn reset_to_overview(&mut self)
        ensures
            final(self)@ == (PoolModel {
                proving_started: None,
                screen: Screen::Overview,
                ..old(self)@
            }),
            clocks_agree(old(self)@) ==> clocks_agree(final(self)@),
    {
        self.proving_started = None;
        self.screen = Screen::Overview;
    }

    /// Opens the backup with the recovery phrase, masked.
    pub fn show_backup(&mut self, phrase: Phrase)
        ensures
            final(self)@ == (PoolModel {
                backup_phrase: Some(phrase@),
                revealed: false,
                did_copy: false,
                screen: Screen::Backup,
                ..old(self)@
            }),
            clocks_agree(old(self)@) ==> clocks_agree(final(self)@),
    {
        self.backup_phrase = Some(phrase);
        self.revealed = false;
        self.did_copy = false;
        self.screen = Screen::Backup;
    }

    /// A quote came in: review it.
    pub fn set_quote(&mut self, quote: QuoteResponse)
        ensures
            final(self)@ == (PoolModel {
                quote: Some(quote),
                screen: Screen::Review,
                ..old(self)@
            }),
            final(self)@ == with_quote(old(self)@, quote),
            clocks_agree(old(self)@) ==> clocks_agree(final(self)@),
    {
        self.quote = Some(quote);
        self.screen = Screen::Review;
    }

    /// The name that has to be looked up, with the count it belongs to. It is
    /// handed out once per change of the target.
    pub fn take_pending_resolve(&mut self) -> (r: Option<(u64, String)>)
        ensures
            final(self)@ == lookup_taken(old(self)@),
            match r {
                Some((seq, name)) => seq == old(self)@.seq && lookup_due(old(self)@) == Some(name@),
                None => lookup_due(old(self)@) is None,
            },
            clocks_agree(old(self)@) ==> clocks_agree(final(self)@),
    {
        let fresh = match self.last_dispatched_resolve_seq {
            Some(n) => n != self.withdraw_resolution_seq,
            None => true,
        };
        if !fresh {
            return None;
        }
        let name = match &self.withdraw_resolution {
            TargetResolution::Resolving { name } => name.clone(),
            TargetResolution::AddressVerifying { name, .. } => name.clone(),
            _ => {
                return None;
            },
        };
        let seq: u64 = self.withdraw_resolution_seq;
        self.last_dispatched_resolve_seq = Some(seq);
        Some((seq, name))
    }

    /// A lookup came back. A result for an earlier target is dropped; a changed
    /// recipient drops the quote, which was made for the old one.
    pub fn set_target_resolution(
        &mut self,
        seq: u64,
        name: String,
        result: Result<Option<Address>, String>,
    )
        ensures
            final(self)@ == lookup_done(old(self)@, seq, name@, result_text(result)),
            clocks_agree(old(self)@) ==> clocks_agree(final(self)@),
    {
        if seq != self.withdraw_resolution_seq {
            return;
        }
        let before = self.withdraw_resolution.recipient();
        let mut pinned: Option<Address> = None;
        let mut pending = false;
        match &self.withdraw_resolution {
            TargetResolution::Resolving { name: n } => {
                pending = same_text(n.as_str(), name.as_str());
            },
            TargetResolution::AddressVerifying { pinned: p, name: n } => {
                if same_text(n.as_str(), name.as_str()) {
                    pinned = Some(*p);
                }
            },
            _ => {},
        }
        if pending {
            self.withdraw_resolution =
            match result {
                Ok(Some(addr)) => TargetResolution::Resolved { name, addr },
                Ok(None) => TargetResolution::NotFound { name },
                Err(msg) => TargetResolution::Error { name, msg },
            };
        } else if let Some(p) = pinned {
            self.withdraw_resolution =
            match result {
                Ok(Some(fresh)) => if fresh == p {
                    TargetResolution::Address(p)
                } else {
                    TargetResolution::EnsDivergence { name, pinned: p, fresh }
                },
                // What cannot be checked again leaves the address that the user
                // picked.
                _ => TargetResolution::Address(p),
            };
        }
        let after = self.withdraw_resolution.recipient();
        let same = match (before, after) {
            (Some(a), Some(b)) => a == b,
            (None, None) => true,
            _ => false,
        };
        if !same {
            self.quote = None;
        }
    }

    /// Sets the target from what was typed.
    pub fn set_target(&mut self, raw: String)
        ensures
            final(self)@ == with_target(old(self)@, raw@),
            clocks_agree(old(self)@) ==> clocks_agree(final(self)@),
    {
        self.withdraw_resolution = classify(raw.as_str());
        self.withdraw_target = raw;
        self.withdraw_resolution_seq = self.withdraw_resolution_seq.wrapping_add(1);
        self.quote = None;
    }

    /// Enters the proving screen under a headline.
    pub fn set_proving(&mut self, label: String, now: u64)
        ensures
            final(self)@ == (PoolModel {
                proving_started: Some(now),
                proving_label: label@,
                screen: Screen::Proving,
                ..old(self)@
            }),
            final(self)@ == with_proving(old(self)@, label@, now),
            clocks_agree(old(self)@) ==> clocks_agree(final(self)@),
    {
        self.proving_started = Some(now);
        self.proving_label = label;
        self.screen = Screen::Proving;
    }

    /// A transaction was broadcast: confirm it, and ask for a sync behind it.
    pub fn set_submitted(&mut self, kind: PoolTxKind, tx: Option<String>) -> (r: Option<Outcome>)
        ensures
            final(self)@ == (PoolModel {
                quote: None,
                proving_started: None,
                error: None,
                submitted: Some((kind, opt_text(tx))),
                screen: Screen::Success,
                ..old(self)@
            }),
            final(self)@ == with_submitted(old(self)@, kind, opt_text(tx)),
            opt_outcome(r) == Some(OutcomeView::Sync(old(self)@.chain)),
            clocks_agree(old(self)@) ==> clocks_agree(final(self)@),
    {
        self.quote = None;
        self.proving_started = None;
        self.error = None;
        self.submitted = Some((kind, tx));
        self.screen = Screen::Success;
        Some(Outcome::Sync(self.chain))
    }

    /// The phrase that the restore form holds: its words with one space between.
    pub fn restore_phrase(&self) -> (r: Phrase)
        ensures
            r@ == phrase_of(self@.restore_input),
    {
        let w = words(self.restore_input.as_str());
        Phrase::new(join(&w, " "))
    }

    /// The share of the selected account's balance that `pct` percent are.
    pub fn percent_amount(&self, pct: u8) -> (r: Option<Amount>)
        ensures
            match (selected_balance(self@), r) {
                (Some(bal), Some(a)) => a@ == ((bal@ * pct as nat) % two256()) / 100,
                (None, None) => true,
                _ => false,
            },
            r matches Some(a) ==> a@ == share_of(selected_balance(self@)->0@, pct as nat),
    {
        match self.selected_account_balance() {
            Some(bal) => Some(div(wrapping_mul(bal, pct as u64), 100)),
            None => None,
        }
    }

    fn submitted_done(&mut self) -> (r: Option<Outcome>)
        ensures
            final(self)@ == submitted_done(old(self)@).state,
            opt_outcome(r) == submitted_done(old(self)@).out,
    {
        self.submitted = None;
        self.screen = Screen::Overview;
        Some(Outcome::Sync(self.chain))
    }

    fn step_back(&mut self) -> (r: Option<Outcome>)
        ensures
            final(self)@ == stepped_back(old(self)@).state,
            opt_outcome(r) == stepped_back(old(self)@).out,
    {
        match self.screen {
            Screen::Success => {
                return self.submitted_done();
            },
            Screen::Deposit | Screen::Withdraw | Screen::Backup => {
                self.screen = Screen::Overview;
            },
            Screen::Review => {
                self.screen = Screen::Withdraw;
            },
            _ => {},
        }
        None
    }

    fn select_chain(&mut self, c: Chain) -> (r: Option<Outcome>)
        ensures
            final(self)@ == chain_selected(old(self)@, c).state,
            opt_outcome(r) == chain_selected(old(self)@, c).out,
    {
        if c == self.chain {
            return None;
        }
        self.chain = c;
        self.screen = Screen::Overview;
        match self.pool_cache.get(&c) {
            Some(cached) => {
                let pools = copy_pools(cached);
                self.pools = pools;
                None
            },
            None => {
                self.pools = Vec::new();
                Some(Outcome::Sync(c))
            },
        }
    }

    fn review_deposit(&mut self) -> (r: Option<Outcome>)
        ensures
            final(self)@ == deposit_reviewed(old(self)@).state,
            opt_outcome(r) == deposit_reviewed(old(self)@).out,
    {
        if self.deposit_pool >= self.pools.len() {
            return None;
        }
        let info = self.pools[self.deposit_pool].clone();
        match parse_amount(self.deposit_amount.as_str(), info.decimals) {
            Some(amount) => {
                if !amount.is_zero() {
                    return Some(Outcome::Deposit { info, amount });
                }
            },
            None => {},
        }
        self.error = Some("Enter a valid amount".to_owned());
        None
    }

    /// Handles a message.
    pub fn update(&mut self, msg: Message) -> (r: Option<Outcome>)
        ensures
            final(self)@ == stepped(old(self)@, msg).state,
            opt_outcome(r) == stepped(old(self)@, msg).out,
            msg matches Message::PickTarget { address, .. } ==> address_of_hex(
                final(self)@.withdraw_target,
            ) == Some(address),
            clocks_agree(old(self)@) ==> clocks_agree(final(self)@),
    {
        let ghost m = msg;
        let r = self.handle(msg);
        proof {
            law_messages_keep_background(old(self)@, m);
        }
        r
    }

    fn handle(&mut self, msg: Message) -> (r: Option<Outcome>)
        ensures
            final(self)@ == stepped(old(self)@, msg).state,
            opt_outcome(r) == stepped(old(self)@, msg).out,
            msg matches Message::PickTarget { address, .. } ==> address_of_hex(
                final(self)@.withdraw_target,
            ) == Some(address),
    {
        self.error = None;
        match msg {
            Message::CreateIdentity => {
                return Some(Outcome::CreateIdentity);
            },
            Message::OpenRestore => {
                self.screen = Screen::Restore;
                return None;
            },
            Message::RestoreInput(v) => {
                self.restore_input = v;
                return None;
            },
            Message::RestoreSubmit { checked } => {
                return self.submit_restore(checked);
            },
            Message::OpenBackup => {
                return Some(Outcome::RevealBackup);
            },
            Message::ToggleReveal => {
                self.revealed = !self.revealed;
                return None;
            },
            Message::CopyPhrase => {
                self.did_copy = true;
                return match &self.backup_phrase {
                    Some(p) => Some(Outcome::CopyText(p.expose().to_owned())),
                    None => None,
                };
            },
            Message::BackupDone => {
                self.backup_phrase = None;
                self.revealed = false;
                self.screen = Screen::Overview;
                return None;
            },
            Message::SelectChain(c) => {
                return self.select_chain(c);
            },
            Message::Refresh => {
                let chain = self.chain;
                self.pool_cache.remove(&chain);
                return Some(Outcome::Sync(chain));
            },
            Message::ExitApp => {
                return Some(Outcome::Close);
            },
            Message::ToggleAsp(on) => {
                self.asp_enabled = on;
                if on {
                    return Some(Outcome::Sync(self.chain));
                }
                self.approvals.clear();
                return None;
            },
            Message::AspUrlInput(v) => {
                self.asp_url = v;
                return None;
            },
            Message::Back => {
                return self.step_back();
            },
            Message::SubmittedDone => {
                return self.submitted_done();
            },
            Message::Key(event) => {
                if event.escape() {
                    return self.step_back();
                }
                return None;
            },
            Message::Tick => {
                return None;
            },
            other => {
                return self.update_forms(other);
            },
        }
    }

    /// Handles the messages of the deposit and withdrawal forms.
    fn update_forms(&mut self, msg: Message) -> (r: Option<Outcome>)
        ensures
            final(self)@ == form_stepped(old(self)@, msg).state,
            opt_outcome(r) == form_stepped(old(self)@, msg).out,
            msg matches Message::PickTarget { address, .. } ==> address_of_hex(
                final(self)@.withdraw_target,
            ) == Some(address),
    {
        match msg {
            Message::OpenDeposit(pool) => {
                self.deposit_pool = pool;
                self.deposit_amount = String::new();
                self.screen = Screen::Deposit;
                return None;
            },
            Message::DepositAmount(v) => {
                self.deposit_amount = v;
                return None;
            },
            Message::DepositSetAmount(v) => {
                self.deposit_amount = v;
                return None;
            },
            Message::DepositReview => {
                return self.review_deposit();
            },
            Message::OpenWithdraw(pool, account) => {
                self.withdraw_pool = pool;
                self.withdraw_account = account;
                self.withdraw_amount = String::new();
                self.set_target(String::new());
                self.screen = Screen::Withdraw;
                return None;
            },
            Message::WithdrawTarget(v) => {
                self.set_target(v);
                return None;
            },
            Message::PickTarget { address, ens } => {
                self.pick_target(address, ens);
                return None;
            },
            Message::AcceptTargetDivergence => {
                self.accept_divergence();
                return None;
            },
            Message::WithdrawAmount(v) => {
                self.withdraw_amount = v;
                return None;
            },
            Message::WithdrawPercent { shown } => {
                if self.selected_account_balance().is_some() {
                    self.withdraw_amount = shown;
                    return None;
                }
                return None;
            },
            Message::SelectRelayer(i) => {
                self.relayer_sel = i;
                return None;
            },
            Message::WithdrawGetQuote => {
                return match self.build_withdraw_request() {
                    Some(req) => Some(Outcome::Quote(req)),
                    None => None,
                };
            },
            Message::WithdrawConfirm => {
                return self.confirm_withdraw();
            },
            Message::Ragequit(pool, account) => {
                if pool < self.pools.len() {
                    return Some(Outcome::Ragequit { info: self.pools[pool].clone(), account });
                }
                return None;
            },
            Message::CopyTxHash => {
                return match &self.submitted {
                    Some((_, Some(tx))) => Some(Outcome::CopyText(tx.clone())),
                    _ => None,
                };
            },
            Message::CopyExplorer { base } => {
                return match &self.submitted {
                    Some((_, Some(tx))) => Some(
                        Outcome::CopyText(join3(base.as_str(), "/tx/", tx.as_str())),
                    ),
                    _ => None,
                };
            },
            _ => {
                return None;
            },
        }
    }

    fn submit_restore(&mut self, checked: Result<(), String>) -> (r: Option<Outcome>)
        ensures
            final(self)@ == restore_submitted(old(self)@, checked).state,
            opt_outcome(r) == restore_submitted(old(self)@, checked).out,
    {
        match checked {
            Err(e) => {
                self.error = Some(join2("Invalid recovery phrase: ", e.as_str()));
                return None;
            },
            Ok(_) => {
                let phrase = self.restore_phrase();
                self.restore_input = String::new();
                return Some(Outcome::RestoreIdentity(phrase));
            },
        }
    }

    fn pick_target(&mut self, address: Address, ens: Option<String>)
        ensures
            final(self)@ == target_picked(old(self)@, address, opt_text(ens)),
            address_of_hex(final(self)@.withdraw_target) == Some(address),
    {
        self.withdraw_resolution_seq = self.withdraw_resolution_seq.wrapping_add(1);
        self.withdraw_target = checksum(address);
        self.withdraw_resolution =
        match ens {
            Some(name) => TargetResolution::AddressVerifying { pinned: address, name },
            None => TargetResolution::Address(address),
        };
        self.quote = None;
    }

    fn accept_divergence(&mut self)
        ensures
            final(self)@ == divergence_accepted(old(self)@),
    {
        let accepted = match &self.withdraw_resolution {
            TargetResolution::EnsDivergence { fresh, .. } => Some(*fresh),
            _ => None,
        };
        if let Some(fresh) = accepted {
            self.withdraw_resolution = TargetResolution::Address(fresh);
            self.quote = None;
        }
    }

    fn confirm_withdraw(&mut self) -> (r: Option<Outcome>)
        ensures
            final(self)@ == withdraw_confirmed(old(self)@).state,
            opt_outcome(r) == withdraw_confirmed(old(self)@).out,
    {
        match self.quote.clone() {
            None => None,
            Some(quote) => match self.build_withdraw_request() {
                Some(req) => Some(Outcome::Submit { req, quote }),
                None => None,
            },
        }
    }

    /// Turns the withdrawal form into a request; where it is not complete, the
    /// reason becomes the error line.
    pub fn build_withdraw_request(&mut self) -> (r: Option<WithdrawRequest>)
        ensures
            final(self)@ == after_request(old(self)@),
            match r {
                Some(req) => request_of(old(self)@) == Some(Ok::<RequestView, Seq<char>>(req@)),
                None => !(request_of(old(self)@) matches Some(Ok(_))),
            },
    {
        if self.withdraw_pool >= self.pools.len() {
            return None;
        }
        let info = self.pools[self.withdraw_pool].clone();
        let target = match self.resolved_target() {
            Ok(a) => a,
            Err(msg) => {
                self.error = Some(msg);
                return None;
            },
        };
        let amount = match parse_amount(self.withdraw_amount.as_str(), info.decimals) {
            Some(a) => a,
            None => {
                self.error = Some("Enter a valid amount".to_owned());
                return None;
            },
        };
        if amount.is_zero() {
            self.error = Some("Enter a valid amount".to_owned());
            return None;
        }
        if self.relayer_sel >= self.relayers.len() {
            self.error = Some("no relayer available for this chain".to_owned());
            return None;
        }
        let relayer = self.relayers[self.relayer_sel].url.clone();
        Some(
            WithdrawRequest {
                info,
                account: self.withdraw_account,
                target,
                amount,
                relayer: Some(relayer),
            },
        )
    }

    /// The address that goes into a proof, or why there is none yet.
    pub fn resolved_target(&self) -> (r: Result<Address, String>)
        ensures
            match r {
                Ok(a) => proof_target(self@.resolution) == Ok::<Address, Seq<char>>(a),
                Err(e) => proof_target(self@.resolution) == Err::<Address, Seq<char>>(e@),
            },
    {
        match &self.withdraw_resolution {
            TargetResolution::Address(a) => checked_target(*a),
            TargetResolution::Resolved { addr, .. } => checked_target(*addr),
            TargetResolution::AddressVerifying { pinned, .. } => checked_target(*pinned),
            TargetResolution::Resolving { .. } => Err(
                "Still resolving that name — try again in a moment".to_owned(),
            ),
            TargetResolution::EnsDivergence { .. } => Err(
                "That name now resolves to a different address — confirm it first".to_owned(),
            ),
            TargetResolution::NotFound { name } => Err(
                join3("“", name.as_str(), "” has no address record"),
            ),
            TargetResolution::Error { name, .. } => Err(
                join3("Name lookup for “", name.as_str(), "” failed"),
            ),
            TargetResolution::Empty => Err("Enter a valid recipient address or name".to_owned()),
            TargetResolution::Invalid => Err("Enter a valid recipient address or name".to_owned()),
        }
    }

    /// Whether a quote can be asked for: a usable recipient and some amount.
    pub fn can_get_quote(&self) -> (b: bool)
        ensures
            b == (recipient_of(self@.resolution) is Some && trimmed(self@.withdraw_amount).len()
                > 0),
    {
        self.withdraw_resolution.recipient().is_some() && !is_blank(self.withdraw_amount.as_str())
    }

    /// The balance of the account that is being withdrawn from.
    pub fn selected_account_balance(&self) -> (r: Option<Amount>)
        ensures
            r == selected_balance(self@),
    {
        if self.withdraw_pool >= self.pools.len() {
            return None;
        }
        match self.states.get(&self.pools[self.withdraw_pool].pool) {
            Some(state) => {
                if self.withdraw_account >= state.accounts.len() {
                    None
                } else {
                    state.accounts[self.withdraw_account].spendable
                }
            },
            None => None,
        }
    }
}

/// An address as the target of a proof: any but the zero address.
fn checked_target(a: Address) -> (r: Result<Address, String>)
    ensures
        match r {
            Ok(b) => a@ != 0 && b == a,
            Err(e) => a@ == 0 && e@ == "Recipient can't be the zero address"@,
        },
{
    if a.is_zero() {
        Err("Recipient can't be the zero address".to_owned())
    } else {
        Ok(a)
    }
}

} // verus!
