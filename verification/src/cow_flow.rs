//! Placing and cancelling orders: which step follows which, and what stops the
//! sequence.

use vstd::prelude::*;

use crate::function_panel::{hex_encode, hex_of};
use crate::identity::SafeTrust;
use crate::orders::{parse_order_uid, uid_bytes, OrderKind, OrderStatus, TrackedOrder};
use crate::safe_tx::{safe_gate, signing_gate};
use crate::swap::{
    apply_slippage, full_sell, slipped, sold, CowContracts, LegCall, QuoteResponse, SwapDraft,
};
use crate::text::{has_text, join2, lower_text, lowered, occurs_in};
use crate::types::{Address, Amount, Chain, Hash32};

verus! {

// ── trying a call before it is paid for ─────────────────────────────────────

/// What a simulated call came to.
#[derive(Debug)]
pub enum SimOutcome {
    Success,
    Revert(String),
    Halt(String),
    /// The call could not be simulated.
    Unavailable,
}

/// Why the placement of an order failed.
#[derive(Debug)]
pub enum PlaceFailure {
    /// For the reason that came.
    Told(String),
    /// A call would be reverted.
    Revert(String),
    /// A call would break off.
    Halt(String),
}

impl PlaceFailure {
    pub open spec fn text(self) -> Seq<char> {
        match self {
            PlaceFailure::Told(e) => e@,
            PlaceFailure::Revert(e) => "preflight: would revert — "@ + e@,
            PlaceFailure::Halt(e) => "preflight: would fail — "@ + e@,
        }
    }

    /// The reason in words.
    pub fn message(&self) -> (r: String)
        ensures
            r@ == self.text(),
    {
        match self {
            PlaceFailure::Told(e) => e.clone(),
            PlaceFailure::Revert(e) => join2("preflight: would revert — ", e.as_str()),
            PlaceFailure::Halt(e) => join2("preflight: would fail — ", e.as_str()),
        }
    }
}

/// What a simulation says against a call: it would be reverted or break off. A
/// simulation that could not run says nothing.
pub open spec fn doomed(o: SimOutcome) -> Option<PlaceFailure> {
    match o {
        SimOutcome::Revert(e) => Some(PlaceFailure::Revert(e)),
        SimOutcome::Halt(e) => Some(PlaceFailure::Halt(e)),
        _ => None,
    }
}

/// What a simulation says against a call.
pub fn cow_preflight_sim(o: SimOutcome) -> (r: Result<(), PlaceFailure>)
    ensures
        match r {
            Ok(_) => doomed(o) is None,
            Err(f) => doomed(o) == Some(f),
        },
{
    match o {
        SimOutcome::Revert(e) => Err(PlaceFailure::Revert(e)),
        SimOutcome::Halt(e) => Err(PlaceFailure::Halt(e)),
        _ => Ok(()),
    }
}

/// Whether the order book complains about an allowance.
pub open spec fn mentions_allowance(e: Seq<char>) -> bool {
    occurs_in(lowered(e), "allowance"@)
}

/// Tells whether the order book complains about an allowance.
fn about_allowance(e: &str) -> (b: bool)
    ensures
        b == mentions_allowance(e@),
{
    let low = lower_text(e);
    has_text(low.as_str(), "allowance")
}

/// How often an order is posted again while the order book has not seen a fresh
/// approval yet.
pub const POST_RETRIES: u32 = 5;

/// How long to wait before an order is posted again, in seconds.
pub const POST_PAUSE_SECS: u64 = 3;

/// How often the chain is asked for a receipt.
pub const RECEIPT_POLLS: u32 = 40;

// ── placing ─────────────────────────────────────────────────────────────────

/// Who places the order.
#[derive(Debug, Clone, Copy, PartialEq, Eq, Structural)]
pub enum Placer {
    /// An account, with its own signer.
    Account,
    /// A Safe, with the signers of its owners.
    Safe,
}

/// What the sequence waits for.
#[derive(Debug, Clone, Copy, PartialEq, Eq, Structural)]
pub enum PlaceStage {
    Allowance,
    Nonce,
    Preflight,
    Call,
    Receipt,
    Uid,
    Signature,
    Confirmation,
    Upload,
    Post,
    Over,
}

/// What is to be done next.
#[derive(Debug)]
pub enum PlaceAction {
    /// Read how much of the token the settlement may take.
    ReadAllowance,
    ReadNonce,
    /// Simulate a call of the owner.
    Preflight { to: Address, value: Amount, call: LegCall },
    /// Send a call with the account's signer.
    SendCall { to: Address, value: Amount, call: LegCall },
    /// Make a call as the Safe, at the given nonce or at the current one.
    CallAsSafe { to: Address, value: Amount, call: LegCall, nonce: Option<u64> },
    AwaitReceipt(Hash32),
    /// Work out the identifier of the order that the contract has placed.
    DeriveUid,
    SignOrder,
    /// Ask the Safe whether it accepts the signature.
    VerifySignature,
    /// Hand the order's metadata to the order book.
    UploadAppData,
    PostOrder,
    /// Wait a little and post the order again.
    PostAgain,
    Placed(TrackedOrder),
    Failed(PlaceFailure),
    Nothing,
}

/// What came back.
#[derive(Debug)]
pub enum PlaceEvent {
    Allowance(Result<Amount, String>),
    Nonce(Result<u64, String>),
    Simulated(SimOutcome),
    Sent(Result<Hash32, String>),
    Mined(Result<(), String>),
    Uid(Result<String, String>),
    Signed(Result<(), String>),
    Confirmed(Result<(), String>),
    /// The metadata was handed over, or failed to be: neither stops the order.
    Uploaded,
    Posted(Result<String, String>),
}

/// The placement of one order.
#[derive(Debug)]
pub struct Placement {
    pub placer: Placer,
    /// The account or Safe that owns the order and receives what is bought.
    pub owner: Address,
    /// The chain on which the order is signed, posted and followed: the draft's for
    /// an account, the Safe's own for a Safe.
    pub chain: Chain,
    pub draft: SwapDraft,
    pub quote: QuoteResponse,
    pub ethflow: Address,
    /// All that the owner parts with.
    pub sells: Amount,
    /// The least that is bought.
    pub buys: Amount,
    pub stage: PlaceStage,
    /// The allowance fell short and is being raised, or was.
    pub approves: bool,
    pub nonce: Option<u64>,
    /// How often the order was posted again.
    pub retries: u32,
}

impl Placement {
    pub open spec fn call(self) -> LegCall {
        if self.draft.is_native {
            LegCall::CreateOrder
        } else {
            LegCall::ApproveMax
        }
    }

    pub open spec fn target(self) -> Address {
        if self.draft.is_native {
            self.ethflow
        } else {
            self.draft.sell_token
        }
    }

    pub open spec fn value(self) -> Amount {
        if self.draft.is_native {
            self.sells
        } else {
            Amount { hi: 0, lo: 0 }
        }
    }

    /// The order as it is followed once it is placed.
    pub open spec fn order(self, uid: String) -> TrackedOrder {
        TrackedOrder {
            uid,
            chain: self.chain,
            owner: self.owner,
            kind: OrderKind::Sell,
            sell_token: self.draft.sell_token,
            buy_token: self.draft.buy_token,
            sell_symbol: self.draft.sell_symbol,
            buy_symbol: self.draft.buy_symbol,
            sell_amount: self.draft.sell_amount,
            buy_amount: self.buys,
            sell_decimals: self.draft.sell_decimals,
            buy_decimals: self.draft.buy_decimals,
            valid_to: self.quote.quote.valid_to,
            status: OrderStatus::Open,
            executed: None,
            is_ethflow: self.draft.is_native,
        }
    }

    pub open spec fn at(self, stage: PlaceStage) -> Placement {
        Placement { stage, ..self }
    }

    pub open spec fn fails(self, f: PlaceFailure) -> (Placement, PlaceAction) {
        (self.at(PlaceStage::Over), PlaceAction::Failed(f))
    }

    pub open spec fn preflights(self) -> (Placement, PlaceAction) {
        (
            self.at(PlaceStage::Preflight),
            PlaceAction::Preflight { to: self.target(), value: self.value(), call: self.call() },
        )
    }

    pub open spec fn calls_as_safe(self) -> (Placement, PlaceAction) {
        (
            self.at(PlaceStage::Call),
            PlaceAction::CallAsSafe {
                to: self.target(),
                value: self.value(),
                call: self.call(),
                nonce: self.nonce,
            },
        )
    }

    pub open spec fn next(self, e: PlaceEvent) -> (Placement, PlaceAction) {
        match (self.stage, e) {
            (PlaceStage::Upload, PlaceEvent::Uploaded) => if !self.draft.is_native {
                (self.at(PlaceStage::Post), PlaceAction::PostOrder)
            } else if self.placer == Placer::Safe {
                (self.at(PlaceStage::Nonce), PlaceAction::ReadNonce)
            } else {
                self.preflights()
            },
            (PlaceStage::Allowance, PlaceEvent::Allowance(Ok(a))) => if a@ >= self.sells@ {
                (self.at(PlaceStage::Signature), PlaceAction::SignOrder)
            } else {
                let short = Placement { approves: true, ..self };
                if self.placer == Placer::Safe {
                    short.calls_as_safe()
                } else {
                    short.preflights()
                }
            },
            (PlaceStage::Allowance, PlaceEvent::Allowance(Err(w))) => self.fails(
                PlaceFailure::Told(w),
            ),
            (PlaceStage::Nonce, PlaceEvent::Nonce(Ok(n))) => (Placement {
                nonce: Some(n),
                ..self
            }).preflights(),
            (PlaceStage::Nonce, PlaceEvent::Nonce(Err(w))) => self.fails(PlaceFailure::Told(w)),
            (PlaceStage::Preflight, PlaceEvent::Simulated(o)) => match doomed(o) {
                Some(f) => self.fails(f),
                None => if self.placer == Placer::Safe {
                    self.calls_as_safe()
                } else {
                    (
                        self.at(PlaceStage::Call),
                        PlaceAction::SendCall {
                            to: self.target(),
                            value: self.value(),
                            call: self.call(),
                        },
                    )
                },
            },
            (PlaceStage::Call, PlaceEvent::Sent(Ok(h))) => (
                self.at(PlaceStage::Receipt),
                PlaceAction::AwaitReceipt(h),
            ),
            (PlaceStage::Call, PlaceEvent::Sent(Err(w))) => self.fails(PlaceFailure::Told(w)),
            (PlaceStage::Receipt, PlaceEvent::Mined(Ok(_))) => if self.draft.is_native {
                (self.at(PlaceStage::Uid), PlaceAction::DeriveUid)
            } else {
                (self.at(PlaceStage::Signature), PlaceAction::SignOrder)
            },
            (PlaceStage::Receipt, PlaceEvent::Mined(Err(w))) => self.fails(PlaceFailure::Told(w)),
            (PlaceStage::Uid, PlaceEvent::Uid(Ok(u))) => (
                self.at(PlaceStage::Over),
                PlaceAction::Placed(self.order(u)),
            ),
            (PlaceStage::Uid, PlaceEvent::Uid(Err(w))) => self.fails(PlaceFailure::Told(w)),
            (PlaceStage::Signature, PlaceEvent::Signed(Ok(_))) => if self.placer == Placer::Safe {
                (self.at(PlaceStage::Confirmation), PlaceAction::VerifySignature)
            } else {
                (self.at(PlaceStage::Upload), PlaceAction::UploadAppData)
            },
            (PlaceStage::Signature, PlaceEvent::Signed(Err(w))) => self.fails(
                PlaceFailure::Told(w),
            ),
            (PlaceStage::Confirmation, PlaceEvent::Confirmed(Ok(_))) => (
                self.at(PlaceStage::Upload),
                PlaceAction::UploadAppData,
            ),
            (PlaceStage::Confirmation, PlaceEvent::Confirmed(Err(w))) => self.fails(
                PlaceFailure::Told(w),
            ),
            (PlaceStage::Post, PlaceEvent::Posted(Ok(u))) => (
                self.at(PlaceStage::Over),
                PlaceAction::Placed(self.order(u)),
            ),
            (PlaceStage::Post, PlaceEvent::Posted(Err(w))) => if self.approves && self.retries
                < POST_RETRIES && mentions_allowance(w@) {
                (
                    Placement { retries: (self.retries + 1) as u32, ..self },
                    PlaceAction::PostAgain,
                )
            } else {
                self.fails(PlaceFailure::Told(w))
            },
            _ => (self, PlaceAction::Nothing),
        }
    }

    /// An order for a token is never at a step that only native coin takes, nor
    /// the other way round; and an account never at one that only a Safe takes. A
    /// Safe's nonce is known before its call is simulated, and only then.
    pub open spec fn wf(self) -> bool {
        &&& self.stage == PlaceStage::Allowance || self.stage == PlaceStage::Signature || self.stage
            == PlaceStage::Confirmation || self.stage == PlaceStage::Post ==> !self.draft.is_native
        &&& self.stage == PlaceStage::Nonce || self.stage == PlaceStage::Uid
            ==> self.draft.is_native
        &&& self.stage == PlaceStage::Nonce || self.stage == PlaceStage::Confirmation
            ==> self.placer == Placer::Safe
        &&& self.stage == PlaceStage::Preflight && self.placer == Placer::Safe
            ==> self.draft.is_native && self.nonce is Some
        &&& !self.draft.is_native ==> self.nonce is None
        &&& self.retries <= POST_RETRIES
    }

    /// A placement, before its first step.
    fn fresh(
        placer: Placer,
        owner: Address,
        chain: Chain,
        draft: &SwapDraft,
        quote: &QuoteResponse,
        contracts: &CowContracts,
    ) -> (r: Placement)
        ensures
            r.is_fresh(placer, owner, chain, *draft, *quote, *contracts),
    {
        Placement {
            placer,
            owner,
            chain,
            draft: draft.clone(),
            quote: *quote,
            ethflow: contracts.ethflow,
            sells: full_sell(&quote.quote),
            buys: apply_slippage(quote.quote.buy_amount, draft.slippage_bps),
            stage: if draft.is_native {
                PlaceStage::Upload
            } else {
                PlaceStage::Allowance
            },
            approves: false,
            nonce: None,
            retries: 0,
        }
    }

    /// Whether this is the placement of a draft and a quote before its first
    /// step.
    pub open spec fn is_fresh(
        self,
        placer: Placer,
        owner: Address,
        chain: Chain,
        draft: SwapDraft,
        quote: QuoteResponse,
        contracts: CowContracts,
    ) -> bool {
        &&& self.placer == placer
        &&& self.owner == owner
        &&& self.chain == chain
        &&& self.draft == draft
        &&& self.quote == quote
        &&& self.ethflow == contracts.ethflow
        &&& self.sells@ == sold(quote.quote)
        &&& self.buys@ == slipped(quote.quote.buy_amount@, draft.slippage_bps as nat)
        &&& self.stage == if draft.is_native {
            PlaceStage::Upload
        } else {
            PlaceStage::Allowance
        }
        &&& !self.approves
        &&& self.nonce is None
        &&& self.retries == 0
    }

    pub open spec fn first(self) -> PlaceAction {
        if self.draft.is_native {
            PlaceAction::UploadAppData
        } else {
            PlaceAction::ReadAllowance
        }
    }

    /// Starts an order of an account.
    pub fn cow_place_order(
        draft: &SwapDraft,
        quote: &QuoteResponse,
        user: Address,
        contracts: &CowContracts,
    ) -> (r: (Placement, PlaceAction))
        ensures
            r.0.is_fresh(Placer::Account, user, draft.chain, *draft, *quote, *contracts),
            r.1 == r.0.first(),
    {
        let p = Placement::fresh(Placer::Account, user, draft.chain, draft, quote, contracts);
        let a = if p.draft.is_native {
            PlaceAction::UploadAppData
        } else {
            PlaceAction::ReadAllowance
        };
        (p, a)
    }

    /// Starts an order of a Safe, where signing is open for it. The order is placed on
    /// the Safe's chain, whatever chain it was drafted for.
    pub fn cow_place_order_safe(
        draft: &SwapDraft,
        quote: &QuoteResponse,
        safe: Address,
        chain: Chain,
        trust: SafeTrust,
        version: &str,
        contracts: &CowContracts,
    ) -> (r: (Placement, PlaceAction))
        ensures
            match safe_gate(trust, version@) {
                Some(e) => {
                    &&& r.0.stage == PlaceStage::Over
                    &&& r.1 matches PlaceAction::Failed(f) && f.text() == e
                },
                None => {
                    &&& r.0.is_fresh(Placer::Safe, safe, chain, *draft, *quote, *contracts)
                    &&& r.1 == r.0.first()
                },
            },
    {
        let mut p = Placement::fresh(Placer::Safe, safe, chain, draft, quote, contracts);
        match signing_gate(trust, version) {
            Ok(_) => {
                let a = if p.draft.is_native {
                    PlaceAction::UploadAppData
                } else {
                    PlaceAction::ReadAllowance
                };
                (p, a)
            },
            Err(e) => {
                p.stage = PlaceStage::Over;
                (p, PlaceAction::Failed(PlaceFailure::Told(e)))
            },
        }
    }

    fn fail(&mut self, f: PlaceFailure) -> (r: PlaceAction)
        ensures
            (*final(self), r) == old(self).fails(f),
    {
        self.stage = PlaceStage::Over;
        PlaceAction::Failed(f)
    }

    fn leg(&self) -> (r: (Address, Amount, LegCall))
        ensures
            r == (self.target(), self.value(), self.call()),
    {
        if self.draft.is_native {
            (self.ethflow, self.sells, LegCall::CreateOrder)
        } else {
            (self.draft.sell_token, Amount { hi: 0, lo: 0 }, LegCall::ApproveMax)
        }
    }

    fn preflight(&mut self) -> (r: PlaceAction)
        ensures
            (*final(self), r) == old(self).preflights(),
    {
        let (to, value, call) = self.leg();
        self.stage = PlaceStage::Preflight;
        PlaceAction::Preflight { to, value, call }
    }

    fn call_as_safe(&mut self) -> (r: PlaceAction)
        ensures
            (*final(self), r) == old(self).calls_as_safe(),
    {
        let (to, value, call) = self.leg();
        self.stage = PlaceStage::Call;
        PlaceAction::CallAsSafe { to, value, call, nonce: self.nonce }
    }

    fn track(&self, uid: String) -> (r: TrackedOrder)
        ensures
            r == self.order(uid),
    {
        TrackedOrder {
            uid,
            chain: self.chain,
            owner: self.owner,
            kind: OrderKind::Sell,
            sell_token: self.draft.sell_token,
            buy_token: self.draft.buy_token,
            sell_symbol: self.draft.sell_symbol.clone(),
            buy_symbol: self.draft.buy_symbol.clone(),
            sell_amount: self.draft.sell_amount,
            buy_amount: self.buys,
            sell_decimals: self.draft.sell_decimals,
            buy_decimals: self.draft.buy_decimals,
            valid_to: self.quote.quote.valid_to,
            status: OrderStatus::Open,
            executed: None,
            is_ethflow: self.draft.is_native,
        }
    }

    /// Takes in what came back and says what is to be done next.
    pub fn step(&mut self, e: PlaceEvent) -> (r: PlaceAction)
        ensures
            (*final(self), r) == old(self).next(e),
    {
        match (self.stage, e) {
            (PlaceStage::Upload, PlaceEvent::Uploaded) => {
                if !self.draft.is_native {
                    self.stage = PlaceStage::Post;
                    return PlaceAction::PostOrder;
                }
                match self.placer {
                    Placer::Safe => {
                        self.stage = PlaceStage::Nonce;
                        PlaceAction::ReadNonce
                    },
                    Placer::Account => self.preflight(),
                }
            },
            (PlaceStage::Allowance, PlaceEvent::Allowance(Ok(a))) => {
                if !a.less(&self.sells) {
                    self.stage = PlaceStage::Signature;
                    return PlaceAction::SignOrder;
                }
                self.approves = true;
                match self.placer {
                    Placer::Safe => self.call_as_safe(),
                    Placer::Account => self.preflight(),
                }
            },
            (PlaceStage::Allowance, PlaceEvent::Allowance(Err(w))) => self.fail(
                PlaceFailure::Told(w),
            ),
            (PlaceStage::Nonce, PlaceEvent::Nonce(Ok(n))) => {
                self.nonce = Some(n);
                self.preflight()
            },
            (PlaceStage::Nonce, PlaceEvent::Nonce(Err(w))) => self.fail(PlaceFailure::Told(w)),
            (PlaceStage::Preflight, PlaceEvent::Simulated(o)) => match cow_preflight_sim(o) {
                Err(f) => self.fail(f),
                Ok(_) => match self.placer {
                    Placer::Safe => self.call_as_safe(),
                    Placer::Account => {
                        let (to, value, call) = self.leg();
                        self.stage = PlaceStage::Call;
                        PlaceAction::SendCall { to, value, call }
                    },
                },
            },
            (PlaceStage::Call, PlaceEvent::Sent(Ok(h))) => {
                self.stage = PlaceStage::Receipt;
                PlaceAction::AwaitReceipt(h)
            },
            (PlaceStage::Call, PlaceEvent::Sent(Err(w))) => self.fail(PlaceFailure::Told(w)),
            (PlaceStage::Receipt, PlaceEvent::Mined(Ok(_))) => if self.draft.is_native {
                self.stage = PlaceStage::Uid;
                PlaceAction::DeriveUid
            } else {
                self.stage = PlaceStage::Signature;
                PlaceAction::SignOrder
            },
            (PlaceStage::Receipt, PlaceEvent::Mined(Err(w))) => self.fail(PlaceFailure::Told(w)),
            (PlaceStage::Uid, PlaceEvent::Uid(Ok(u))) => {
                let o = self.track(u);
                self.stage = PlaceStage::Over;
                PlaceAction::Placed(o)
            },
            (PlaceStage::Uid, PlaceEvent::Uid(Err(w))) => self.fail(PlaceFailure::Told(w)),
            (PlaceStage::Signature, PlaceEvent::Signed(Ok(_))) => match self.placer {
                Placer::Safe => {
                    self.stage = PlaceStage::Confirmation;
                    PlaceAction::VerifySignature
                },
                Placer::Account => {
                    self.stage = PlaceStage::Upload;
                    PlaceAction::UploadAppData
                },
            },
            (PlaceStage::Signature, PlaceEvent::Signed(Err(w))) => self.fail(
                PlaceFailure::Told(w),
            ),
            (PlaceStage::Confirmation, PlaceEvent::Confirmed(Ok(_))) => {
                self.stage = PlaceStage::Upload;
                PlaceAction::UploadAppData
            },
            (PlaceStage::Confirmation, PlaceEvent::Confirmed(Err(w))) => self.fail(
                PlaceFailure::Told(w),
            ),
            (PlaceStage::Post, PlaceEvent::Posted(Ok(u))) => {
                let o = self.track(u);
                self.stage = PlaceStage::Over;
                PlaceAction::Placed(o)
            },
            (PlaceStage::Post, PlaceEvent::Posted(Err(w))) => {
                if self.approves && self.retries < POST_RETRIES && about_allowance(w.as_str()) {
                    self.retries = self.retries + 1;
                    PlaceAction::PostAgain
                } else {
                    self.fail(PlaceFailure::Told(w))
                }
            },
            _ => PlaceAction::Nothing,
        }
    }
}

// ── what is handed to the order book ────────────────────────────────────────

/// An order as it is handed to the order book.
#[derive(Debug)]
pub struct OrderCreation {
    pub sell_token: Address,
    pub buy_token: Address,
    pub receiver: Address,
    pub sell_amount: Amount,
    pub buy_amount: Amount,
    pub valid_to: u32,
    pub app_data: String,
    pub app_data_hash: String,
    pub fee_amount: Amount,
    pub kind: &'static str,
    pub partially_fillable: bool,
    pub sell_token_balance: &'static str,
    pub buy_token_balance: &'static str,
    pub signing_scheme: &'static str,
    pub signature: String,
    pub from: Address,
    pub quote_id: Option<i64>,
}

/// How an owner's signature is checked: an account's by its key, a Safe's by the
/// Safe itself.
pub open spec fn scheme(p: Placer) -> Seq<char> {
    match p {
        Placer::Account => "eip712"@,
        Placer::Safe => "eip1271"@,
    }
}

/// How an owner's signature is checked.
pub fn signing_scheme(p: Placer) -> (r: &'static str)
    ensures
        r@ == scheme(p),
{
    match p {
        Placer::Account => "eip712",
        Placer::Safe => "eip1271",
    }
}

/// Whether this is what the order book is handed for a placement.
pub open spec fn posts(
    r: OrderCreation,
    p: Placement,
    app_data: String,
    app_data_hash: String,
    signature: Seq<u8>,
) -> bool {
    &&& r.sell_token == p.draft.sell_token
    &&& r.buy_token == p.draft.buy_token
    &&& r.receiver == p.owner
    &&& r.sell_amount == p.sells
    &&& r.buy_amount == p.buys
    &&& r.valid_to == p.quote.quote.valid_to
    &&& r.app_data == app_data
    &&& r.app_data_hash == app_data_hash
    &&& r.fee_amount@ == 0
    &&& r.kind@ == "sell"@
    &&& !r.partially_fillable
    &&& r.sell_token_balance@ == "erc20"@
    &&& r.buy_token_balance@ == "erc20"@
    &&& r.signing_scheme@ == scheme(p.placer)
    &&& r.signature@ == "0x"@ + hex_of(signature)
    &&& r.from == p.owner
    &&& r.quote_id == p.quote.id
}

impl Placement {
    /// The order as it is handed to the order book, with the metadata whose hash
    /// was signed.
    pub fn order_creation(&self, app_data: String, app_data_hash: String, signature: &Vec<u8>) -> (r:
        OrderCreation)
        ensures
            r.sell_token == self.draft.sell_token,
            r.buy_token == self.draft.buy_token,
            r.receiver == self.owner,
            r.sell_amount == self.sells,
            r.buy_amount == self.buys,
            r.valid_to == self.quote.quote.valid_to,
            r.app_data == app_data,
            r.app_data_hash == app_data_hash,
            r.fee_amount@ == 0,
            r.kind@ == "sell"@,
            !r.partially_fillable,
            r.sell_token_balance@ == "erc20"@,
            r.buy_token_balance@ == "erc20"@,
            r.signing_scheme@ == scheme(self.placer),
            r.signature@ == "0x"@ + hex_of(signature@),
            r.from == self.owner,
            r.quote_id == self.quote.id,
            posts(r, *self, app_data, app_data_hash, signature@),
    {
        let hex = hex_encode(signature);
        OrderCreation {
            sell_token: self.draft.sell_token,
            buy_token: self.draft.buy_token,
            receiver: self.owner,
            sell_amount: self.sells,
            buy_amount: self.buys,
            valid_to: self.quote.quote.valid_to,
            app_data,
            app_data_hash,
            fee_amount: Amount::zero(),
            kind: "sell",
            partially_fillable: false,
            sell_token_balance: "erc20",
            buy_token_balance: "erc20",
            signing_scheme: signing_scheme(self.placer),
            signature: join2("0x", hex.as_str()),
            from: self.owner,
            quote_id: self.quote.id,
        }
    }
}

// ── cancelling ──────────────────────────────────────────────────────────────

/// A cancellation as it is handed to the order book.
#[derive(Debug)]
pub struct CancellationBody {
    pub order_uid: String,
    pub signature: String,
    pub signing_scheme: &'static str,
}

/// Whether this is what the order book is handed to cancel an order.
pub open spec fn withdraws(
    r: CancellationBody,
    uid: Seq<char>,
    signature: Seq<u8>,
    placer: Placer,
) -> bool {
    &&& r.order_uid@ == uid
    &&& r.signature@ == "0x"@ + hex_of(signature)
    &&& r.signing_scheme@ == scheme(placer)
}

/// The cancellation of an order, as it is handed to the order book.
pub fn cancellation_body(uid: &str, signature: &Vec<u8>, placer: Placer) -> (r: CancellationBody)
    ensures
        r.order_uid@ == uid@,
        r.signature@ == "0x"@ + hex_of(signature@),
        r.signing_scheme@ == scheme(placer),
        withdraws(r, uid@, signature@, placer),
{
    let hex = hex_encode(signature);
    CancellationBody {
        order_uid: uid.to_string(),
        signature: join2("0x", hex.as_str()),
        signing_scheme: signing_scheme(placer),
    }
}

/// What a cancellation waits for.
#[derive(Debug, Clone, Copy, PartialEq, Eq, Structural)]
pub enum CancelStage {
    Signature,
    Confirmation,
    Deletion,
    Over,
}

/// What is to be done next.
#[derive(Debug)]
pub enum CancelAction {
    /// Sign the cancellation of the order with these bytes.
    Sign(Vec<u8>),
    /// Ask the Safe whether it accepts the signature.
    VerifySignature,
    /// Hand the cancellation to the order book.
    DeleteOrder,
    Cancelled,
    Failed(String),
    Nothing,
}

/// What came back: what was done last worked, or failed.
#[derive(Debug)]
pub enum CancelEvent {
    Signed(Result<(), String>),
    Confirmed(Result<(), String>),
    Deleted(Result<(), String>),
}

/// The cancellation of one order.
#[derive(Debug, Clone, Copy, PartialEq, Eq, Structural)]
pub struct Cancellation {
    pub placer: Placer,
    pub stage: CancelStage,
}

impl Cancellation {
    pub open spec fn next(self, e: CancelEvent) -> (Cancellation, CancelAction) {
        let over = Cancellation { stage: CancelStage::Over, ..self };
        match (self.stage, e) {
            (CancelStage::Signature, CancelEvent::Signed(Ok(_))) => if self.placer == Placer::Safe {
                (
                    Cancellation { stage: CancelStage::Confirmation, ..self },
                    CancelAction::VerifySignature,
                )
            } else {
                (
                    Cancellation { stage: CancelStage::Deletion, ..self },
                    CancelAction::DeleteOrder,
                )
            },
            (CancelStage::Signature, CancelEvent::Signed(Err(w))) => (over, CancelAction::Failed(w)),
            (CancelStage::Confirmation, CancelEvent::Confirmed(Ok(_))) => (
                Cancellation { stage: CancelStage::Deletion, ..self },
                CancelAction::DeleteOrder,
            ),
            (CancelStage::Confirmation, CancelEvent::Confirmed(Err(w))) => (
                over,
                CancelAction::Failed(w),
            ),
            (CancelStage::Deletion, CancelEvent::Deleted(Ok(_))) => (over, CancelAction::Cancelled),
            (CancelStage::Deletion, CancelEvent::Deleted(Err(w))) => (over, CancelAction::Failed(w)),
            _ => (self, CancelAction::Nothing),
        }
    }

    /// Only a Safe is asked whether it accepts a signature.
    pub open spec fn wf(self) -> bool {
        self.stage == CancelStage::Confirmation ==> self.placer == Placer::Safe
    }

    /// Starts the cancellation of an order: its identifier has to be one.
    pub fn cow_cancel(uid: &str, placer: Placer) -> (r: (Cancellation, CancelAction))
        ensures
            r.0.wf(),
            r.0.placer == placer,
            match r.1 {
                CancelAction::Sign(b) => uid_bytes(uid@) == Ok::<Seq<u8>, Seq<char>>(b@)
                    && r.0.stage == CancelStage::Signature,
                CancelAction::Failed(e) => uid_bytes(uid@) == Err::<Seq<u8>, Seq<char>>(e@)
                    && r.0.stage == CancelStage::Over,
                _ => false,
            },
    {
        match parse_order_uid(uid) {
            Ok(b) => (
                Cancellation { placer, stage: CancelStage::Signature },
                CancelAction::Sign(b),
            ),
            Err(e) => (Cancellation { placer, stage: CancelStage::Over }, CancelAction::Failed(e)),
        }
    }

    /// Takes in what came back and says what is to be done next.
    pub fn step(&mut self, e: CancelEvent) -> (r: CancelAction)
        ensures
            (*final(self), r) == old(self).next(e),
    {
        match (self.stage, e) {
            (CancelStage::Signature, CancelEvent::Signed(Ok(_))) => match self.placer {
                Placer::Safe => {
                    self.stage = CancelStage::Confirmation;
                    CancelAction::VerifySignature
                },
                Placer::Account => {
                    self.stage = CancelStage::Deletion;
                    CancelAction::DeleteOrder
                },
            },
            (CancelStage::Signature, CancelEvent::Signed(Err(w))) => {
                self.stage = CancelStage::Over;
                CancelAction::Failed(w)
            },
            (CancelStage::Confirmation, CancelEvent::Confirmed(Ok(_))) => {
                self.stage = CancelStage::Deletion;
                CancelAction::DeleteOrder
            },
            (CancelStage::Confirmation, CancelEvent::Confirmed(Err(w))) => {
                self.stage = CancelStage::Over;
                CancelAction::Failed(w)
            },
            (CancelStage::Deletion, CancelEvent::Deleted(Ok(_))) => {
                self.stage = CancelStage::Over;
                CancelAction::Cancelled
            },
            (CancelStage::Deletion, CancelEvent::Deleted(Err(w))) => {
                self.stage = CancelStage::Over;
                CancelAction::Failed(w)
            },
            _ => CancelAction::Nothing,
        }
    }
}

// ── laws ────────────────────────────────────────────────────────────────────

/// A placement is in order from its start, and every step keeps it so.
pub proof fn law_placements_stay_in_order(
    p: Placement,
    e: PlaceEvent,
    placer: Placer,
    owner: Address,
    chain: Chain,
    draft: SwapDraft,
    quote: QuoteResponse,
    contracts: CowContracts,
)
    ensures
        p.is_fresh(placer, owner, chain, draft, quote, contracts) ==> p.wf(),
        p.wf() ==> p.next(e).0.wf(),
{
}

/// No gas is spent on a doomed call: an account sends a call, and a Safe places an
/// order for native coin, only right after a simulation that says nothing against
/// it, and it is the call that was simulated.
pub proof fn law_calls_are_tried_before_they_are_paid(p: Placement, e: PlaceEvent)
    requires
        p.wf(),
    ensures
        ({
            let (q, a) = p.next(e);
            &&& a is SendCall ==> {
                &&& p.stage == PlaceStage::Preflight
                &&& e matches PlaceEvent::Simulated(o) && doomed(o) is None
            }
            &&& a is CallAsSafe && p.draft.is_native ==> {
                &&& p.stage == PlaceStage::Preflight
                &&& e matches PlaceEvent::Simulated(o) && doomed(o) is None
            }
            &&& a matches PlaceAction::SendCall { to, value, call } ==> to == p.target() && value
                == p.value() && call == p.call()
            &&& a matches PlaceAction::CallAsSafe { to, value, call, .. } ==> to == p.target()
                && value == p.value() && call == p.call()
            &&& a matches PlaceAction::Preflight { to, value, call } ==> to == p.target() && value
                == p.value() && call == p.call()
        }),
{
}

/// A Safe's order for native coin is executed at the nonce that was read before its
/// call was simulated, so that the owners sign what was simulated; an allowance is
/// raised at whatever nonce the Safe has by then.
pub proof fn law_native_orders_keep_their_nonce(p: Placement, e: PlaceEvent)
    requires
        p.wf(),
    ensures
        ({
            let (q, a) = p.next(e);
            &&& a is Preflight && p.placer == Placer::Safe ==> p.stage == PlaceStage::Nonce && (
            e matches PlaceEvent::Nonce(Ok(n)) && q.nonce == Some(n))
            &&& p.stage != PlaceStage::Nonce ==> q.nonce == p.nonce
            &&& a matches PlaceAction::CallAsSafe { nonce, .. } ==> nonce == p.nonce && (nonce
                is Some <==> p.draft.is_native)
        }),
{
}

/// An allowance is raised only where it falls short of what is sold; where it
/// does not, the order is signed at once.
pub proof fn law_allowance_is_raised_only_where_short(p: Placement, a: Amount)
    requires
        p.stage == PlaceStage::Allowance,
    ensures
        ({
            let (q, next) = p.next(PlaceEvent::Allowance(Ok(a)));
            &&& a@ >= p.sells@ ==> next == PlaceAction::SignOrder && q.approves == p.approves
            &&& a@ < p.sells@ ==> q.approves && (next is Preflight || next is CallAsSafe)
        }),
{
}

/// An order is posted again only where its allowance was just raised and the order
/// book complains about it, and at most five times.
pub proof fn law_posting_again_is_bounded(p: Placement, e: PlaceEvent)
    requires
        p.wf(),
    ensures
        p.next(e).0.retries <= POST_RETRIES,
        p.next(e).1 == PlaceAction::PostAgain ==> {
            &&& p.approves
            &&& p.retries < POST_RETRIES
            &&& p.next(e).0.retries == p.retries + 1
            &&& e matches PlaceEvent::Posted(Err(w)) && mentions_allowance(w@)
        },
{
}

/// A Safe's order leaves the wallet only after the Safe has confirmed the
/// signature, and an order for a token only after it was signed; an order for
/// native coin is never posted.
pub proof fn law_orders_leave_signed(p: Placement, e: PlaceEvent)
    requires
        p.wf(),
    ensures
        ({
            let (q, a) = p.next(e);
            &&& a == PlaceAction::UploadAppData && p.placer == Placer::Safe ==> p.stage
                == PlaceStage::Confirmation && (e matches PlaceEvent::Confirmed(Ok(_)))
            &&& a == PlaceAction::UploadAppData && p.placer == Placer::Account ==> p.stage
                == PlaceStage::Signature && (e matches PlaceEvent::Signed(Ok(_)))
            &&& a == PlaceAction::PostOrder ==> !p.draft.is_native && p.stage == PlaceStage::Upload
        }),
{
}

/// What is placed is what was drafted and quoted: the order carries the draft's
/// tokens and amounts, belongs to its owner, lies on the owner's chain, is open, and
/// has the identifier that came; and the draft, the quote, the owner and the chain stay
/// the same from step to step.
pub proof fn law_placed_is_what_was_drafted(p: Placement, e: PlaceEvent)
    ensures
        ({
            let (q, a) = p.next(e);
            &&& q.draft == p.draft
            &&& q.quote == p.quote
            &&& q.owner == p.owner
            &&& q.chain == p.chain
            &&& q.placer == p.placer
            &&& q.sells == p.sells
            &&& q.buys == p.buys
            &&& a matches PlaceAction::Placed(o) ==> {
                &&& q.stage == PlaceStage::Over
                &&& o.owner == p.owner
                &&& o.chain == p.chain
                &&& o.sell_token == p.draft.sell_token
                &&& o.buy_token == p.draft.buy_token
                &&& o.sell_amount == p.draft.sell_amount
                &&& o.buy_amount == p.buys
                &&& o.status == OrderStatus::Open
                &&& o.is_ethflow == p.draft.is_native
                &&& (e matches PlaceEvent::Posted(Ok(u)) && u == o.uid) || (
                e matches PlaceEvent::Uid(Ok(u)) && u == o.uid)
            }
        }),
{
}

/// A failure ends a placement, and nothing is done after its end.
pub proof fn law_failed_placements_stop(p: Placement, e: PlaceEvent)
    ensures
        p.next(e).1 is Failed ==> p.next(e).0.stage == PlaceStage::Over,
        p.stage == PlaceStage::Over ==> p.next(e) == (p, PlaceAction::Nothing),
{
}

/// A Safe's cancellation reaches the order book only after the Safe has confirmed
/// its signature; an account's only after it was signed.
pub proof fn law_cancellations_leave_signed(c: Cancellation, e: CancelEvent)
    requires
        c.wf(),
    ensures
        c.next(e).0.wf(),
        c.next(e).1 == CancelAction::DeleteOrder ==> if c.placer == Placer::Safe {
            c.stage == CancelStage::Confirmation && (e matches CancelEvent::Confirmed(Ok(_)))
        } else {
            c.stage == CancelStage::Signature && (e matches CancelEvent::Signed(Ok(_)))
        },
        c.stage == CancelStage::Over ==> c.next(e) == (c, CancelAction::Nothing),
{
}

} // verus!
