//! The dashboard's swaps and name writes: from a request over its review to the
//! signature, and back.

use vstd::prelude::*;

use crate::apps::NameOutcome;
use crate::identity::supported;
use crate::name_writes::{
    ens_duration_secs, NamePhase, NameSign, RegisterPlan, YEAR_SECS,
};
use crate::orders::{follows, lemma_place, place_of, CowHost};
use crate::review::{
    cancel_review, cow_review, name_review, next_review, ReviewLeg, SignAction,
};
use crate::screen::{
    acts, doing, idle, lemma_acts_sum, silent, Act, Effect, Modal, NamesNotice, Reply, ScreenModel,
    SwapNotice, Turn, WalletScreen,
};
use crate::signer::SignerHandoff;
use crate::swap::{
    build_order_review, review_of, CowContracts, OrderTexts, QuoteResponse, SwapDraft,
};
use crate::text::can_cut;
use crate::types::{Address, Hash32};

verus! {

// ── talking to the swap surfaces ────────────────────────────────────────────

/// Telling the surface that an order came from; the dialog may be gone.
pub open spec fn telling(m: ScreenModel, host: CowHost, act: Act) -> Seq<Act> {
    if host == CowHost::Modal && !(m.modal is Swap) {
        Seq::empty()
    } else {
        seq![act]
    }
}

/// What is said where a Safe cannot place an order.
pub open spec fn no_safe_swaps() -> Seq<char> {
    "This Safe can't place swaps — it needs a recognized implementation, a signable owner, and a CoW-supported chain."@
}

/// What is said where another signature is being made.
pub open spec fn busy_text() -> Seq<char> {
    "another signing operation is in progress — try again in a moment"@
}

/// What is said where names cannot be written for a Safe.
pub open spec fn no_safe_names() -> Seq<char> {
    "Names from this Safe aren't available — they need a Mainnet Safe with a signable owner. Switch to an EOA or a Mainnet Safe."@
}

impl WalletScreen {
    /// Telling the surface that an order came from.
    pub(crate) fn tell(&self, host: CowHost, notice: SwapNotice) -> (r: Vec<Effect>)
        ensures
            acts(r@) == telling(self@, host, Effect::Swap { host, notice }@),
    {
        let mut out: Vec<Effect> = Vec::new();
        let there = match host {
            CowHost::Apps => true,
            CowHost::Modal => match &self.modal {
                Modal::Swap => true,
                _ => false,
            },
        };
        if there {
            out.push(Effect::Swap { host, notice });
        }
        assert(acts(out@) =~= telling(self@, host, Effect::Swap { host, notice }@));
        out
    }
}

// ── placing ─────────────────────────────────────────────────────────────────

/// An order is placed, by the Safe on screen or by the active account.
pub open spec fn on_place(
    m: ScreenModel,
    host: CowHost,
    draft: SwapDraft,
    quote: QuoteResponse,
) -> Turn {
    let handoff = SignerHandoff { cell: Some(m.desk.signer) };
    let parked = ScreenModel { desk: m.desk.parked(), ..m };
    if m.identity.active_safe is Some {
        match m.identity.swap_ctx() {
            Some(ctx) => Turn {
                state: parked,
                answer: doing(seq![Act::PlaceOrderSafe { host, handoff, draft, quote, ctx }]),
            },
            None => Turn {
                state: m,
                answer: doing(telling(m, host, Act::SwapFailed { host, why: no_safe_swaps() })),
            },
        }
    } else {
        Turn {
            state: parked,
            answer: doing(
                seq![
                    Act::Plain(
                        Effect::PlaceOrder {
                            host,
                            handoff,
                            desc: m.identity.signer_desc(),
                            draft,
                            quote,
                            user: m.identity.address,
                        },
                    ),
                ],
            ),
        }
    }
}

/// An order is cancelled, by the Safe on screen where it owns the order, or else by
/// the active account. `uid` is the identifier as it was asked for.
pub open spec fn on_cancel(m: ScreenModel, host: CowHost, uid: String) -> Turn {
    let handoff = SignerHandoff { cell: Some(m.desk.signer) };
    let parked = ScreenModel { desk: m.desk.parked(), ..m };
    if follows(m.orders, uid@) {
        let o = m.orders[place_of(m.orders, uid@)];
        if m.identity.safe() matches Some(s) && s.address == o.owner {
            match m.identity.swap_ctx() {
                Some(ctx) => Turn {
                    state: parked,
                    answer: doing(
                        seq![Act::CancelOrderSafe { host, handoff, chain: o.chain, uid, ctx }],
                    ),
                },
                None => silent(m),
            }
        } else {
            Turn {
                state: parked,
                answer: doing(
                    seq![
                        Act::Plain(
                            Effect::CancelOrder {
                                host,
                                handoff,
                                desc: m.identity.signer_desc(),
                                chain: o.chain,
                                uid,
                            },
                        ),
                    ],
                ),
            }
        }
    } else {
        silent(m)
    }
}

impl WalletScreen {
    /// Places an order that was confirmed.
    pub fn place_order_task(&mut self, host: CowHost, draft: SwapDraft, quote: QuoteResponse) -> (r:
        Reply)
        ensures
            (Turn { state: final(self)@, answer: r@ }) == on_place(
                old(self)@,
                host,
                draft,
                quote,
            ),
    {
        if self.identity.active_safe.is_some() {
            return match self.identity.build_safe_swap_ctx() {
                Some(ctx) => {
                    let handoff = self.desk.park_signer_for_order();
                    Reply::one(Effect::PlaceOrderSafe { host, handoff, draft, quote, ctx })
                },
                None => {
                    let why =
                        "This Safe can't place swaps — it needs a recognized implementation, a signable owner, and a CoW-supported chain.";
                    Reply::all(self.tell(host, SwapNotice::Failed(why.to_string())))
                },
            };
        }
        let desc = self.identity.active_signer_descriptor();
        let handoff = self.desk.park_signer_for_order();
        Reply::one(
            Effect::PlaceOrder { host, handoff, desc, draft, quote, user: self.identity.address },
        )
    }

    /// Cancels an order whose cancellation was confirmed.
    pub fn cancel_order_task(&mut self, host: CowHost, uid: String) -> (r: Reply)
        ensures
            (Turn { state: final(self)@, answer: r@ }) == on_cancel(old(self)@, host, uid),
    {
        let i: usize = match self.orders.position(uid.as_str()) {
            Some(i) => i,
            None => {
                return Reply::idle();
            },
        };
        let chain = self.orders.orders[i].chain;
        let owner = self.orders.orders[i].owner;
        let own = match self.identity.active_safe_descriptor() {
            Some(s) => s.address == owner,
            None => false,
        };
        if own {
            return match self.identity.build_safe_swap_ctx() {
                Some(ctx) => {
                    let handoff = self.desk.park_signer_for_order();
                    Reply::one(Effect::CancelOrderSafe { host, handoff, chain, uid, ctx })
                },
                None => Reply::idle(),
            };
        }
        let desc = self.identity.active_signer_descriptor();
        let handoff = self.desk.park_signer_for_order();
        Reply::one(Effect::CancelOrder { host, handoff, desc, chain, uid })
    }
}

// ── writing names ───────────────────────────────────────────────────────────

/// Writing a name, for the Safe on screen or for the active account.
pub open spec fn name_writing(m: ScreenModel, sign: NameSign) -> Act {
    let handoff = SignerHandoff { cell: Some(m.desk.signer) };
    match m.identity.name_ctx() {
        Some(ctx) => Act::WriteNameSafe { handoff, sign, ctx },
        None => Act::Plain(
            Effect::WriteName { handoff, desc: m.identity.signer_desc(), sign },
        ),
    }
}

/// A name write that was confirmed.
pub open spec fn on_name_write(m: ScreenModel, sign: NameSign) -> Turn {
    let phase = sign.phase_of();
    if m.signing() {
        Turn { state: m, answer: doing(seq![Act::NamesFailed { phase, why: busy_text() }]) }
    } else if m.identity.active_safe is Some && m.identity.name_ctx() is None {
        Turn { state: m, answer: doing(seq![Act::NamesFailed { phase, why: no_safe_names() }]) }
    } else {
        Turn {
            state: ScreenModel { desk: m.desk.parked(), ..m },
            answer: doing(
                seq![
                    Act::Plain(Effect::Names(NamesNotice::Begin(phase))),
                    name_writing(m, sign),
                ],
            ),
        }
    }
}

impl NameOutcome {
    /// The page that waits for a write that is asked for.
    pub open spec fn phase_of(self) -> NamePhase {
        match self {
            NameOutcome::Register { .. } => NamePhase::Reveal,
            NameOutcome::RegisterXns { .. } => NamePhase::Reveal,
            NameOutcome::Renew { .. } => NamePhase::Renew,
            NameOutcome::SetRecipient { .. } => NamePhase::Recipient,
            _ => NamePhase::Commit,
        }
    }

    /// The write that is asked for, for the given owner and with the given secret.
    pub open spec fn sign_of(self, owner: Address, secret: Hash32) -> Option<NameSign> {
        match self {
            NameOutcome::Commit { namespace, label, years } => Some(
                NameSign::Commit(
                    RegisterPlan {
                        namespace,
                        label,
                        owner,
                        duration_secs: (years * YEAR_SECS) as u64,
                        secret,
                    },
                ),
            ),
            NameOutcome::Register { plan } => Some(NameSign::Register(plan)),
            NameOutcome::RegisterXns { namespace, label } => Some(
                NameSign::RegisterXns { namespace, label },
            ),
            NameOutcome::Renew { namespace, label, years } => Some(
                NameSign::Renew { namespace, label, years },
            ),
            NameOutcome::SetRecipient { namespace, label, recipient } => Some(
                NameSign::SetRecipient { namespace, label, recipient },
            ),
            _ => None,
        }
    }

    /// The page that waits for a write that is asked for.
    fn phase(&self) -> (r: NamePhase)
        ensures
            r == self.phase_of(),
    {
        match self {
            NameOutcome::Register { .. } => NamePhase::Reveal,
            NameOutcome::RegisterXns { .. } => NamePhase::Reveal,
            NameOutcome::Renew { .. } => NamePhase::Renew,
            NameOutcome::SetRecipient { .. } => NamePhase::Recipient,
            _ => NamePhase::Commit,
        }
    }

    /// The write that is asked for; the request itself where it is a read.
    fn into_sign(self, owner: Address, secret: Hash32) -> (r: Result<NameSign, NameOutcome>)
        ensures
            match r {
                Ok(s) => self.sign_of(owner, secret) == Some(s),
                Err(o) => self.sign_of(owner, secret) is None && o == self,
            },
    {
        match self {
            NameOutcome::Commit { namespace, label, years } => Ok(
                NameSign::Commit(
                    RegisterPlan {
                        namespace,
                        label,
                        owner,
                        duration_secs: ens_duration_secs(years),
                        secret,
                    },
                ),
            ),
            NameOutcome::Register { plan } => Ok(NameSign::Register(plan)),
            NameOutcome::RegisterXns { namespace, label } => Ok(
                NameSign::RegisterXns { namespace, label },
            ),
            NameOutcome::Renew { namespace, label, years } => Ok(
                NameSign::Renew { namespace, label, years },
            ),
            NameOutcome::SetRecipient { namespace, label, recipient } => Ok(
                NameSign::SetRecipient { namespace, label, recipient },
            ),
            other => Err(other),
        }
    }
}

/// The names app asks for something. `secret` is the secret that hides a name until
/// it is revealed.
pub open spec fn on_name_ask(m: ScreenModel, o: NameOutcome, secret: Hash32) -> Turn {
    let owner = m.identity.shown();
    if o.writes() && m.signing() {
        Turn {
            state: m,
            answer: doing(seq![Act::NamesFailed { phase: o.phase_of(), why: busy_text() }]),
        }
    } else if o.writes() && m.identity.active_safe is Some && m.identity.name_ctx() is None {
        Turn {
            state: m,
            answer: doing(seq![Act::NamesFailed { phase: o.phase_of(), why: no_safe_names() }]),
        }
    } else {
        match o.sign_of(owner, secret) {
            Some(sign) => match m.gate.review {
                Some(_) => silent(m),
                None => {
                    let seq = next_review(m.gate.seq);
                    Turn {
                        state: ScreenModel { gate: m.gate.opened(name_review(sign, seq)), ..m },
                        answer: doing(
                            seq![Act::Plain(Effect::PrepareName { seq, from: owner, sign })],
                        ),
                    }
                },
            },
            None => Turn {
                state: m,
                answer: doing(seq![Act::Plain(Effect::ReadNames { owner, ask: o })]),
            },
        }
    }
}

impl WalletScreen {
    /// Signs a name write that was confirmed. What may have changed since the review
    /// was opened is checked once more.
    pub fn dispatch_name_sign(&mut self, sign: NameSign) -> (r: Reply)
        ensures
            (Turn { state: final(self)@, answer: r@ }) == on_name_write(old(self)@, sign),
    {
        let phase = sign.phase();
        if self.is_signing_busy() {
            return Reply::one(
                Effect::Names(
                    NamesNotice::Failed {
                        phase,
                        why:
                            "another signing operation is in progress — try again in a moment".to_string(),
                    },
                ),
            );
        }
        let ctx = self.identity.build_safe_name_ctx();
        if self.identity.active_safe.is_some() && ctx.is_none() {
            return Reply::one(
                Effect::Names(
                    NamesNotice::Failed {
                        phase,
                        why:
                            "Names from this Safe aren't available — they need a Mainnet Safe with a signable owner. Switch to an EOA or a Mainnet Safe.".to_string(),
                    },
                ),
            );
        }
        let desc = self.identity.active_signer_descriptor();
        let handoff = self.desk.park_signer_for_order();
        let begin = Effect::Names(NamesNotice::Begin(phase));
        let write = match ctx {
            Some(ctx) => Effect::WriteNameSafe { handoff, sign, ctx },
            None => Effect::WriteName { handoff, desc, sign },
        };
        assert(write@ == name_writing(old(self)@, sign));
        Reply::two(begin, write)
    }

    /// The names app asks for something. A read is passed on; a write is refused
    /// while another signature is being made, or where it cannot be made for the Safe
    /// on screen, and is reviewed otherwise.
    pub fn handle_name_outcome(&mut self, o: NameOutcome, secret: Hash32) -> (r: Reply)
        ensures
            (Turn { state: final(self)@, answer: r@ }) == on_name_ask(old(self)@, o, secret),
    {
        let write = o.is_write();
        if write && self.is_signing_busy() {
            return Reply::one(
                Effect::Names(
                    NamesNotice::Failed {
                        phase: o.phase(),
                        why:
                            "another signing operation is in progress — try again in a moment".to_string(),
                    },
                ),
            );
        }
        if write && self.identity.active_safe.is_some()
            && self.identity.build_safe_name_ctx().is_none() {
            return Reply::one(
                Effect::Names(
                    NamesNotice::Failed {
                        phase: o.phase(),
                        why:
                            "Names from this Safe aren't available — they need a Mainnet Safe with a signable owner. Switch to an EOA or a Mainnet Safe.".to_string(),
                    },
                ),
            );
        }
        let owner = self.identity.order_owner();
        match o.into_sign(owner, secret) {
            Ok(sign) => match self.gate.open_name_review(sign.clone()) {
                Some(seq) => Reply::one(Effect::PrepareName { seq, from: owner, sign }),
                None => Reply::idle(),
            },
            Err(ask) => Reply::one(Effect::ReadNames { owner, ask }),
        }
    }
}

// ── the review ──────────────────────────────────────────────────────────────

/// An order is to be reviewed, with the texts of its three amounts.
pub open spec fn on_review_swap(
    m: ScreenModel,
    host: CowHost,
    draft: SwapDraft,
    quote: QuoteResponse,
    texts: OrderTexts,
    contracts: CowContracts,
) -> Turn {
    match m.gate.review {
        Some(_) => silent(m),
        None => {
            let seq = next_review(m.gate.seq);
            let order = review_of(draft, quote, m.identity.shown(), texts, contracts);
            Turn {
                state: ScreenModel {
                    gate: m.gate.opened(cow_review(host, draft, quote, order, seq)),
                    ..m
                },
                answer: doing(
                    seq![
                        Act::Plain(
                            Effect::PrepareCow { seq, user: m.identity.shown(), draft, quote },
                        ),
                    ],
                ),
            }
        },
    }
}

/// A cancellation is to be reviewed, with the text of the amount that is sold.
pub open spec fn on_review_cancel(m: ScreenModel, host: CowHost, uid: Seq<char>, sells: Seq<char>) -> Turn {
    if m.gate.review is None && follows(m.orders, uid) {
        silent(
            ScreenModel {
                gate: m.gate.opened(
                    cancel_review(
                        host,
                        m.orders[place_of(m.orders, uid)],
                        sells,
                        next_review(m.gate.seq),
                    ),
                ),
                ..m
            },
        )
    } else {
        silent(m)
    }
}

/// The user confirms what is under review.
pub open spec fn on_confirm_review(m: ScreenModel) -> Turn {
    let shut = ScreenModel { gate: m.gate.closed(), ..m };
    match m.gate.review {
        Some(r) => match r.action {
            SignAction::Cow { host, draft, quote } => {
                let turn = on_place(shut, host, draft, quote);
                let first: Seq<Act> = if host == CowHost::Modal && m.modal is Swap {
                    seq![Act::Plain(Effect::Swap { host, notice: SwapNotice::Placing })]
                } else {
                    Seq::empty()
                };
                Turn { state: turn.state, answer: doing(first + turn.answer.acts) }
            },
            SignAction::CowCancel { host, uid } => on_cancel(shut, host, uid),
            SignAction::Name { sign } => on_name_write(shut, sign),
        },
        None => silent(shut),
    }
}

/// What is under review could not be worked out.
pub open spec fn on_review_failed(m: ScreenModel, e: String) -> Turn {
    let shut = ScreenModel { gate: m.gate.closed(), ..m };
    match m.gate.review {
        Some(r) => Turn {
            state: shut,
            answer: doing(
                match r.action {
                    SignAction::Cow { host, .. } => telling(
                        m,
                        host,
                        Act::SwapFailed { host, why: e@ },
                    ),
                    SignAction::CowCancel { .. } => Seq::empty(),
                    SignAction::Name { sign } => seq![
                        Act::NamesFailed { phase: sign.phase_of(), why: e@ },
                    ],
                },
            ),
        },
        None => silent(shut),
    }
}

/// The calls of a review were worked out, or could not be.
pub open spec fn on_prepared(m: ScreenModel, seq: u64, legs: Result<Vec<ReviewLeg>, String>) -> Turn {
    if m.gate.awaits(seq) {
        match legs {
            Ok(v) => silent(ScreenModel { gate: m.gate.prepared(v@), ..m }),
            Err(e) => on_review_failed(m, e),
        }
    } else {
        silent(m)
    }
}

impl WalletScreen {
    /// Shows the review of an order, unless another review is open.
    pub fn open_cow_review(
        &mut self,
        host: CowHost,
        draft: SwapDraft,
        quote: QuoteResponse,
        texts: OrderTexts,
        contracts: &CowContracts,
    ) -> (r: Reply)
        ensures
            (Turn { state: final(self)@, answer: r@ }) == on_review_swap(
                old(self)@,
                host,
                draft,
                quote,
                texts,
                *contracts,
            ),
    {
        let user = self.identity.order_owner();
        let order = build_order_review(&draft, &quote, user, texts, contracts);
        match self.gate.open_cow_review(host, draft.clone(), quote, order) {
            Some(seq) => Reply::one(Effect::PrepareCow { seq, user, draft, quote }),
            None => Reply::idle(),
        }
    }

    /// Shows the review of a cancellation, unless another review is open or the order
    /// is not followed.
    pub fn open_cow_cancel_review(&mut self, host: CowHost, uid: &str, sells: &str) -> (r: Reply)
        requires
            follows(old(self)@.orders, uid@) ==> can_cut(uid@, 14, 8, 6),
        ensures
            (Turn { state: final(self)@, answer: r@ }) == on_review_cancel(
                old(self)@,
                host,
                uid@,
                sells@,
            ),
    {
        match self.orders.position(uid) {
            Some(i) => {
                proof {
                    lemma_place(self@.orders, uid@);
                }
                let _opened = self.gate.open_cow_cancel_review(
                    host,
                    &self.orders.orders[i],
                    sells,
                );
            },
            None => {},
        }
        Reply::idle()
    }

    /// The user confirms what is under review: it is signed now.
    pub fn confirm_sign_review(&mut self) -> (r: Reply)
        ensures
            (Turn { state: final(self)@, answer: r@ }) == on_confirm_review(old(self)@),
    {
        let ghost m = self@;
        match self.gate.take_action() {
            Some(SignAction::Cow { host, draft, quote }) => {
                let in_dialog = match (&self.modal, host) {
                    (Modal::Swap, CowHost::Modal) => true,
                    _ => false,
                };
                let mut out: Vec<Effect> = Vec::new();
                if in_dialog {
                    out.push(Effect::Swap { host, notice: SwapNotice::Placing });
                }
                let ghost first = acts(out@);
                assert(first =~= if host == CowHost::Modal && m.modal is Swap {
                    seq![Act::Plain(Effect::Swap { host, notice: SwapNotice::Placing })]
                } else {
                    Seq::<Act>::empty()
                });
                let mut reply = self.place_order_task(host, draft, quote);
                proof {
                    lemma_acts_sum(out@, reply.effects@);
                }
                out.append(&mut reply.effects);
                Reply::all(out)
            },
            Some(SignAction::CowCancel { host, uid }) => self.cancel_order_task(host, uid),
            Some(SignAction::Name { sign }) => self.dispatch_name_sign(sign),
            None => Reply::idle(),
        }
    }

    /// The user closes the review: nothing is signed.
    pub fn cancel_sign_review(&mut self) -> (r: Reply)
        ensures
            (Turn { state: final(self)@, answer: r@ }) == silent(
                ScreenModel { gate: old(self)@.gate.closed(), ..old(self)@ },
            ),
    {
        self.gate.cancel_sign_review();
        Reply::idle()
    }

    /// What is under review could not be worked out: the review closes, and the pane
    /// it came from is told.
    pub fn fail_sign_review(&mut self, e: String) -> (r: Reply)
        ensures
            (Turn { state: final(self)@, answer: r@ }) == on_review_failed(old(self)@, e),
    {
        let ghost m = self@;
        match self.gate.take_action() {
            Some(SignAction::Cow { host, .. }) => Reply::all(
                self.tell(host, SwapNotice::Failed(e)),
            ),
            Some(SignAction::CowCancel { .. }) => Reply::idle(),
            Some(SignAction::Name { sign }) => Reply::one(
                Effect::Names(NamesNotice::Failed { phase: sign.phase(), why: e }),
            ),
            None => Reply::idle(),
        }
    }

    /// The calls of a review were worked out, or could not be. They count only for the
    /// review that is open.
    pub fn sign_review_prepared(&mut self, seq: u64, legs: Result<Vec<ReviewLeg>, String>) -> (r:
        Reply)
        ensures
            (Turn { state: final(self)@, answer: r@ }) == on_prepared(old(self)@, seq, legs),
    {
        if !self.gate.is_awaiting(seq) {
            return Reply::idle();
        }
        match legs {
            Ok(v) => {
                self.gate.legs_ready(seq, v);
                Reply::idle()
            },
            Err(e) => self.fail_sign_review(e),
        }
    }
}

} // verus!
