//! What the swap dialog and the Apps pane ask of the dashboard, and the answers
//! that come back.

use vstd::prelude::*;

use crate::apps::{self, apps_step, AppsAsk};
use crate::clipboard::next_copy;
use crate::identity::{cow_supported, supported};
use crate::lists::lemma_filter_push;
use crate::name_writes::NamePhase;
use crate::orders::{
    follows, place_of, undecided, with_all_fetched, with_cancelled, with_news, with_order,
    CowHost, FillModel, OrderStatus, TrackedOrder,
};
use crate::screen::{
    acts, doing, idle, lemma_acts_sum, silent, Act, Effect, Env, EnvModel, Modal, NamesNotice,
    Reply, ScreenModel, SwapNotice, Turn, WalletScreen,
};
use crate::screen_send::copying;
use crate::screen_swap::{on_name_ask, telling};
use crate::signer::SignerHandoff;
use crate::swap::{QuoteResponse, SwapDraft};
use crate::types::{all_chains, Address, Amount, Chain, Hash32};

verus! {

// ── the swap dialog ─────────────────────────────────────────────────────────

/// What the swap dialog asks of the dashboard.
#[derive(Debug)]
pub enum SwapOutcome {
    Closed,
    RequestQuote(SwapDraft),
    RequestPlace { draft: SwapDraft, quote: QuoteResponse },
    RequestCancel { uid: String },
    CopyText(String),
}

/// The swap dialog was asked for.
pub open spec fn on_open_swap(m: ScreenModel, env: EnvModel) -> Turn {
    if m.can_swap() {
        silent(m.opened(Modal::Swap, env.now))
    } else {
        silent(m)
    }
}

/// A text is copied.
pub open spec fn on_copy(m: ScreenModel, text: String, env: EnvModel) -> Turn {
    Turn {
        state: ScreenModel { clipboard: m.clipboard.armed(text, env.now), ..m },
        answer: doing(copying(text, next_copy(m.clipboard.generation))),
    }
}

/// The swap dialog asks for something.
pub open spec fn on_swap(m: ScreenModel, o: Option<SwapOutcome>, env: EnvModel) -> Turn {
    if !(m.modal is Swap) {
        silent(m)
    } else {
        let host = CowHost::Modal;
        match o {
            Some(SwapOutcome::Closed) => silent(m.closing(env.now)),
            Some(SwapOutcome::RequestQuote(draft)) => Turn {
                state: m,
                answer: doing(
                    seq![
                        Act::Plain(Effect::QuoteSwap { host, draft, user: m.identity.shown() }),
                    ],
                ),
            },
            Some(SwapOutcome::RequestPlace { draft, quote }) => Turn {
                state: m,
                answer: doing(seq![Act::Plain(Effect::ReviewSwap { host, draft, quote })]),
            },
            Some(SwapOutcome::RequestCancel { uid }) => Turn {
                state: m,
                answer: doing(seq![Act::Plain(Effect::ReviewCancel { host, uid })]),
            },
            Some(SwapOutcome::CopyText(t)) => on_copy(m, t, env),
            None => silent(m),
        }
    }
}

impl WalletScreen {
    /// The swap dialog was asked for; an identity that cannot swap has none.
    pub fn open_swap(&mut self, env: &Env) -> (r: Reply)
        ensures
            (Turn { state: final(self)@, answer: r@ }) == on_open_swap(old(self)@, env@),
    {
        if !self.can_swap() {
            return Reply::idle();
        }
        self.modal = Modal::Swap;
        self.chrome.open(env.now);
        Reply::idle()
    }

    /// The swap dialog asks for something. Nothing is signed yet: an order and a
    /// cancellation are reviewed first.
    pub fn swap(&mut self, o: Option<SwapOutcome>, env: &Env) -> (r: Reply)
        ensures
            (Turn { state: final(self)@, answer: r@ }) == on_swap(old(self)@, o, env@),
    {
        let open = match &self.modal {
            Modal::Swap => true,
            _ => false,
        };
        if !open {
            return Reply::idle();
        }
        let host = CowHost::Modal;
        match o {
            Some(SwapOutcome::Closed) => {
                self.chrome.start_close(env.now);
                Reply::idle()
            },
            Some(SwapOutcome::RequestQuote(draft)) => {
                let user = self.identity.order_owner();
                Reply::one(Effect::QuoteSwap { host, draft, user })
            },
            Some(SwapOutcome::RequestPlace { draft, quote }) => Reply::one(
                Effect::ReviewSwap { host, draft, quote },
            ),
            Some(SwapOutcome::RequestCancel { uid }) => Reply::one(
                Effect::ReviewCancel { host, uid },
            ),
            Some(SwapOutcome::CopyText(t)) => Reply::all(self.arm_clipboard_clear(t, env)),
            None => Reply::idle(),
        }
    }
}

// ── the Apps pane ───────────────────────────────────────────────────────────

/// The chains on which orders can be placed, as a predicate.
pub open spec fn trades() -> spec_fn(Chain) -> bool {
    |c: Chain| cow_supported(c)
}

/// Fetching the orders of an owner, one chain at a time.
pub open spec fn fetching_orders(owner: Address) -> Seq<Act> {
    let c = all_chains().filter(trades());
    Seq::new(c.len(), |i: int| Act::Plain(Effect::FetchOrders { chain: c[i], owner }))
}

/// The Apps pane asks for something. `secret` hides a name until it is revealed.
pub open spec fn on_apps_ask(m: ScreenModel, o: AppsAsk, secret: Hash32, env: EnvModel) -> Turn {
    let host = CowHost::Apps;
    match o {
        AppsAsk::RequestQuote(draft) => Turn {
            state: m,
            answer: doing(
                seq![Act::Plain(Effect::QuoteSwap { host, draft, user: m.identity.shown() })],
            ),
        },
        AppsAsk::RequestPlace { draft, quote } => Turn {
            state: m,
            answer: doing(seq![Act::Plain(Effect::ReviewSwap { host, draft, quote })]),
        },
        AppsAsk::RequestCancel { uid } => Turn {
            state: m,
            answer: doing(seq![Act::Plain(Effect::ReviewCancel { host, uid })]),
        },
        AppsAsk::RefreshOrders => Turn {
            state: m,
            answer: doing(fetching_orders(m.identity.shown())),
        },
        AppsAsk::CopyText(t) => on_copy(m, t, env),
        AppsAsk::Name(o) => on_name_ask(m, o, secret),
        AppsAsk::Pool(o) => Turn { state: m, answer: doing(seq![Act::Pool(o)]) },
    }
}

/// Something happens to the Apps pane.
pub open spec fn on_apps(m: ScreenModel, msg: apps::Message, secret: Hash32, env: EnvModel) -> Turn {
    let step = apps_step(m.apps, msg);
    let after = ScreenModel { apps: step.state, ..m };
    match step.out {
        Some(o) => on_apps_ask(after, o, secret, env),
        None => silent(after),
    }
}

/// `rand::random` draws 32 bytes from the thread's generator. Nothing is claimed of
/// what they are.
#[verifier::external_body]
fn random_secret() -> (r: Hash32) {
    let [hi, lo]: [[u8; 16]; 2] = rand::random();
    Hash32 { hi: u128::from_be_bytes(hi), lo: u128::from_be_bytes(lo) }
}

impl WalletScreen {
    /// Fetching the orders of the identity on screen, from every chain on which orders
    /// can be placed.
    fn fetch_orders(&self) -> (r: Vec<Effect>)
        ensures
            acts(r@) == fetching_orders(self@.identity.shown()),
    {
        let owner = self.identity.order_owner();
        let chains = Chain::all();
        let mut kept: Vec<Chain> = Vec::new();
        let mut out: Vec<Effect> = Vec::new();
        let mut i: usize = 0;
        assert(chains@.take(0).filter(trades()) =~= Seq::<Chain>::empty()) by {
            reveal(Seq::filter);
        }
        while i < chains.len()
            invariant
                i <= chains.len(),
                kept@ == chains@.take(i as int).filter(trades()),
                out@.len() == kept@.len(),
                forall|j: int|
                    0 <= j < kept@.len() ==> (#[trigger] out@[j]) == (Effect::FetchOrders {
                        chain: kept@[j],
                        owner,
                    }),
            decreases chains.len() - i,
        {
            let chain = chains[i];
            proof {
                lemma_filter_push(chains@.take(i as int), chain, trades());
                assert(chains@.take(i + 1) =~= chains@.take(i as int).push(chain));
            }
            if supported(chain) {
                kept.push(chain);
                out.push(Effect::FetchOrders { chain, owner });
            }
            i += 1;
        }
        assert(chains@.take(chains@.len() as int) =~= chains@);
        assert(acts(out@) =~= fetching_orders(owner));
        out
    }

    /// What the Apps pane asks for.
    fn apps_ask(&mut self, o: apps::Outcome, secret: Hash32, env: &Env) -> (r: Reply)
        ensures
            (Turn { state: final(self)@, answer: r@ }) == on_apps_ask(
                old(self)@,
                o@,
                secret,
                env@,
            ),
    {
        let host = CowHost::Apps;
        match o {
            apps::Outcome::RequestQuote(draft) => {
                let user = self.identity.order_owner();
                Reply::one(Effect::QuoteSwap { host, draft, user })
            },
            apps::Outcome::RequestPlace { draft, quote } => Reply::one(
                Effect::ReviewSwap { host, draft, quote },
            ),
            apps::Outcome::RequestCancel { uid } => Reply::one(Effect::ReviewCancel { host, uid }),
            apps::Outcome::RefreshOrders => Reply::all(self.fetch_orders()),
            apps::Outcome::CopyText(t) => Reply::all(self.arm_clipboard_clear(t, env)),
            apps::Outcome::Name(o) => self.handle_name_outcome(o, secret),
            apps::Outcome::Pool(o) => Reply::one(Effect::Pool(o)),
        }
    }

    /// Something happens to the Apps pane, with a secret at hand for a name that is
    /// to be committed to.
    pub fn apps_with(&mut self, msg: apps::Message, secret: Hash32, env: &Env) -> (r: Reply)
        ensures
            (Turn { state: final(self)@, answer: r@ }) == on_apps(old(self)@, msg, secret, env@),
    {
        match self.apps.update(msg) {
            Some(o) => self.apps_ask(o, secret, env),
            None => Reply::idle(),
        }
    }

    /// Something happens to the Apps pane.
    pub fn apps(&mut self, msg: apps::Message, env: &Env) -> (r: Reply)
        ensures
            exists|secret: Hash32|
                (Turn { state: final(self)@, answer: r@ }) == #[trigger] on_apps(
                    old(self)@,
                    msg,
                    secret,
                    env@,
                ),
    {
        let secret = random_secret();
        self.apps_with(msg, secret, env)
    }
}

// ── answers ─────────────────────────────────────────────────────────────────

/// A quote came.
pub open spec fn on_quote(m: ScreenModel, host: CowHost, result: Result<QuoteResponse, String>) -> Turn {
    Turn {
        state: m,
        answer: doing(
            telling(m, host, Act::Plain(Effect::Swap { host, notice: SwapNotice::Quote(result) })),
        ),
    }
}

/// An order was placed, or could not be. The signer is back in either case.
pub open spec fn on_placed(
    m: ScreenModel,
    host: CowHost,
    result: Result<TrackedOrder, String>,
    signer: SignerHandoff,
) -> Turn {
    let back = ScreenModel { desk: m.desk.reclaimed(signer), ..m };
    match result {
        Ok(o) => {
            let notice = match host {
                CowHost::Modal => SwapNotice::Tracking(o.uid),
                CowHost::Apps => SwapNotice::Done,
            };
            Turn {
                state: ScreenModel { orders: with_order(m.orders, o), ..back },
                answer: doing(
                    telling(m, host, Act::Plain(Effect::Swap { host, notice })) + seq![
                        Act::Plain(Effect::PollOrder { chain: o.chain, uid: o.uid }),
                    ],
                ),
            }
        },
        Err(e) => Turn {
            state: back,
            answer: doing(telling(m, host, Act::SwapFailed { host, why: e@ })),
        },
    }
}

/// An order was cancelled, or could not be. The signer is back in either case.
pub open spec fn on_cancelled(
    m: ScreenModel,
    host: CowHost,
    uid: Seq<char>,
    result: Result<(), String>,
    signer: SignerHandoff,
) -> Turn {
    let back = ScreenModel { desk: m.desk.reclaimed(signer), ..m };
    match result {
        Ok(_) => silent(ScreenModel { orders: with_cancelled(m.orders, uid), ..back }),
        Err(e) => Turn {
            state: back,
            answer: doing(telling(m, host, Act::SwapFailed { host, why: e@ })),
        },
    }
}

/// What the service says of an order.
#[derive(Debug, Clone, Copy)]
pub struct OrderNews {
    pub status: OrderStatus,
    /// What was sold and bought.
    pub executed: Option<(Amount, Amount)>,
}

/// What is to be read where the news fill an order of the identity on screen.
pub open spec fn filled(m: ScreenModel, uid: Seq<char>, news: OrderNews) -> Option<FillModel> {
    if follows(m.orders, uid) {
        let o = m.orders[place_of(m.orders, uid)];
        match o.fill(o.applied(news.status, news.executed)) {
            Some(f) => if f.owner == m.identity.shown() {
                Some(f)
            } else {
                None
            },
            None => None,
        }
    } else {
        None
    }
}

/// News of an order came, or could not be had.
pub open spec fn on_status(m: ScreenModel, uid: Seq<char>, result: Result<OrderNews, String>) -> Turn {
    match result {
        Ok(news) => Turn {
            state: ScreenModel {
                orders: with_news(m.orders, uid, news.status, news.executed),
                ..m
            },
            answer: match filled(m, uid, news) {
                Some(f) => doing(seq![Act::RefetchTokens(f)]),
                None => idle(),
            },
        },
        Err(_) => silent(m),
    }
}

/// Asking for news of every order that something can still become of.
pub open spec fn on_poll(m: ScreenModel) -> Turn {
    let o = undecided(m.orders);
    Turn {
        state: m,
        answer: doing(
            Seq::new(
                o.len(),
                |i: int| Act::Plain(Effect::PollOrder { chain: o[i].chain, uid: o[i].uid }),
            ),
        ),
    }
}

/// The orders of an identity came, or could not be had.
pub open spec fn on_orders(m: ScreenModel, address: Address, result: Result<Vec<TrackedOrder>, String>) -> Turn {
    match result {
        Ok(v) => if address == m.identity.shown() {
            silent(ScreenModel { orders: with_all_fetched(m.orders, v@), ..m })
        } else {
            silent(m)
        },
        Err(_) => silent(m),
    }
}

/// The answer to a read of names came.
pub open spec fn on_name_read(m: ScreenModel, owner: Address, notice: NamesNotice) -> Turn {
    if owner == m.identity.shown() {
        Turn { state: m, answer: doing(seq![Effect::Names(notice)@]) }
    } else {
        silent(m)
    }
}

/// A name write is over. The signer is back.
pub open spec fn on_name_written(m: ScreenModel, phase: NamePhase, signer: SignerHandoff) -> Turn {
    Turn {
        state: ScreenModel { desk: m.desk.reclaimed(signer), ..m },
        answer: doing(seq![Act::Plain(Effect::Names(NamesNotice::Written(phase)))]),
    }
}

impl WalletScreen {
    /// A quote came, or could not be had.
    pub fn cow_quote(&mut self, host: CowHost, result: Result<QuoteResponse, String>) -> (r: Reply)
        ensures
            (Turn { state: final(self)@, answer: r@ }) == on_quote(old(self)@, host, result),
    {
        Reply::all(self.tell(host, SwapNotice::Quote(result)))
    }

    /// An order was placed, or could not be. A placed order is followed, and asked for
    /// at once.
    pub fn cow_placed(
        &mut self,
        host: CowHost,
        result: Result<TrackedOrder, String>,
        signer: SignerHandoff,
    ) -> (r: Reply)
        ensures
            (Turn { state: final(self)@, answer: r@ }) == on_placed(
                old(self)@,
                host,
                result,
                signer,
            ),
    {
        self.desk.reclaim_order_signer(signer);
        match result {
            Ok(o) => {
                let uid = o.uid.clone();
                let chain = o.chain;
                self.orders.place(o);
                let notice = match host {
                    CowHost::Modal => SwapNotice::Tracking(uid.clone()),
                    CowHost::Apps => SwapNotice::Done,
                };
                let mut out = self.tell(host, notice);
                let poll = Effect::PollOrder { chain, uid };
                proof {
                    lemma_acts_sum(out@, seq![poll]);
                    assert(acts(seq![poll]) =~= seq![poll@]);
                    assert(out@.push(poll) =~= out@ + seq![poll]);
                }
                out.push(poll);
                Reply::all(out)
            },
            Err(e) => Reply::all(self.tell(host, SwapNotice::Failed(e))),
        }
    }

    /// An order was cancelled, or could not be.
    pub fn cow_cancel(
        &mut self,
        host: CowHost,
        uid: &str,
        result: Result<(), String>,
        signer: SignerHandoff,
    ) -> (r: Reply)
        ensures
            (Turn { state: final(self)@, answer: r@ }) == on_cancelled(
                old(self)@,
                host,
                uid@,
                result,
                signer,
            ),
    {
        self.desk.reclaim_order_signer(signer);
        match result {
            Ok(_) => {
                self.orders.cancelled(uid);
                Reply::idle()
            },
            Err(e) => Reply::all(self.tell(host, SwapNotice::Failed(e))),
        }
    }

    /// News of an order came, or could not be had. Where the order is filled by it,
    /// and is of the identity on screen, its two tokens are read again.
    pub fn cow_status(&mut self, uid: &str, result: Result<OrderNews, String>) -> (r: Reply)
        ensures
            (Turn { state: final(self)@, answer: r@ }) == on_status(old(self)@, uid@, result),
    {
        match result {
            Ok(news) => match self.orders.status_came(uid, news.status, news.executed) {
                Some(f) => {
                    if f.owner == self.identity.display_address() {
                        Reply::one(Effect::RefetchTokens(f))
                    } else {
                        Reply::idle()
                    }
                },
                None => Reply::idle(),
            },
            Err(_) => Reply::idle(),
        }
    }

    /// Asks for news of every order that something can still become of.
    pub fn cow_poll_tick(&mut self) -> (r: Reply)
        ensures
            (Turn { state: final(self)@, answer: r@ }) == on_poll(old(self)@),
    {
        let orders = self.orders.polled();
        let mut out: Vec<Effect> = Vec::new();
        let mut i: usize = 0;
        while i < orders.len()
            invariant
                i <= orders.len(),
                out@.len() == i,
                forall|j: int|
                    0 <= j < i ==> (#[trigger] out@[j]) == (Effect::PollOrder {
                        chain: orders@[j].chain,
                        uid: orders@[j].uid,
                    }),
            decreases orders.len() - i,
        {
            out.push(Effect::PollOrder { chain: orders[i].chain, uid: orders[i].uid.clone() });
            i += 1;
        }
        assert(acts(out@) =~= on_poll(old(self)@).answer.acts);
        Reply::all(out)
    }

    /// The orders of an identity came, or could not be had. They count only while that
    /// identity is on screen.
    pub fn cow_account_orders(&mut self, address: Address, result: Result<Vec<TrackedOrder>, String>) -> (r:
        Reply)
        ensures
            (Turn { state: final(self)@, answer: r@ }) == on_orders(old(self)@, address, result),
    {
        if address == self.identity.order_owner() {
            match result {
                Ok(v) => {
                    self.orders.take_fetched(v);
                },
                Err(_) => {},
            }
        }
        Reply::idle()
    }

    /// The answer to a read of names came. It counts only while the identity it was
    /// asked for is on screen.
    pub fn name_read(&mut self, owner: Address, notice: NamesNotice) -> (r: Reply)
        ensures
            (Turn { state: final(self)@, answer: r@ }) == on_name_read(old(self)@, owner, notice),
    {
        if owner == self.identity.order_owner() {
            return Reply::one(Effect::Names(notice));
        }
        Reply::idle()
    }

    /// A name write is over, one way or the other.
    pub fn name_written(&mut self, phase: NamePhase, signer: SignerHandoff) -> (r: Reply)
        ensures
            (Turn { state: final(self)@, answer: r@ }) == on_name_written(
                old(self)@,
                phase,
                signer,
            ),
    {
        self.desk.reclaim_order_signer(signer);
        Reply::one(Effect::Names(NamesNotice::Written(phase)))
    }
}

} // verus!
