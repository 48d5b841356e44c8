//! The Apps pane: a launcher, and the apps it leads to.

use vstd::prelude::*;

use crate::keys::{Event, Listening};
use crate::name_writes::{Namespace, RegisterPlan};
use crate::orders::{OrderStatus, TrackedOrder};
use crate::pool_app::{self, OutcomeView, PoolApp, PoolModel, Relayer};
use crate::pool_view::{pool_hears_keys, pool_moves};
use crate::swap::{QuoteResponse, SwapDraft};
use crate::text::{dec, decimal, join2, join3, join5};
use crate::types::Address;

verus! {

// ── what the apps ask ───────────────────────────────────────────────────────

/// A registry that can be searched.
#[derive(Debug)]
pub enum Registry {
    Known(Namespace),
    /// A registry with an ending of its own.
    Xns(String),
}

/// What the names app asks of the dashboard.
#[derive(Debug)]
pub enum NameOutcome {
    ReverseScan,
    Status { registry: Registry, label: String },
    Search { seq: u64, label: String, registries: Vec<Registry> },
    Quote { namespace: Namespace, label: String, years: u32 },
    Commit { namespace: Namespace, label: String, years: u32 },
    Register { plan: RegisterPlan },
    RegisterXns { namespace: String, label: String },
    Renew { namespace: Namespace, label: String, years: u32 },
    SetRecipient { namespace: Namespace, label: String, recipient: Address },
}

impl NameOutcome {
    pub open spec fn writes(self) -> bool {
        self is Commit || self is Register || self is RegisterXns || self is Renew
            || self is SetRecipient
    }

    /// Tells whether a registry is written to.
    pub fn is_write(&self) -> (b: bool)
        ensures
            b == self.writes(),
    {
        match self {
            NameOutcome::Commit { .. } => true,
            NameOutcome::Register { .. } => true,
            NameOutcome::RegisterXns { .. } => true,
            NameOutcome::Renew { .. } => true,
            NameOutcome::SetRecipient { .. } => true,
            _ => false,
        }
    }
}

/// What the swap composer asks of the dashboard.
#[derive(Debug)]
pub enum ComposerOutcome {
    RequestQuote(SwapDraft),
    RequestPlace { draft: SwapDraft, quote: QuoteResponse },
}

/// What the pane asks of the dashboard.
pub enum Outcome {
    RequestQuote(SwapDraft),
    RequestPlace { draft: SwapDraft, quote: QuoteResponse },
    RequestCancel { uid: String },
    CopyText(String),
    RefreshOrders,
    Name(NameOutcome),
    Pool(pool_app::Outcome),
}

/// What an `Outcome` holds.
pub enum AppsAsk {
    RequestQuote(SwapDraft),
    RequestPlace { draft: SwapDraft, quote: QuoteResponse },
    RequestCancel { uid: String },
    CopyText(String),
    RefreshOrders,
    Name(NameOutcome),
    Pool(OutcomeView),
}

impl View for Outcome {
    type V = AppsAsk;

    open spec fn view(&self) -> AppsAsk {
        match *self {
            Outcome::RequestQuote(d) => AppsAsk::RequestQuote(d),
            Outcome::RequestPlace { draft, quote } => AppsAsk::RequestPlace { draft, quote },
            Outcome::RequestCancel { uid } => AppsAsk::RequestCancel { uid },
            Outcome::CopyText(t) => AppsAsk::CopyText(t),
            Outcome::RefreshOrders => AppsAsk::RefreshOrders,
            Outcome::Name(o) => AppsAsk::Name(o),
            Outcome::Pool(o) => AppsAsk::Pool(o@),
        }
    }
}

/// What is asked, if anything.
pub open spec fn opt_ask(o: Option<Outcome>) -> Option<AppsAsk> {
    match o {
        Some(x) => Some(x@),
        None => None,
    }
}

// ── the pane ────────────────────────────────────────────────────────────────

/// What happens to the pane. The names app and the swap composer handle their own
/// events; what they ask in turn is what comes here.
#[derive(Debug)]
pub enum Message {
    OpenSwapApp,
    /// The names app is opened; it asks for something the first time.
    OpenNamesApp(Option<NameOutcome>),
    OpenPrivacyPoolsApp,
    Names(Option<NameOutcome>),
    Pool(pool_app::Message),
    BackHome,
    Composer(Option<ComposerOutcome>),
    Cancel(String),
    CopyExplorerLink(String),
    RefreshOrders,
    Key(Event),
}

/// Which app is open.
#[derive(Debug, Clone, Copy, PartialEq, Eq, Structural)]
pub enum AppsView {
    Launcher,
    Swap,
    Names,
    PrivacyPools,
}

/// The pane.
pub struct AppsPane {
    pub view: AppsView,
    pub pool: PoolApp,
}

/// What an `AppsPane` holds.
pub struct AppsModel {
    pub view: AppsView,
    pub pool: PoolModel,
}

impl View for AppsPane {
    type V = AppsModel;

    open spec fn view(&self) -> AppsModel {
        AppsModel { view: self.view, pool: self.pool@ }
    }
}

/// What comes of a message.
pub struct AppsStep {
    pub state: AppsModel,
    pub out: Option<AppsAsk>,
}

impl AppsModel {
    pub open spec fn at(self, view: AppsView) -> AppsModel {
        AppsModel { view, ..self }
    }
}

/// What comes of a message.
pub open spec fn apps_step(s: AppsModel, msg: Message) -> AppsStep {
    match msg {
        Message::OpenSwapApp => AppsStep { state: s.at(AppsView::Swap), out: None },
        Message::OpenNamesApp(first) => AppsStep {
            state: s.at(AppsView::Names),
            out: match first {
                Some(o) => Some(AppsAsk::Name(o)),
                None => None,
            },
        },
        Message::OpenPrivacyPoolsApp => AppsStep {
            state: s.at(AppsView::PrivacyPools),
            out: Some(AppsAsk::Pool(OutcomeView::Sync(s.pool.chain))),
        },
        Message::Names(o) => AppsStep {
            state: s,
            out: match o {
                Some(o) => Some(AppsAsk::Name(o)),
                None => None,
            },
        },
        Message::Pool(m) => {
            let step = pool_app::stepped(s.pool, m);
            match step.out {
                Some(OutcomeView::Close) => AppsStep {
                    state: AppsModel { view: AppsView::Launcher, pool: step.state },
                    out: None,
                },
                Some(o) => AppsStep {
                    state: AppsModel { pool: step.state, ..s },
                    out: Some(AppsAsk::Pool(o)),
                },
                None => AppsStep { state: AppsModel { pool: step.state, ..s }, out: None },
            }
        },
        Message::BackHome => AppsStep { state: s.at(AppsView::Launcher), out: None },
        Message::Composer(c) => AppsStep {
            state: s,
            out: match c {
                Some(ComposerOutcome::RequestQuote(d)) => Some(AppsAsk::RequestQuote(d)),
                Some(ComposerOutcome::RequestPlace { draft, quote }) => Some(
                    AppsAsk::RequestPlace { draft, quote },
                ),
                None => None,
            },
        },
        Message::Cancel(uid) => AppsStep { state: s, out: Some(AppsAsk::RequestCancel { uid }) },
        Message::CopyExplorerLink(u) => AppsStep { state: s, out: Some(AppsAsk::CopyText(u)) },
        Message::RefreshOrders => AppsStep { state: s, out: Some(AppsAsk::RefreshOrders) },
        Message::Key(e) => AppsStep {
            state: if e.is_escape() {
                s.at(AppsView::Launcher)
            } else {
                s
            },
            out: None,
        },
    }
}

/// What the pane wants to be told of.
#[derive(Debug, Clone, Copy, PartialEq, Eq, Structural)]
pub struct AppsListening {
    /// Keyboard events.
    pub keys: bool,
    /// The names app has wishes of its own.
    pub names: bool,
    /// The wishes of the privacy pools app.
    pub pool: Option<Listening>,
}

impl AppsPane {
    /// The pane at its launcher.
    pub fn new(relayers: Vec<Relayer>) -> (r: AppsPane)
        ensures
            r@ == (AppsModel {
                view: AppsView::Launcher,
                pool: pool_app::fresh_pool(relayers@),
            }),
    {
        AppsPane { view: AppsView::Launcher, pool: PoolApp::new(relayers) }
    }

    /// Handles a message.
    pub fn update(&mut self, msg: Message) -> (r: Option<Outcome>)
        ensures
            final(self)@ == apps_step(old(self)@, msg).state,
            opt_ask(r) == apps_step(old(self)@, msg).out,
    {
        match msg {
            Message::OpenSwapApp => {
                self.view = AppsView::Swap;
                None
            },
            Message::OpenNamesApp(first) => {
                self.view = AppsView::Names;
                match first {
                    Some(o) => Some(Outcome::Name(o)),
                    None => None,
                }
            },
            Message::OpenPrivacyPoolsApp => {
                self.view = AppsView::PrivacyPools;
                match self.pool.on_open() {
                    Some(o) => Some(Outcome::Pool(o)),
                    None => None,
                }
            },
            Message::Names(o) => match o {
                Some(o) => Some(Outcome::Name(o)),
                None => None,
            },
            Message::Pool(m) => match self.pool.update(m) {
                Some(pool_app::Outcome::Close) => {
                    self.view = AppsView::Launcher;
                    None
                },
                Some(o) => Some(Outcome::Pool(o)),
                None => None,
            },
            Message::BackHome => {
                self.view = AppsView::Launcher;
                None
            },
            Message::Composer(c) => match c {
                Some(ComposerOutcome::RequestQuote(d)) => Some(Outcome::RequestQuote(d)),
                Some(ComposerOutcome::RequestPlace { draft, quote }) => Some(
                    Outcome::RequestPlace { draft, quote },
                ),
                None => None,
            },
            Message::Cancel(uid) => Some(Outcome::RequestCancel { uid }),
            Message::CopyExplorerLink(u) => Some(Outcome::CopyText(u)),
            Message::RefreshOrders => Some(Outcome::RefreshOrders),
            Message::Key(e) => {
                if e.escape() {
                    match self.view {
                        AppsView::Launcher => {},
                        _ => {
                            self.view = AppsView::Launcher;
                        },
                    }
                }
                None
            },
        }
    }

    /// What the pane wants to be told of: the keyboard while an app is open, and
    /// what that app wants. The launcher wants nothing.
    pub fn subscription(&self) -> (r: AppsListening)
        ensures
            r.keys == (self@.view != AppsView::Launcher),
            r.names == (self@.view == AppsView::Names),
            match r.pool {
                Some(l) => {
                    &&& self@.view == AppsView::PrivacyPools
                    &&& l.frames == pool_moves(self@.pool)
                    &&& l.keys == pool_hears_keys(self@.pool)
                },
                None => self@.view != AppsView::PrivacyPools,
            },
    {
        match self.view {
            AppsView::Launcher => AppsListening { keys: false, names: false, pool: None },
            AppsView::Swap => AppsListening { keys: true, names: false, pool: None },
            AppsView::Names => AppsListening { keys: true, names: true, pool: None },
            AppsView::PrivacyPools => AppsListening {
                keys: true,
                names: false,
                pool: Some(self.pool.subscription()),
            },
        }
    }

    /// The Privacy Pools app, to hand it what came of its requests.
    pub fn pool_pane(&mut self) -> (r: &mut PoolApp)
        ensures
            *r == old(self).pool,
            *final(self) == (AppsPane { pool: *final(r), ..*old(self) }),
    {
        &mut self.pool
    }

    /// The app that is drawn: the launcher in place of the names app where names
    /// are not offered.
    pub fn shown_view(&self, names_available: bool) -> (r: AppsView)
        ensures
            r == if self@.view == AppsView::Names && !names_available {
                AppsView::Launcher
            } else {
                self@.view
            },
    {
        match self.view {
            AppsView::Names => if names_available {
                AppsView::Names
            } else {
                AppsView::Launcher
            },
            v => v,
        }
    }
}

// ── what is drawn ───────────────────────────────────────────────────────────

/// How many orders are undecided.
pub open spec fn open_count(orders: Seq<TrackedOrder>) -> nat
    decreases orders.len(),
{
    if orders.len() == 0 {
        0
    } else {
        open_count(orders.drop_last()) + if orders.last().status.is_over() {
            0nat
        } else {
            1nat
        }
    }
}

/// The launcher.
#[derive(Debug)]
pub struct Launcher {
    pub subtitle: &'static str,
    /// What the card of the swap app says.
    pub swap: String,
    /// Whether there is a card for the names app.
    pub names: bool,
}

/// The launcher, for the orders of the identity on screen.
pub fn launcher_view(orders: &Vec<TrackedOrder>, names_available: bool) -> (r: Launcher)
    ensures
        r.subtitle@ == if names_available {
            "On-chain apps — swaps and name registration"@
        } else {
            "On-chain apps — swaps"@
        },
        r.swap@ == if open_count(orders@) > 0 {
            "Trade via CoW Protocol · "@ + dec(open_count(orders@)) + " open"@
        } else {
            "Trade tokens via CoW Protocol"@
        },
        r.names == names_available,
{
    let mut open: u64 = 0;
    let mut i: usize = 0;
    while i < orders.len()
        invariant
            i <= orders.len(),
            open <= i,
            open == open_count(orders@.take(i as int)),
        decreases orders.len() - i,
    {
        assert(orders@.take(i + 1).drop_last() =~= orders@.take(i as int));
        if !orders[i].status.is_terminal() {
            open = open + 1;
        }
        i += 1;
    }
    assert(orders@.take(orders@.len() as int) =~= orders@);
    let subtitle = if names_available {
        "On-chain apps — swaps and name registration"
    } else {
        "On-chain apps — swaps"
    };
    let swap = if open > 0 {
        let n = decimal(open);
        join3("Trade via CoW Protocol · ", n.as_str(), " open")
    } else {
        "Trade tokens via CoW Protocol".to_string()
    };
    Launcher { subtitle, swap, names: names_available }
}

/// How a status is coloured.
#[derive(Debug, Clone, Copy, PartialEq, Eq, Structural)]
pub enum Tone {
    Good,
    Bad,
    Muted,
}

/// How a status is coloured.
pub fn status_badge(s: OrderStatus) -> (r: Tone)
    ensures
        r == match s {
            OrderStatus::Fulfilled => Tone::Good,
            OrderStatus::Cancelled => Tone::Bad,
            OrderStatus::Expired => Tone::Bad,
            OrderStatus::Open => Tone::Muted,
            OrderStatus::PresignaturePending => Tone::Muted,
        },
{
    match s {
        OrderStatus::Fulfilled => Tone::Good,
        OrderStatus::Cancelled => Tone::Bad,
        OrderStatus::Expired => Tone::Bad,
        OrderStatus::Open => Tone::Muted,
        OrderStatus::PresignaturePending => Tone::Muted,
    }
}

/// The row of an order.
#[derive(Debug)]
pub struct OrderRow {
    pub title: String,
    pub sub: String,
    pub tone: Tone,
    /// Whether the order can be cancelled from here.
    pub cancel: bool,
}

/// The second line of an order's row.
pub open spec fn order_sub(o: TrackedOrder, buys: Seq<char>, got: Seq<char>) -> Seq<char> {
    if o.status == OrderStatus::Fulfilled && o.executed is Some {
        "received "@ + got + " "@ + o.buy_symbol@
    } else {
        "min "@ + buys + " "@ + o.buy_symbol@ + " · "@ + if o.is_ethflow {
            "ETH order"@
        } else {
            "limit-protected"@
        }
    }
}

/// The row of an order, given the texts of what it sells, of the least it buys,
/// and of what it bought. An undecided order can be cancelled, unless it sells
/// native coin.
pub fn order_row(o: &TrackedOrder, sells: &str, buys: &str, got: &str) -> (r: OrderRow)
    ensures
        r.title@ == sells@ + " "@ + o.sell_symbol@ + " → "@ + buys@ + " "@ + o.buy_symbol@,
        r.sub@ == order_sub(*o, buys@, got@),
        r.cancel == (!o.status.is_over() && !o.is_ethflow),
        r.tone == Tone::Good <==> o.status == OrderStatus::Fulfilled,
        r.tone == Tone::Muted <==> !o.status.is_over(),
{
    let front = join5(sells, " ", o.sell_symbol.as_str(), " → ", buys);
    let title = join3(front.as_str(), " ", o.buy_symbol.as_str());
    let filled = match o.status {
        OrderStatus::Fulfilled => o.executed.is_some(),
        _ => false,
    };
    let sub = if filled {
        let t = join3("received ", got, " ");
        join2(t.as_str(), o.buy_symbol.as_str())
    } else {
        let what = if o.is_ethflow {
            "ETH order"
        } else {
            "limit-protected"
        };
        let t = join5("min ", buys, " ", o.buy_symbol.as_str(), " · ");
        join2(t.as_str(), what)
    };
    OrderRow {
        title,
        sub,
        tone: status_badge(o.status),
        cancel: !o.status.is_terminal() && !o.is_ethflow,
    }
}

} // verus!
