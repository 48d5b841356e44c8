use wallet_dashboard::account_dropdown;
use wallet_dashboard::amounts::compute_max_amount;
use wallet_dashboard::apps::{self, NameOutcome};
use wallet_dashboard::contacts::{Contact, ContactsBook};
use wallet_dashboard::contacts_settings;
use wallet_dashboard::fetch::NetworkConfig;
use wallet_dashboard::home::{PendingSafeTx, SafeTxState};
use wallet_dashboard::identity::{AccountDescriptor, HardwareStatus, SafeDescriptor, SafeTrust};
use wallet_dashboard::keyed::Table;
use wallet_dashboard::keys::{Event, Key};
use wallet_dashboard::name_writes::{NamePhase, NameSign, Namespace};
use wallet_dashboard::nav::Nav;
use wallet_dashboard::networks::PerChain;
use wallet_dashboard::orders::{CowHost, OrderKind, OrderStatus, TrackedOrder};
use wallet_dashboard::portfolio::LiveToken;
use wallet_dashboard::review::SignAction;
use wallet_dashboard::screen::{
    DetailFacts, Effect, Env, Modal, NamesNotice, Outcome, Reply, SendModal, SettingsPane,
    SwapNotice, VerificationStatus, WalletScreen,
};
use wallet_dashboard::screen_listen::build_local_names;
use wallet_dashboard::screen_message::{Message, ReviewEvent};
use wallet_dashboard::screen_orders::{OrderNews, SwapOutcome};
use wallet_dashboard::screen_panes::{SafesOutcome, TxDetailsOutcome};
use wallet_dashboard::screen_safe::DetailEvent;
use wallet_dashboard::screen_send::{SafeAsk, SendEvent, SendOutcome};
use wallet_dashboard::signer::{Signer, SignerHandoff};
use wallet_dashboard::swap::{
    order_figures, CowContracts, OrderTexts, QuoteParams, QuoteResponse, SwapDraft,
};
use wallet_dashboard::types::{Address, Amount, Chain, Hash32, NetworkId};

fn addr(byte: u8) -> Address {
    Address::from_bytes([byte; 20])
}

fn hash(byte: u8) -> Hash32 {
    Hash32 { hi: u128::from_be_bytes([byte; 16]), lo: u128::from_be_bytes([byte; 16]) }
}

fn env_at(now: u64) -> Env {
    Env {
        now,
        config: NetworkConfig {
            rpcs: PerChain { mainnet: true, optimism: true, base: true },
            custom: vec![31337],
        },
    }
}

fn go(s: &mut WalletScreen, msg: Message) -> Reply {
    s.update(msg, &env_at(0), None)
}

fn local(seed: u8) -> AccountDescriptor {
    AccountDescriptor::Local { name: None, key: hash(seed), address: Some(addr(seed)) }
}

fn safe(byte: u8, threshold: u32, linked: Vec<u32>) -> SafeDescriptor {
    SafeDescriptor {
        name: None,
        chain_id: 1,
        address: addr(byte),
        version: "1.4.1".to_string(),
        trust: SafeTrust::Canonical,
        threshold,
        owners: vec![addr(1), addr(2)],
        linked_signer_indices: linked,
        tx_service_url: None,
    }
}

fn dashboard(accounts: Vec<AccountDescriptor>, safes: Vec<SafeDescriptor>) -> WalletScreen {
    let signer = Signer::Live { address: addr(1), handle: 7 };
    WalletScreen::new(signer, accounts, safes, 0, Table::new(), None, 0, Vec::new(), 0)
}

fn account() -> WalletScreen {
    dashboard(vec![local(1)], Vec::new())
}

fn in_safe() -> WalletScreen {
    let mut s = dashboard(vec![local(1), local(2)], vec![safe(0x5A, 2, vec![0, 1])]);
    s.identity.active_safe = Some(0);
    s
}

fn draft() -> SwapDraft {
    SwapDraft {
        chain: Chain::Mainnet,
        is_native: false,
        sell_token: addr(0x11),
        buy_token: addr(0x22),
        sell_amount: Amount::of(1_000),
        slippage_bps: 50,
        sell_symbol: "USDC".to_string(),
        buy_symbol: "DAI".to_string(),
        sell_decimals: 6,
        buy_decimals: 18,
    }
}

fn quote() -> QuoteResponse {
    QuoteResponse {
        quote: QuoteParams {
            sell_amount: Amount::of(1_000),
            buy_amount: Amount::of(2_000),
            fee_amount: Amount::zero(),
            valid_to: 1_900_000_000,
        },
        id: Some(1),
    }
}

fn review(s: &mut WalletScreen, host: CowHost) -> Reply {
    let texts =
        OrderTexts { sell: "1".to_string(), buy: "2".to_string(), min: "1.9".to_string() };
    let contracts = CowContracts { ethflow: addr(0xE7), settlement: addr(0x9E) };
    s.open_cow_review(host, draft(), quote(), texts, &contracts)
}

fn order(uid: &str, owner: Address) -> TrackedOrder {
    TrackedOrder {
        uid: uid.to_string(),
        chain: Chain::Base,
        owner,
        kind: OrderKind::Sell,
        sell_token: addr(0x11),
        buy_token: addr(0x22),
        sell_symbol: "USDC".to_string(),
        buy_symbol: "DAI".to_string(),
        sell_amount: Amount::of(1),
        buy_amount: Amount::of(2),
        sell_decimals: 6,
        buy_decimals: 18,
        valid_to: 9,
        status: OrderStatus::Open,
        executed: None,
        is_ethflow: false,
    }
}

fn confirm(s: &mut WalletScreen) -> Reply {
    go(s, Message::SignReview(ReviewEvent::Confirm))
}

// ── reviews ─────────────────────────────────────────────────────────────────

#[test]
fn nothing_is_signed_before_the_review_is_confirmed() {
    let mut s = account();
    let r = go(&mut s, Message::OpenSwap);
    assert!(r.effects.is_empty());
    let r = go(
        &mut s,
        Message::Swap(Some(SwapOutcome::RequestPlace { draft: draft(), quote: quote() })),
    );
    assert!(matches!(r.effects[0], Effect::ReviewSwap { host: CowHost::Modal, .. }));
    let r = review(&mut s, CowHost::Modal);
    match &r.effects[0] {
        Effect::PrepareCow { seq: 1, user, draft, quote } => {
            assert_eq!(*user, addr(1));
            assert_eq!(draft.sell_symbol, "USDC");
            assert_eq!(quote.id, Some(1));
            let figures = order_figures(draft, quote);
            assert_eq!(figures.sell, Amount::of(1_000));
            assert_eq!(figures.buy, Amount::of(2_000));
            assert_eq!(figures.min, Amount::of(1_990));
        }
        _ => panic!("the calls are worked out"),
    }
    assert!(!s.desk.order_op_in_flight);
    let r = confirm(&mut s);
    assert!(matches!(
        r.effects[0],
        Effect::Swap { host: CowHost::Modal, notice: SwapNotice::Placing }
    ));
    match &r.effects[1] {
        Effect::PlaceOrder { handoff, user, draft: d, .. } => {
            assert_eq!(handoff.cell, Some(Signer::Live { address: addr(1), handle: 7 }));
            assert_eq!(*user, addr(1));
            assert_eq!(d.sell_symbol, "USDC");
        }
        _ => panic!("the order is placed"),
    }
    assert_eq!(s.desk.signer, Signer::ViewOnly(addr(1)));
    assert!(confirm(&mut s).effects.is_empty(), "there is nothing left to confirm");
}

#[test]
fn an_open_review_is_not_replaced() {
    let mut s = account();
    review(&mut s, CowHost::Apps);
    assert!(review(&mut s, CowHost::Modal).effects.is_empty());
    let commit =
        NameOutcome::Commit { namespace: Namespace::Ens, label: "a".to_string(), years: 1 };
    assert!(s.handle_name_outcome(commit, hash(3)).effects.is_empty());
    go(&mut s, Message::CowPollTick);
    let open = s.gate.review.as_ref().expect("still open");
    assert!(matches!(open.action, SignAction::Cow { host: CowHost::Apps, .. }));
    go(&mut s, Message::SignReview(ReviewEvent::BoxClickIgnored));
    assert!(s.gate.review.is_some());
    let esc = Event::KeyPressed { key: Key::Escape, shift: false };
    go(&mut s, Message::SignReview(ReviewEvent::Key(esc)));
    assert!(s.gate.review.is_none());
    assert!(!s.desk.order_op_in_flight);
}

#[test]
fn late_calls_of_an_older_review_are_dropped() {
    let mut s = account();
    review(&mut s, CowHost::Apps);
    s.cancel_sign_review();
    review(&mut s, CowHost::Apps);
    go(&mut s, Message::SignReviewPrepared { seq: 1, legs: Ok(Vec::new()) });
    assert!(s.gate.review.as_ref().expect("open").legs_loading);
    go(&mut s, Message::SignReviewPrepared { seq: 2, legs: Ok(Vec::new()) });
    assert!(!s.gate.review.as_ref().expect("open").legs_loading);
}

#[test]
fn a_review_that_cannot_be_prepared_tells_its_pane() {
    let mut s = account();
    review(&mut s, CowHost::Apps);
    let r = go(&mut s, Message::SignReviewPrepared { seq: 1, legs: Err("no RPC".to_string()) });
    assert!(matches!(
        &r.effects[0],
        Effect::Swap { host: CowHost::Apps, notice: SwapNotice::Failed(e) } if e == "no RPC"
    ));
    assert!(s.gate.review.is_none());
    review(&mut s, CowHost::Modal);
    let r = go(&mut s, Message::SignReviewPrepared { seq: 2, legs: Err("no RPC".to_string()) });
    assert!(r.effects.is_empty(), "the dialog is gone");
}

#[test]
fn cancelling_is_signed_by_the_owner_of_the_order() {
    let uid = "0xdeadbeef".repeat(7);
    let mut s = in_safe();
    s.orders.orders.push(order(&uid, addr(0x5A)));
    s.open_cow_cancel_review(CowHost::Apps, &uid, "1");
    let r = confirm(&mut s);
    match &r.effects[0] {
        Effect::CancelOrderSafe { chain, ctx, .. } => {
            assert_eq!(*chain, Chain::Base);
            assert_eq!(ctx.safe, addr(0x5A));
            assert_eq!(ctx.signer_owners.len(), 2);
        }
        _ => panic!("the Safe cancels"),
    }
    let mut s = account();
    s.orders.orders.push(order(&uid, addr(1)));
    s.open_cow_cancel_review(CowHost::Apps, &uid, "1");
    assert!(matches!(confirm(&mut s).effects[0], Effect::CancelOrder { .. }));
    let mut s = account();
    s.open_cow_cancel_review(CowHost::Apps, "0xunknown", "1");
    assert!(s.gate.review.is_none());
}

#[test]
fn a_safe_that_cannot_swap_says_so() {
    let mut s = in_safe();
    s.identity.safes[0].trust = SafeTrust::UnrecognizedImpl;
    let r = s.place_order_task(CowHost::Apps, draft(), quote());
    assert!(matches!(
        &r.effects[0],
        Effect::Swap { notice: SwapNotice::Failed(e), .. } if e.starts_with("This Safe can't place swaps")
    ));
    assert!(!s.desk.order_op_in_flight);
    let mut s = in_safe();
    let r = s.place_order_task(CowHost::Apps, draft(), quote());
    assert!(matches!(&r.effects[0], Effect::PlaceOrderSafe { ctx, .. } if ctx.chain == Chain::Mainnet));
}

// ── names ───────────────────────────────────────────────────────────────────

fn register(label: &str) -> NameOutcome {
    NameOutcome::RegisterXns { namespace: "xns".to_string(), label: label.to_string() }
}

#[test]
fn names_wait_for_other_signatures() {
    let mut s = account();
    s.desk.park_signer_for_order();
    let r = s.handle_name_outcome(register("a"), hash(1));
    assert!(matches!(
        &r.effects[0],
        Effect::Names(NamesNotice::Failed { phase: NamePhase::Reveal, why })
            if why.starts_with("another signing operation is in progress")
    ));
    let sign = NameSign::RegisterXns { namespace: "xns".to_string(), label: "a".to_string() };
    let r = s.dispatch_name_sign(sign);
    assert!(matches!(&r.effects[0], Effect::Names(NamesNotice::Failed { .. })));
    assert_eq!(r.effects.len(), 1);
}

#[test]
fn a_confirmed_name_is_written() {
    let mut s = account();
    let r = s.handle_name_outcome(register("a"), hash(1));
    match &r.effects[0] {
        Effect::PrepareName { seq: 1, from, sign } => {
            assert_eq!(*from, addr(1));
            assert_eq!(sign.leg_title(), "Register a.xns");
        }
        _ => panic!("the call is worked out"),
    }
    let r = confirm(&mut s);
    assert!(matches!(r.effects[0], Effect::Names(NamesNotice::Begin(NamePhase::Reveal))));
    match &r.effects[1] {
        Effect::WriteName { sign: NameSign::RegisterXns { label, .. }, .. } => {
            assert_eq!(label, "a");
        }
        _ => panic!("the name is written"),
    }
    let back = SignerHandoff { cell: Some(Signer::Live { address: addr(1), handle: 7 }) };
    let r = go(&mut s, Message::NameRegistered { signer: back });
    assert!(matches!(r.effects[0], Effect::Names(NamesNotice::Written(NamePhase::Reveal))));
    assert!(s.can_swap());
    let mut s = in_safe();
    s.handle_name_outcome(register("a"), hash(1));
    let r = confirm(&mut s);
    assert!(matches!(&r.effects[1], Effect::WriteNameSafe { ctx, .. } if ctx.owners.len() == 2));
}

#[test]
fn every_commitment_has_a_secret_of_its_own() {
    let mut secrets = Vec::new();
    for _ in 0..2 {
        let mut s = account();
        let commit =
            NameOutcome::Commit { namespace: Namespace::Ens, label: "a".to_string(), years: 2 };
        go(&mut s, Message::Apps(apps::Message::Names(Some(commit))));
        match &s.gate.review.as_ref().expect("reviewed").action {
            SignAction::Name { sign: NameSign::Commit(plan) } => {
                assert_eq!(plan.owner, addr(1));
                assert_eq!(plan.duration_secs, 63_072_000);
                secrets.push(plan.secret);
            }
            other => panic!("{other:?}"),
        }
    }
    assert_ne!(secrets[0], secrets[1]);
}

#[test]
fn reads_are_for_the_identity_on_screen() {
    let mut s = in_safe();
    let r = s.handle_name_outcome(NameOutcome::ReverseScan, hash(1));
    assert!(matches!(
        r.effects[0],
        Effect::ReadNames { owner, ask: NameOutcome::ReverseScan } if owner == addr(0x5A)
    ));
    assert!(go(&mut s, Message::NameReverseScanned { owner: addr(1) }).effects.is_empty());
    let r = go(&mut s, Message::NameSearched { owner: addr(0x5A), seq: 4 });
    assert!(matches!(r.effects[0], Effect::Names(NamesNotice::Searched(4))));
    let r = go(&mut s, Message::NameQuoted { owner: addr(0x5A), years: 2 });
    assert!(matches!(r.effects[0], Effect::Names(NamesNotice::Quoted(2))));
    let r = go(&mut s, Message::NameStatusLoaded { owner: addr(0x5A) });
    assert!(matches!(r.effects[0], Effect::Names(NamesNotice::StatusLoaded)));
}

// ── orders ──────────────────────────────────────────────────────────────────

#[test]
fn a_placed_order_is_followed_and_asked_for() {
    let mut s = account();
    go(&mut s, Message::OpenSwap);
    let handoff = s.desk.park_signer_for_order();
    let r = go(
        &mut s,
        Message::CowPlaced {
            host: CowHost::Modal,
            result: Ok(order("0x1", addr(1))),
            signer: handoff,
        },
    );
    assert!(matches!(
        &r.effects[0],
        Effect::Swap { notice: SwapNotice::Tracking(u), .. } if u == "0x1"
    ));
    assert!(matches!(&r.effects[1], Effect::PollOrder { chain: Chain::Base, uid } if uid == "0x1"));
    assert_eq!(go(&mut s, Message::CowPollTick).effects.len(), 1);
    let news = OrderNews { status: OrderStatus::Fulfilled, executed: None };
    let r = go(&mut s, Message::CowStatus { uid: "0x1".to_string(), result: Ok(news) });
    assert!(matches!(&r.effects[0], Effect::RefetchTokens(f) if f.owner == addr(1)));
    assert!(go(&mut s, Message::CowPollTick).effects.is_empty());
}

#[test]
fn a_fill_for_another_identity_reads_nothing() {
    let mut s = account();
    s.orders.orders.push(order("0x1", addr(0x77)));
    let news = OrderNews { status: OrderStatus::Fulfilled, executed: None };
    let r = go(&mut s, Message::CowStatus { uid: "0x1".to_string(), result: Ok(news) });
    assert!(r.effects.is_empty());
    assert_eq!(s.orders.orders[0].status, OrderStatus::Fulfilled);
    let missed = Message::CowStatus { uid: "0x1".to_string(), result: Err("404".to_string()) };
    go(&mut s, missed);
    assert_eq!(s.orders.orders[0].status, OrderStatus::Fulfilled);
}

#[test]
fn a_cancelled_order_is_marked_and_the_signer_is_back() {
    let mut s = account();
    s.orders.orders.push(order("0x1", addr(1)));
    let handoff = s.desk.park_signer_for_order();
    go(
        &mut s,
        Message::CowCancel {
            host: CowHost::Apps,
            uid: "0x1".to_string(),
            result: Ok(()),
            signer: handoff,
        },
    );
    assert_eq!(s.orders.orders[0].status, OrderStatus::Cancelled);
    assert!(s.can_swap());
    let handoff = s.desk.park_signer_for_order();
    let r = go(
        &mut s,
        Message::CowCancel {
            host: CowHost::Apps,
            uid: "0x1".to_string(),
            result: Err("locked".to_string()),
            signer: handoff,
        },
    );
    assert!(matches!(&r.effects[0], Effect::Swap { notice: SwapNotice::Failed(e), .. } if e == "locked"));
}

#[test]
fn orders_are_fetched_where_they_can_be_placed() {
    let mut s = in_safe();
    let r = go(&mut s, Message::Apps(apps::Message::RefreshOrders));
    assert_eq!(r.effects.len(), 2);
    assert!(matches!(
        r.effects[0],
        Effect::FetchOrders { chain: Chain::Mainnet, owner } if owner == addr(0x5A)
    ));
    assert!(matches!(r.effects[1], Effect::FetchOrders { chain: Chain::Base, .. }));
    let fetched = Message::CowAccountOrders {
        address: addr(0x5A),
        chain: Chain::Base,
        result: Ok(vec![order("0x9", addr(0x5A))]),
    };
    go(&mut s, fetched);
    assert_eq!(s.active_cow_orders().len(), 1);
}

#[test]
fn quotes_reach_the_surface_that_asked() {
    let mut s = account();
    let asked = apps::Message::Composer(Some(apps::ComposerOutcome::RequestQuote(draft())));
    let r = go(&mut s, Message::Apps(asked));
    assert!(matches!(
        r.effects[0],
        Effect::QuoteSwap { host: CowHost::Apps, user, .. } if user == addr(1)
    ));
    let r = go(&mut s, Message::CowQuote { host: CowHost::Apps, result: Ok(quote()) });
    assert!(matches!(r.effects[0], Effect::Swap { notice: SwapNotice::Quote(Ok(_)), .. }));
    let r = go(&mut s, Message::CowQuote { host: CowHost::Modal, result: Ok(quote()) });
    assert!(r.effects.is_empty());
}

// ── queued transactions ─────────────────────────────────────────────────────

fn queued() -> PendingSafeTx {
    PendingSafeTx {
        safe_tx_hash: hash(0xab),
        to: addr(0xdd),
        value: Amount::zero(),
        data: Vec::new(),
        operation: 0,
        nonce: 5,
        state: SafeTxState::AwaitingExecution { is_next: true },
        submission_ts: 0,
    }
}

fn facts(byte: u8) -> DetailFacts {
    DetailFacts { safe_tx_hash: hash(byte), operation: 0, next_up: true }
}

fn detail() -> WalletScreen {
    let mut s = in_safe();
    s.queue.pending.push(queued());
    let r = go(&mut s, Message::OpenSafeTxDetails(0));
    assert!(matches!(
        r.effects[0],
        Effect::LoadDetail { threshold: 2, delayed: false, hash: h, .. } if h == hash(0xab)
    ));
    s
}

#[test]
fn a_queued_transaction_is_loaded_and_simulated() {
    let mut s = detail();
    assert!(go(&mut s, Message::SafeTxDetailLoaded(Ok(facts(1)))).effects.is_empty());
    let r = go(&mut s, Message::SafeTxDetailLoaded(Ok(facts(0xab))));
    assert!(matches!(r.effects[0], Effect::SimulateInner { delayed: false, .. }));
    assert!(matches!(
        r.effects[1],
        Effect::SimulateExecution { executor, delayed: false, .. } if executor == addr(1)
    ));
    let again = Message::SafeTxInnerSimLoaded { safe_tx_hash: hash(0xab), again: true };
    assert!(matches!(go(&mut s, again).effects[0], Effect::SimulateInner { delayed: true, .. }));
    let other = Message::SafeTxExecSimLoaded { safe_tx_hash: hash(1), again: true };
    assert!(go(&mut s, other).effects.is_empty());
}

#[test]
fn a_queued_transaction_is_confirmed_by_a_linked_owner() {
    let mut s = detail();
    let early = Message::SafeTxDetail(DetailEvent::Confirm { owner: Some(addr(2)) });
    assert!(go(&mut s, early).effects.is_empty(), "nothing is loaded yet");
    go(&mut s, Message::SafeTxDetailLoaded(Ok(facts(0xab))));
    let r = go(&mut s, Message::SafeTxDetail(DetailEvent::Confirm { owner: Some(addr(2)) }));
    match &r.effects[0] {
        Effect::ConfirmTx { owner: AccountDescriptor::Local { key, .. }, hash: h, .. } => {
            assert_eq!(*key, hash(2));
            assert_eq!(*h, hash(0xab));
        }
        _ => panic!("the owner signs"),
    }
    assert!(s.is_send_busy());
    let r = go(&mut s, Message::SafeTxActionDone(Ok("Signature added".to_string())));
    assert!(!s.is_send_busy());
    assert_eq!(r.effects.len(), 4);
    assert!(matches!(r.effects[1], Effect::LoadDetail { delayed: false, .. }));
    assert!(matches!(r.effects[2], Effect::LoadDetail { delayed: true, .. }));
    assert!(matches!(r.effects[3], Effect::FetchQueue { .. }));
}

fn asked(e: &Effect) -> &str {
    match e {
        Effect::FetchQueue { service, .. } => service,
        Effect::LoadDetail { service, .. } => service,
        Effect::ConfirmTx { service, .. } => service,
        Effect::RejectTx { service, .. } => service,
        _ => panic!("the service is asked"),
    }
}

#[test]
fn a_safe_asks_its_own_service() {
    let base = "https://api.safe.global/tx-service";
    let config = env_at(0).config;
    let mut s = detail();
    assert_eq!(asked(&s.fetch_safe_pending_task(&config).expect("a queue")), base);
    go(&mut s, Message::SafeTxDetailLoaded(Ok(facts(0xab))));
    let confirm = Message::SafeTxDetail(DetailEvent::Confirm { owner: Some(addr(2)) });
    assert_eq!(asked(&go(&mut s, confirm).effects[0]), base);

    let mut s = in_safe();
    s.identity.safes[0].tx_service_url = Some("https://tx.example".to_string());
    s.queue.pending.push(queued());
    assert_eq!(asked(&s.fetch_safe_pending_task(&config).expect("a queue")), "https://tx.example");
    let r = go(&mut s, Message::OpenSafeTxDetails(0));
    assert_eq!(asked(&r.effects[0]), "https://tx.example");
    go(&mut s, Message::SafeTxDetailLoaded(Ok(facts(0xab))));
    let reject = Message::SafeTxDetail(DetailEvent::Reject { owner: Some(addr(1)) });
    assert_eq!(asked(&go(&mut s, reject).effects[0]), "https://tx.example");
    let r = go(&mut s, Message::SafeTxActionDone(Ok("Rejection proposed".to_string())));
    for e in &r.effects[1..] {
        assert_eq!(asked(e), "https://tx.example");
    }
    assert!(account().fetch_safe_pending_task(&config).is_none());
}

#[test]
fn a_submitted_execution_is_not_simulated_again() {
    let mut s = detail();
    go(&mut s, Message::SafeTxDetailLoaded(Ok(facts(0xab))));
    let r = go(&mut s, Message::SafeTxDetail(DetailEvent::Execute));
    assert!(matches!(r.effects[0], Effect::ExecuteTx { key, .. } if key == hash(1)));
    go(&mut s, Message::SafeTxActionDone(Ok("Executed".to_string())));
    let r = go(&mut s, Message::SafeTxDetail(DetailEvent::RetrySims));
    assert_eq!(r.effects.len(), 1);
    assert!(matches!(r.effects[0], Effect::SimulateInner { .. }));
}

fn refusal(r: &Reply) -> String {
    match &r.effects[0] {
        Effect::DetailFailed(e) => e.clone(),
        _ => panic!("refused"),
    }
}

#[test]
fn a_queued_action_is_refused_with_a_reason() {
    let mut s = detail();
    go(&mut s, Message::SafeTxDetailLoaded(Ok(facts(0xab))));
    let confirm = |owner: Option<Address>| Message::SafeTxDetail(DetailEvent::Confirm { owner });
    assert_eq!(refusal(&go(&mut s, confirm(None))), "no linked owner left to sign with");
    let reject = Message::SafeTxDetail(DetailEvent::Reject { owner: Some(addr(9)) });
    assert_eq!(refusal(&go(&mut s, reject)), "no linked owner available to reject");
    let reject = Message::SafeTxDetail(DetailEvent::Reject { owner: Some(addr(1)) });
    assert!(matches!(go(&mut s, reject).effects[0], Effect::RejectTx { nonce: 5, .. }));
    if let Modal::SafeTxDetail(p) = &mut s.modal {
        p.version = "1.1.1".to_string();
    }
    assert!(refusal(&go(&mut s, confirm(Some(addr(1))))).contains("outside the signable range"));
    s.identity.safes[0].trust = SafeTrust::UnrecognizedImpl;
    assert!(refusal(&go(&mut s, confirm(Some(addr(1))))).contains("not recognized"));
    s.identity.active_safe = None;
    assert!(refusal(&go(&mut s, confirm(Some(addr(1))))).contains("Safe selection changed"));
    assert!(!s.is_send_busy());
    let hw = AccountDescriptor::Ledger { name: None, path: String::new(), address: addr(1) };
    let mut s = dashboard(vec![hw], vec![safe(0x5A, 1, vec![0])]);
    s.identity.active_safe = Some(0);
    s.queue.pending.push(queued());
    go(&mut s, Message::OpenSafeTxDetails(0));
    go(&mut s, Message::SafeTxDetailLoaded(Ok(facts(0xab))));
    let r = go(&mut s, Message::SafeTxDetail(DetailEvent::Execute));
    assert_eq!(refusal(&r), "need a Local account to pay gas for execution");
}

#[test]
fn owners_of_the_safe_on_screen_are_listed() {
    let s = in_safe();
    let l = s.safe_owner_lists().expect("a Safe");
    assert_eq!(l.owners, vec![addr(1), addr(2)]);
    assert_eq!(l.signable, vec![addr(1), addr(2)]);
    assert!(l.has_local_executor);
    assert!(account().safe_owner_lists().is_none());
}

// ── sending ─────────────────────────────────────────────────────────────────

#[test]
fn a_send_lends_the_signer_and_gets_it_back() {
    let mut s = account();
    let r = go(&mut s, Message::OpenSend);
    assert!(!r.effects.is_empty());
    let r = go(&mut s, Message::Send(SendEvent::Confirm { ready: true, request: None }));
    let handoff = match &r.effects[0] {
        Effect::Broadcast { handoff, .. } => handoff.cell.is_some(),
        _ => false,
    };
    assert!(handoff);
    assert!(s.is_send_busy());
    let back = SignerHandoff { cell: Some(Signer::Live { address: addr(1), handle: 7 }) };
    let r = go(
        &mut s,
        Message::SendBroadcastReturn { result: Err("nonce too low".to_string()), signer: back },
    );
    assert!(matches!(&r.effects[0], Effect::SendDone(Err(e)) if e == "nonce too low"));
    assert!(s.can_send());
    let fill = |i: usize| Message::Send(SendEvent::Max(i));
    assert!(go(&mut s, fill(0)).effects.is_empty(), "there are no tokens");
    let row = |raw: u128, contract: Option<Address>| LiveToken {
        symbol: "T".to_string(),
        name: "Token".to_string(),
        balance: "1,234.5".to_string(),
        balance_raw: Amount::of(raw),
        decimals: 2,
        contract,
        priced: false,
        usd_rank: 0,
        chain: NetworkId::Builtin(Chain::Mainnet),
    };
    s.portfolio.rows = vec![row(700, None), row(123_450, Some(addr(3)))];
    match &go(&mut s, fill(1)).effects[0] {
        Effect::ApplyMax(h) => {
            assert_eq!(h.contract, Some(addr(3)));
            assert_eq!(h.balance, "1,234.5");
            assert_eq!(compute_max_amount(h, Some(Amount::of(50))), "1234.5");
        }
        _ => panic!("the amount is filled in"),
    }
    match &go(&mut s, fill(0)).effects[0] {
        Effect::ApplyMax(h) => assert_eq!(compute_max_amount(h, Some(Amount::of(50))), "6.5"),
        _ => panic!("the amount is filled in"),
    }
    assert!(go(&mut s, fill(2)).effects.is_empty(), "there is no such token");
}

#[test]
fn a_safe_needs_its_threshold_of_owners() {
    let mut s = in_safe();
    go(&mut s, Message::OpenSend);
    let ask = |n: u32| SafeAsk { threshold: n, signable_indices: vec![0, 1] };
    let r = go(
        &mut s,
        Message::Send(SendEvent::Confirm { ready: true, request: Some(ask(3)) }),
    );
    assert!(matches!(r.effects[0], Effect::SendFailed(_)));
    let r = go(
        &mut s,
        Message::Send(SendEvent::Confirm { ready: true, request: Some(ask(2)) }),
    );
    assert!(matches!(&r.effects[0], Effect::BroadcastSafe { owners, .. } if owners.len() == 2));
    let mut s = in_safe();
    go(&mut s, Message::OpenSend);
    let r = go(&mut s, Message::Send(SendEvent::Propose { request: Some(ask(2)) }));
    assert!(matches!(r.effects[0], Effect::ProposeSafe { .. }));
    let r = go(&mut s, Message::SafeSendProposeReturn(Ok(())));
    assert!(matches!(r.effects[0], Effect::ProposeDone(Ok(()))));
}

#[test]
fn a_device_is_connected_before_a_send() {
    let hw = AccountDescriptor::Trezor { name: None, path: String::new(), address: addr(1) };
    let mut s = WalletScreen::new(
        Signer::ViewOnly(addr(1)),
        vec![hw],
        Vec::new(),
        0,
        Table::new(),
        None,
        0,
        Vec::new(),
        0,
    );
    let r = go(&mut s, Message::OpenSend);
    assert!(matches!(r.outcome, Some(Outcome::NeedsHardwareReconnect { open_send: true })));
    let r = go(&mut s, Message::ReconnectHardware);
    assert!(matches!(r.outcome, Some(Outcome::NeedsHardwareReconnect { open_send: false })));
    assert_eq!(s.hardware_status(), Some(HardwareStatus::Trezor { connected: false }));
    s.desk.park_signer_for_order();
    assert_eq!(s.hardware_status(), Some(HardwareStatus::Trezor { connected: true }));
}

#[test]
fn a_recipient_can_become_a_contact() {
    let mut s = account();
    go(&mut s, Message::OpenSend);
    let save = SendOutcome::SaveAsContact { address: addr(9), ens: Some("ann.eth".to_string()) };
    let other = SendEvent::Other { outcome: Some(save), lookup: None, prepare: false, retry: None };
    let r = go(&mut s, Message::Send(other));
    assert!(r.effects.iter().any(|e| matches!(e, Effect::OpenContacts { .. })));
    go(
        &mut s,
        Message::OpenContactsPaneWith { address: addr(9), ens: Some("ann.eth".to_string()) },
    );
    assert_eq!(s.current_nav(), Nav::Settings);
    assert!(matches!(&s.settings, SettingsPane::Contacts(p) if p.draft.address_input == "ann.eth"));
    assert_eq!(s.recipient_exclusions(), Some((Some(0), None)));
    s.modal = Modal::Send(SendModal { is_safe: true, busy: false });
    s.identity.active_safe = Some(4);
    assert_eq!(s.recipient_exclusions(), Some((None, Some(4))));
}

// ── panes ───────────────────────────────────────────────────────────────────

#[test]
fn what_is_copied_is_cleared_where_it_still_stands() {
    let mut s = account();
    s.modal = Modal::TxDetails(wallet_dashboard::activity::IndexedTx {
        hash: hash(1),
        block_number: 1,
        timestamp: 1,
        from: addr(1),
        to: None,
        value: Amount::zero(),
        success: true,
        direction: wallet_dashboard::activity::TxDirection::Out,
        method: None,
        token: None,
        gas_used: None,
        gas_price: None,
        chain: Chain::Mainnet,
    });
    let copy = Message::TxDetails(Some(TxDetailsOutcome::CopyText("0xabc".to_string())));
    let r = go(&mut s, copy);
    assert!(matches!(&r.effects[0], Effect::WriteClipboard(t) if t == "0xabc"));
    let generation = match r.effects[1] {
        Effect::StartClearTimer(g) => g,
        _ => panic!("a timer"),
    };
    let r = go(&mut s, Message::ClipboardClearArmed { generation });
    assert!(matches!(r.effects[0], Effect::ReadClipboard(g) if g == generation));
    let probe =
        Message::ClipboardClearProbe { generation, actual: Some("0xabc".to_string()) };
    assert!(matches!(go(&mut s, probe).effects[0], Effect::ClearClipboard));
    assert!(s.clipboard.clear.is_none());
}

#[test]
fn settings_open_and_close() {
    let mut s = account();
    go(&mut s, Message::OpenNetworksSettings);
    assert!(matches!(s.settings, SettingsPane::NetworkWizard));
    let r = go(&mut s, Message::NetworkWizard(true));
    assert!(matches!(r.effects[0], Effect::RefreshLater));
    assert!(matches!(s.settings, SettingsPane::Root));
    go(&mut s, Message::OpenSafesSettings);
    let url = SafesOutcome::SetServiceUrl { index: 0, url: None };
    let r = go(&mut s, Message::SafesSettings(Some(url)));
    assert!(matches!(r.outcome, Some(Outcome::SetSafeServiceUrl { index: 0, url: None })));
    go(&mut s, Message::SafesSettings(Some(SafesOutcome::Closed)));
    go(&mut s, Message::OpenAppearanceSettings);
    assert!(matches!(s.settings, SettingsPane::Appearance));
    go(&mut s, Message::CloseAppearanceSettings);
    assert!(matches!(s.settings, SettingsPane::Root));
    let r = go(&mut s, Message::SelectTheme(2));
    assert!(matches!(r.effects[0], Effect::SaveTheme(2)));
    go(&mut s, Message::VerificationRefreshed(VerificationStatus::Verified));
    assert_eq!(s.verification, VerificationStatus::Verified);
}

#[test]
fn contacts_are_handed_to_the_application() {
    let mut s = account();
    let book = ContactsBook { contacts: Vec::new() };
    let e = env_at(0);
    s.update(Message::OpenContactsSettings, &e, Some(&book));
    let mut say = |m: contacts_settings::Message| s.update(Message::Contacts(m), &e, Some(&book));
    say(contacts_settings::Message::OpenAdd);
    say(contacts_settings::Message::NameChanged("Ann".to_string()));
    let r = say(contacts_settings::Message::AddressChanged("ann.eth".to_string()));
    assert!(r.effects.iter().any(|e| matches!(e, Effect::ResolveContact { name, .. } if name == "ann.eth")));
    say(contacts_settings::Message::AddressChanged(
        "0x1111111111111111111111111111111111111111".to_string(),
    ));
    let r = say(contacts_settings::Message::Save);
    assert!(matches!(r.outcome, Some(Outcome::SaveContacts(v)) if v.len() == 1));
}

#[test]
fn an_account_is_renamed_as_it_is_typed() {
    let mut s = account();
    go(&mut s, Message::RenameInput("lost".to_string()));
    assert!(s.rename_draft.is_none());
    let r = go(&mut s, Message::BeginRenameAccount);
    assert!(matches!(r.effects[0], Effect::FocusRename));
    go(&mut s, Message::RenameInput("  Savings ".to_string()));
    let r = go(&mut s, Message::CommitRename);
    assert!(matches!(r.outcome, Some(Outcome::RenameActive(Some(n))) if n == "Savings"));
    assert_eq!(s.identity.display_name(), "Savings");
    go(&mut s, Message::BeginRenameAccount);
    go(&mut s, Message::CancelRename);
    assert!(s.rename_draft.is_none());
    let found = Message::EnsAutoNameResolved {
        address: addr(1),
        result: Ok(Some("ann.eth".to_string())),
    };
    go(&mut s, found);
    assert_eq!(s.identity.display_name(), "Savings", "a name that was given stays");
}

#[test]
fn a_review_silences_what_lies_beneath() {
    let mut s = account();
    s.nav = Nav::Apps;
    let l = s.subscription(false, 0);
    assert!(l.apps.is_some() && !l.review && !l.dialog && !l.frames && !l.poll);
    go(&mut s, Message::Apps(apps::Message::OpenPrivacyPoolsApp));
    let pool = |s: &WalletScreen| {
        let l = s.subscription(false, 0).apps.expect("the apps listen");
        let p = l.pool.expect("the pools listen");
        (p.frames, p.keys)
    };
    assert_eq!(pool(&s), (false, false));
    s.apps.pool.set_identity(true);
    s.apps.pool.set_syncing(true, 5);
    assert_eq!(pool(&s), (true, true));
    s.apps.pool.set_syncing(false, 6);
    assert_eq!(pool(&s), (false, false));
    s.apps.pool.set_proving("Proving".to_string(), 7);
    assert_eq!(pool(&s), (true, true));
    go(&mut s, Message::OpenSwap);
    let l = s.subscription(false, 100);
    assert!(l.apps.is_none() && l.dialog && l.frames);
    s.orders.orders.push(order("0x1", addr(1)));
    review(&mut s, CowHost::Modal);
    let l = s.subscription(true, 100_000);
    assert!(l.review && !l.dialog && l.frames && l.poll);
}

#[test]
fn names_of_contacts_come_first() {
    let accounts = vec![local(1), local(2)];
    let safes = vec![safe(0x5A, 1, vec![0])];
    let book = ContactsBook {
        contacts: vec![Contact {
            name: "Me".to_string(),
            address: addr(2),
            kaomoji: String::new(),
            notes: String::new(),
            ens: None,
        }],
    };
    let names = build_local_names(&accounts, &safes, Some(&book));
    assert_eq!(names.get(&addr(1)).map(|s| s.as_str()), Some("Account 1"));
    assert_eq!(names.get(&addr(2)).map(|s| s.as_str()), Some("Me"));
    assert_eq!(names.get(&addr(0x5A)).map(|s| s.as_str()), Some("Safe 1"));
    let without = build_local_names(&accounts, &safes, None);
    assert_eq!(without.get(&addr(2)).map(|s| s.as_str()), Some("Account 2"));
}

#[test]
fn a_safe_is_fetched_on_its_own_chain() {
    let mut s = dashboard(vec![local(1)], vec![safe(0x5A, 1, vec![0])]);
    assert_eq!(s.fetch_portfolio_task(&env_at(0).config).len(), 4);
    assert_eq!(
        s.identity.allowed_networks(&vec![31337]),
        vec![
            NetworkId::Builtin(Chain::Mainnet),
            NetworkId::Builtin(Chain::Optimism),
            NetworkId::Builtin(Chain::Base),
            NetworkId::Custom(31337),
        ]
    );
    go(&mut s, Message::OpenAccountDropdown);
    let r = go(&mut s, Message::AccountDropdown(account_dropdown::Message::SelectSafe(0)));
    let balances: Vec<&Effect> = r
        .effects
        .iter()
        .filter(|e| matches!(e, Effect::FetchBalances { .. }))
        .collect();
    assert_eq!(balances.len(), 1);
    assert!(matches!(
        balances[0],
        Effect::FetchBalances { address, network: NetworkId::Builtin(Chain::Mainnet) }
            if *address == addr(0x5A)
    ));
    assert_eq!(s.identity.network_short_name(), Chain::Mainnet.label());
}

#[test]
fn the_feed_is_fetched_when_it_is_looked_at() {
    let mut s = account();
    let r = go(&mut s, Message::SelectNav(Nav::Activity));
    assert_eq!(r.effects.len(), 3);
    assert!(s.history.loading);
    let r = go(&mut s, Message::SelectNav(Nav::Home));
    assert!(r.effects.is_empty());
    for chain in [Chain::Mainnet, Chain::Optimism, Chain::Base] {
        let failed = Message::HistoryFetched {
            address: addr(1),
            chain,
            result: Err("down".to_string()),
        };
        go(&mut s, failed);
    }
    assert_eq!(s.history_error().as_deref(), Some("down"));
    assert_eq!(go(&mut s, Message::RetryHistory).effects.len(), 3);
}

#[test]
fn a_dialog_goes_once_it_has_closed() {
    let mut s = account();
    go(&mut s, Message::OpenReceive);
    assert!(matches!(s.modal, Modal::Receive(a) if a == addr(1)));
    s.update(Message::Receive(true), &env_at(1_000), None);
    s.update(Message::Tick, &env_at(1_100), None);
    assert!(matches!(s.modal, Modal::Receive(_)));
    s.update(Message::Tick, &env_at(1_300), None);
    assert!(matches!(s.modal, Modal::Closed));
}

#[test]
fn the_signer_and_the_cache_are_handed_on() {
    let mut s = account();
    let network = NetworkId::Builtin(Chain::Base);
    go(
        &mut s,
        Message::PortfolioFetched { address: addr(1), network, result: Ok(Vec::new()) },
    );
    let slot = wallet_dashboard::portfolio::Slot { address: addr(1), network };
    let (signer, cache) = s.into_signer();
    assert_eq!(signer, Signer::Live { address: addr(1), handle: 7 });
    assert!(cache.contains(&slot));
}

#[test]
fn a_lent_signer_comes_back_where_its_device_is_away() {
    let live = Signer::Live { address: addr(1), handle: 7 };
    let mut handoff = SignerHandoff { cell: Some(live) };
    assert_eq!(handoff.take_signer(), Ok(Signer::Live { address: addr(1), handle: 7 }));
    assert_eq!(handoff.take_signer(), Err("signer not available"));
    let back = Signer::Live { address: addr(1), handle: 7 };
    let r = handoff.settle_connection(Err((back, "unplugged".to_string())));
    assert_eq!(r, Err("unplugged".to_string()));
    assert!(handoff.cell.is_some());
}

#[test]
fn an_unnamed_account_is_looked_up() {
    let mut s = account();
    assert!(matches!(s.fetch_ens_name_task(), Some(Effect::LookUpName(a)) if a == addr(1)));
    let found = Message::EnsAutoNameResolved {
        address: addr(1),
        result: Ok(Some("ann.eth".to_string())),
    };
    go(&mut s, found);
    assert!(s.fetch_ens_name_task().is_none());
    assert_eq!(s.address_for_log(), "0x0101…0101");
}

#[test]
fn a_safe_without_signers_has_no_apps() {
    let mut s = dashboard(vec![local(1)], vec![safe(0x5A, 1, Vec::new())]);
    s.identity.active_safe = Some(0);
    s.nav = Nav::Apps;
    assert_eq!(s.shown_nav(), Nav::Home);
    assert!(!s.can_send());
    assert!(go(&mut s, Message::OpenSwap).effects.is_empty());
    assert!(matches!(s.modal, Modal::Closed));
}
