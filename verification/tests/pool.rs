use wallet_dashboard::apps::AppsPane;
use wallet_dashboard::keyed::Table;
use wallet_dashboard::keys::{Event, Key};
use wallet_dashboard::phrase::Phrase;
use wallet_dashboard::pool_app::{
    Message, Outcome, PoolAccount, PoolApp, PoolInfo, PoolState, PoolTxKind, QuoteResponse,
    Relayer, Screen, TargetResolution,
};
use wallet_dashboard::pool_view::{
    deposit_balance, depositing_line, loading_line, max_preset, min_preset, picker_selected,
    pool_chains, proving_stage, shorten, OverviewBody, TargetHint,
};
use wallet_dashboard::portfolio::LiveToken;
use wallet_dashboard::types::{Address, Amount, Chain, Hash32, NetworkId};

const ETHER: u128 = 1_000_000_000_000_000_000;

fn addr(byte: u8) -> Address {
    Address::from_bytes([byte; 20])
}

fn hash(byte: u8) -> Hash32 {
    Hash32 { hi: u128::from_be_bytes([byte; 16]), lo: u128::from_be_bytes([byte; 16]) }
}

fn info() -> PoolInfo {
    PoolInfo {
        pool: addr(0xE0),
        chain: Chain::Mainnet,
        scope: Amount::of(1),
        entrypoint: addr(0xE1),
        asset: addr(0xEE),
        is_native: true,
        symbol: "ETH".to_string(),
        decimals: 18,
        min_deposit: Amount::of(ETHER / 10),
        anonymity_set: 42,
        verified: true,
    }
}

fn relayer(name: &str) -> Relayer {
    Relayer { name: name.to_string(), url: format!("https://{name}.example") }
}

/// A pane with one synced pool that holds two ether and an empty account.
fn synced() -> PoolApp {
    let mut app = PoolApp::new(Vec::new());
    app.set_identity(true);
    app.set_pools(Chain::Mainnet, vec![info()], vec![relayer("fast")]);
    let accounts = vec![
        PoolAccount { label: hash(1), spendable: None },
        PoolAccount { label: hash(2), spendable: Some(Amount::of(2 * ETHER)) },
    ];
    app.set_state(addr(0xE0), PoolState { accounts, next_deposit_index: 2 });
    app
}

fn quote(bps: Option<u64>) -> QuoteResponse {
    QuoteResponse { fee_bps: bps, raw: "{}".to_string() }
}

fn withdrawing() -> PoolApp {
    let mut app = synced();
    app.update(Message::OpenWithdraw(0, 1));
    app.update(Message::WithdrawTarget(format!("0x{}", "11".repeat(20))));
    app.update(Message::WithdrawAmount("1.5".to_string()));
    app
}

#[test]
fn a_share_of_the_balance_is_exact() {
    let app = withdrawing();
    assert_eq!(app.percent_amount(25), Some(Amount::of(ETHER / 2)));
    assert_eq!(app.percent_amount(100), Some(Amount::of(2 * ETHER)));
    assert_eq!(app.selected_account_balance(), Some(Amount::of(2 * ETHER)));
    assert_eq!(PoolApp::new(Vec::new()).percent_amount(25), None);
}

#[test]
fn the_fee_comes_off_what_is_received() {
    let mut app = withdrawing();
    let f = app.review_figures().expect("a pool");
    assert_eq!(f.fee_line, "Fetching quote…");
    assert_eq!(f.received, Amount::of(3 * ETHER / 2));
    app.set_quote(quote(Some(200)));
    assert_eq!(app.screen, Screen::Review);
    let f = app.review_figures().expect("a pool");
    assert_eq!(f.fee_line, "Relay fee: 200 bps");
    assert_eq!(f.amount, Amount::of(3 * ETHER / 2));
    assert_eq!(f.received, Amount::of(1_470_000_000_000_000_000));
    app.set_quote(quote(Some(20_000)));
    assert_eq!(app.review_figures().expect("a pool").received, Amount::zero());
    app.set_quote(quote(None));
    assert_eq!(app.fee_bps(), 0);
}

#[test]
fn a_confirmed_withdrawal_carries_what_was_reviewed() {
    let mut app = withdrawing();
    assert!(app.can_get_quote());
    match app.update(Message::WithdrawGetQuote) {
        Some(Outcome::Quote(req)) => {
            assert_eq!(req.target, addr(0x11));
            assert_eq!(req.amount, Amount::of(3 * ETHER / 2));
            assert_eq!(req.account, 1);
            assert_eq!(req.relayer.as_deref(), Some("https://fast.example"));
        }
        _ => panic!("a quote is asked for"),
    }
    assert!(app.update(Message::WithdrawConfirm).is_none(), "there is no quote yet");
    app.set_quote(quote(Some(10)));
    assert!(matches!(
        app.update(Message::WithdrawConfirm),
        Some(Outcome::Submit { req, quote }) if req.target == addr(0x11) && quote.raw == "{}"
    ));
    app.update(Message::WithdrawTarget("bob.eth".to_string()));
    assert!(app.quote.is_none(), "the quote was made for somebody else");
    assert!(app.update(Message::WithdrawConfirm).is_none());
}

#[test]
fn a_withdrawal_without_an_amount_says_so() {
    let mut app = withdrawing();
    app.update(Message::WithdrawAmount("zero".to_string()));
    assert!(!app.can_get_quote() || app.update(Message::WithdrawGetQuote).is_none());
    app.update(Message::WithdrawGetQuote);
    assert!(app.error.is_some());
}

#[test]
fn rows_know_whether_a_deposit_is_approved() {
    let mut app = synced();
    let rows = app.account_rows(&info());
    assert_eq!(rows.len(), 1);
    assert_eq!(rows[0].label(), "PA-2");
    assert_eq!(rows[0].badge(), None);
    assert!(rows[0].can_withdraw());
    app.set_pool_approvals(addr(0xE0), vec![hash(1)]);
    let rows = app.account_rows(&info());
    assert_eq!(rows[0].badge(), Some("⏱ pending review"));
    assert!(!rows[0].can_withdraw());
    app.set_pool_approvals(addr(0xE0), vec![hash(2)]);
    let rows = app.account_rows(&info());
    assert_eq!(rows[0].badge(), Some("✓ approved"));
    assert!(app.account_rows(&PoolInfo { pool: addr(1), ..info() }).is_empty());
}

#[test]
fn pool_cards_show_their_facts() {
    assert_eq!(info().anonymity_line(), "anon set 42");
    assert_eq!(info().verified_line(), "verified");
    assert_eq!(info().min_line("0.1000"), "min 0.1 ETH");
    assert_eq!(pool_chains(), vec![Chain::Mainnet, Chain::Optimism]);
    assert_ne!(PoolTxKind::Deposit.title(), PoolTxKind::Ragequit.title());
    assert_ne!(PoolTxKind::Deposit.blurb(), PoolTxKind::Withdrawal.blurb());
}

fn held(raw: u128, contract: Option<Address>, chain: Chain) -> LiveToken {
    LiveToken {
        symbol: "ETH".to_string(),
        name: "Ether".to_string(),
        balance: "0".to_string(),
        balance_raw: Amount::of(raw),
        decimals: 18,
        contract,
        priced: true,
        usd_rank: 0,
        chain: NetworkId::Builtin(chain),
    }
}

#[test]
fn presets_are_exact() {
    let portfolio = vec![
        held(5, None, Chain::Base),
        held(7, Some(addr(0xEE)), Chain::Mainnet),
        held(ETHER + 1, None, Chain::Mainnet),
    ];
    assert_eq!(min_preset(&info()), "0.1");
    assert_eq!(max_preset(&info(), &portfolio).as_deref(), Some("1.000000000000000001"));
    let token = PoolInfo { is_native: false, ..info() };
    assert_eq!(deposit_balance(&token, &portfolio), Some(Amount::of(7)));
    assert_eq!(max_preset(&info(), &Vec::new()), None);
}

#[test]
fn a_deposit_needs_an_amount() {
    let mut app = synced();
    app.update(Message::OpenDeposit(0));
    assert!(!app.can_review_deposit());
    app.update(Message::DepositAmount("0".to_string()));
    assert!(app.update(Message::DepositReview).is_none());
    app.update(Message::DepositSetAmount("1.000000000000000001".to_string()));
    assert!(matches!(
        app.update(Message::DepositReview),
        Some(Outcome::Deposit { amount, .. }) if amount == Amount::of(ETHER + 1)
    ));
}

#[test]
fn hints_tell_how_far_the_target_is() {
    let mut app = synced();
    assert!(matches!(app.target_hint(None), TargetHint::Nothing));
    app.set_target(format!("0x{}", "11".repeat(20)));
    match app.target_hint(Some("Ann".to_string())) {
        TargetHint::Good(s) => assert_eq!(s, "✓ Ann  ·  0x1111…1111"),
        other => panic!("{other:?}"),
    }
    app.set_target("bob.eth".to_string());
    match app.target_hint(None) {
        TargetHint::Waiting(s) => assert_eq!(s, "(；・∀・) resolving bob.eth…"),
        other => panic!("{other:?}"),
    }
    let (seq, name) = app.take_pending_resolve().expect("a lookup");
    app.set_target_resolution(seq, name, Ok(None));
    match app.target_hint(None) {
        TargetHint::Bad(s) => assert_eq!(s, "“bob.eth” has no address record"),
        other => panic!("{other:?}"),
    }
    app.set_target("bob.eth".to_string());
    let (seq, name) = app.take_pending_resolve().expect("a lookup");
    app.set_target_resolution(seq, name, Err("timeout".to_string()));
    assert!(matches!(app.withdraw_resolution, TargetResolution::Error { .. }));
    app.set_target("???".to_string());
    match app.target_hint(None) {
        TargetHint::Bad(s) => assert_eq!(s, "Not a valid 0x… address or name"),
        other => panic!("{other:?}"),
    }
}

#[test]
fn a_name_that_moved_has_to_be_accepted() {
    let mut app = withdrawing();
    app.update(Message::PickTarget { address: addr(7), ens: Some("ann.eth".to_string()) });
    assert_eq!(app.resolved_target(), Ok(addr(7)));
    let (seq, name) = app.take_pending_resolve().expect("a lookup");
    app.set_target_resolution(seq, name, Ok(Some(addr(8))));
    assert!(app.resolved_target().is_err());
    assert!(matches!(app.target_hint(None), TargetHint::Diverged { .. }));
    app.update(Message::AcceptTargetDivergence);
    assert_eq!(app.resolved_target(), Ok(addr(8)));
}

#[test]
fn the_picked_recipient_is_marked() {
    let a = addr(0xAB);
    assert!(picker_selected(a, &format!("0x{}", "ab".repeat(20))));
    assert!(picker_selected(a, &format!("0x{}", "AB".repeat(20))));
    assert!(!picker_selected(a, &format!("0x{}", "ac".repeat(20))));
    assert_eq!(shorten(" 0x1234567890abcdef "), "0x1234…cdef");
    assert_eq!(shorten("0x1234"), "0x1234");
}

#[test]
fn the_backup_is_masked_until_it_is_revealed() {
    let mut app = synced();
    app.show_backup(Phrase::new("alpha beta".to_string()));
    assert_eq!(app.backup_cells(), vec!["••••••", "••••••"]);
    assert_eq!(app.backup_labels(), ("Tap to reveal", "Copy"));
    app.update(Message::ToggleReveal);
    assert_eq!(app.backup_cells(), vec!["alpha", "beta"]);
    assert!(matches!(app.update(Message::CopyPhrase), Some(Outcome::CopyText(t)) if t == "alpha beta"));
    assert_eq!(app.backup_labels(), ("Hide", "Copied ✓"));
    app.update(Message::BackupDone);
    assert!(app.backup_phrase.is_none());
    assert!(app.backup_cells().is_empty());
}

#[test]
fn a_phrase_is_restored_with_single_spaces() {
    let mut app = PoolApp::new(Vec::new());
    app.update(Message::OpenRestore);
    assert!(!app.can_restore());
    app.update(Message::RestoreInput("  alpha \n beta ".to_string()));
    assert_eq!(app.restore_phrase().expose(), "alpha beta");
    assert!(app.can_restore());
    app.update(Message::RestoreSubmit { checked: Err("bad checksum".to_string()) });
    assert!(app.error.is_some());
    assert!(matches!(
        app.update(Message::RestoreSubmit { checked: Ok(()) }),
        Some(Outcome::RestoreIdentity(p)) if p.expose() == "alpha beta"
    ));
}

#[test]
fn a_known_chain_needs_no_sync() {
    let mut app = synced();
    assert!(matches!(
        app.update(Message::SelectChain(Chain::Optimism)),
        Some(Outcome::Sync(Chain::Optimism))
    ));
    assert!(app.pools.is_empty());
    assert!(app.update(Message::SelectChain(Chain::Mainnet)).is_none());
    assert_eq!(app.pools.len(), 1);
    assert!(app.update(Message::SelectChain(Chain::Mainnet)).is_none());
    app.set_pools(Chain::Optimism, Vec::new(), Vec::new());
    assert_eq!(app.pools.len(), 1, "another chain's pools do not show");
    app.update(Message::Refresh);
    assert!(matches!(
        app.update(Message::SelectChain(Chain::Optimism)),
        Some(Outcome::Sync(Chain::Optimism)) | None
    ));
}

#[test]
fn deposits_under_way_share_a_clock() {
    let mut app = synced();
    app.set_pool_depositing(addr(1), true, 10);
    app.set_pool_depositing(addr(2), true, 20);
    assert_eq!(app.deposit_started, Some(10));
    app.set_pool_depositing(addr(1), false, 30);
    assert_eq!(app.deposit_started, Some(10));
    assert!(app.is_depositing(&PoolInfo { pool: addr(2), ..info() }));
    app.set_pool_depositing(addr(2), false, 40);
    assert_eq!(app.deposit_started, None);
}

#[test]
fn what_moves_is_drawn_again() {
    let mut app = PoolApp::new(Vec::new());
    app.set_identity(true);
    assert!(!app.subscription().frames);
    app.set_syncing(true, 5);
    assert_eq!(app.syncing_started, Some(5));
    app.set_syncing(true, 9);
    assert_eq!(app.syncing_started, Some(5));
    assert!(app.is_loading_pools() && app.subscription().frames);
    assert_eq!(app.overview_body(), OverviewBody::Loading);
    app.set_syncing(false, 11);
    assert_eq!(app.syncing_started, None);
    assert_eq!(app.overview_body(), OverviewBody::Empty);
    assert_eq!(synced().overview_body(), OverviewBody::Cards);
    app.set_proving("Proving".to_string(), 1);
    assert!(app.subscription().frames);
    assert_eq!(app.proving_headline(), "Proving");
    app.set_proving(String::new(), 1);
    assert_eq!(app.proving_headline(), "Working");
    app.reset_to_overview();
    assert_eq!(app.screen, Screen::Overview);
    app.set_error(Some("offline".to_string()));
    assert_eq!(app.error.as_deref(), Some("offline"));
}

#[test]
fn a_broadcast_is_confirmed_and_synced() {
    let mut app = synced();
    let out = app.set_submitted(PoolTxKind::Withdrawal, Some("0xabc".to_string()));
    assert!(matches!(out, Some(Outcome::Sync(Chain::Mainnet))));
    assert!(matches!(app.update(Message::CopyTxHash), Some(Outcome::CopyText(t)) if t == "0xabc"));
    let link = Message::CopyExplorer { base: "https://scan.example".to_string() };
    assert!(matches!(
        app.update(link),
        Some(Outcome::CopyText(t)) if t == "https://scan.example/tx/0xabc"
    ));
    let esc = Event::KeyPressed { key: Key::Escape, shift: false };
    assert!(matches!(app.update(Message::Key(esc)), Some(Outcome::Sync(_))));
    assert_eq!(app.screen, Screen::Overview);
    assert!(app.submitted.is_none());
}

#[test]
fn no_deposit_index_is_guessed() {
    let app = synced();
    assert_eq!(app.next_deposit_index(addr(0xE0)), Some(2));
    assert_eq!(app.next_deposit_index(addr(0xE9)), None);
}

#[test]
fn pools_are_discovered_with_the_feed_off() {
    let mut app = synced();
    app.update(Message::ToggleAsp(false));
    app.update(Message::AspUrlInput("  ".to_string()));
    assert_eq!(app.asp_url(), None);
    assert_eq!(app.asp_endpoint(), "https://api.0xbow.io");
    app.update(Message::AspUrlInput(" https://feed.example ".to_string()));
    assert_eq!(app.asp_endpoint(), "https://feed.example");
    assert_eq!(app.asp_url(), None);
    app.update(Message::ToggleAsp(true));
    assert_eq!(app.asp_url().as_deref(), Some("https://feed.example"));
}

#[test]
fn losing_the_identity_forgets_what_was_its_own() {
    let mut app = synced();
    app.set_pool_depositing(addr(1), true, 10);
    app.set_pool_approvals(addr(0xE0), vec![hash(1)]);
    app.set_identity(false);
    assert_eq!(app.screen, Screen::Setup);
    assert!(app.approvals.is_empty() && app.depositing_pools.is_empty());
    assert_eq!(app.deposit_started, None);
    assert!(matches!(app.on_open(), Some(Outcome::Sync(Chain::Mainnet))));
}

#[test]
fn a_table_holds_one_value_per_key() {
    let mut t: Table<Address, u64> = Table::new();
    t.insert(addr(1), 1);
    t.insert(addr(2), 2);
    t.insert(addr(1), 3);
    assert_eq!(t.get(&addr(1)), Some(&3));
    t.remove(&addr(1));
    assert!(!t.contains(&addr(1)) && t.contains(&addr(2)));
    t.clear();
    assert!(t.is_empty());
}

#[test]
fn waiting_is_told_in_stages() {
    assert_eq!(proving_stage(0), "Loading the proving key.");
    assert_eq!(proving_stage(1_600), "Gathering Merkle-tree witnesses.");
    assert_eq!(proving_stage(10_000), "Assembling the Groth16 proof...");
    assert_eq!(proving_stage(1_000_000), "Verifying the proof locally...");
    assert_eq!(depositing_line(500), "depositing..");
    assert_eq!(loading_line(1_499), "Loading pools from 0xbow...");
}

#[test]
fn the_apps_pane_hands_its_pool_app_out() {
    let mut pane = AppsPane::new(Vec::new());
    pane.pool_pane().set_identity(true);
    assert!(pane.pool.has_identity);
    assert_eq!(pane.pool.screen, Screen::Overview);
}
