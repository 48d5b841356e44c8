use wallet_dashboard::account_dropdown::{
    account_mark, chain_label_for_id, safe_row, AccountDropdown, Mark, Message as PickerMessage,
    Outcome as PickerOutcome,
};
use wallet_dashboard::activity::{
    activity_body, format_amount, format_relative, format_token_amount, tx_row, ActivityBody,
    IndexedTx, TokenTransfer, TxDirection,
};
use wallet_dashboard::amounts::{compute_max_amount, Holding};
use wallet_dashboard::apps::{launcher_view, order_row, status_badge as order_tone, Tone};
use wallet_dashboard::clipboard::{clipboard_clear_chip, Clipboard};
use wallet_dashboard::contacts::{Contact, ContactsBook};
use wallet_dashboard::contacts_settings::{
    AddressResolution, ContactsPane, Focus, Message as ContactMessage, Mode,
    Outcome as ContactOutcome,
};
use wallet_dashboard::contacts_view::{address_parse_hint, card_text};
use wallet_dashboard::fetch::{
    bad_rpc_text, balance_route, history_result, no_rpc_text, sim_retry_delay, BalanceRoute,
};
use wallet_dashboard::function_panel::{
    arg_row, diagnostic_lines, entry_rows, header, intent_head, panel, truncate, ty_short,
    unknown_call_body, warning_line, warning_lines, ArgDisplay, DecodeResult, DecodedArg,
    DecodedCall, DisplayEntry, DisplayItem, DisplayModel, EntryKind, FormatDiagnostic, Panel,
    ResolutionState, SolType, Warning,
};
use wallet_dashboard::header::{title_slot, TitleSlot};
use wallet_dashboard::history::{History, HISTORY_LIMIT};
use wallet_dashboard::home::{
    format_usd, network_display_name, network_label, pending_row, pending_section, refresh_button,
    status_badge, token_row, CustomNetwork, PendingSafeTx, PendingSection, SafeTxState,
};
use wallet_dashboard::kaomoji::{face_from_draws, pick_random_kaomoji};
use wallet_dashboard::keyed::Table;
use wallet_dashboard::keys::{Event, Key};
use wallet_dashboard::modal_chrome::ModalChrome;
use wallet_dashboard::name_writes::{
    ens_duration_secs, name_review_labels, NameSign, Namespace, RegisterPlan,
};
use wallet_dashboard::networks::{
    checkpoint_placeholder, draft_valid, is_https_url, parse_checkpoint, Draft, Message as NetworksMessage, NetworksPane,
    PerChain,
};
use wallet_dashboard::orders::{
    account_orders_to_tracked, parse_order_uid, short_order_uid, AccountOrder, CuratedToken,
    EthflowOrder, OrderBook, OrderKind, OrderStatus, TrackedOrder,
};
use wallet_dashboard::portfolio::{sort_portfolio_rows, LiveToken, Portfolio, Slot};
use wallet_dashboard::sanitize::{sanitize_display, strip_display};
use wallet_dashboard::types::{short_address, Address, Amount, Chain, Hash32, NetworkId};

fn addr(byte: u8) -> Address {
    Address::from_bytes([byte; 20])
}

fn hash(byte: u8) -> Hash32 {
    Hash32 { hi: u128::from_be_bytes([byte; 16]), lo: u128::from_be_bytes([byte; 16]) }
}

// ── the account picker ──────────────────────────────────────────────────────

#[test]
fn at_most_one_row_is_active() {
    assert_eq!(account_mark(1, 1, None), Mark::Active);
    assert_eq!(account_mark(0, 1, None), Mark::Idle);
    assert_eq!(account_mark(1, 1, Some(0)), Mark::Idle);
    assert_eq!(safe_row(0, 1, 1, Some(0)).mark, Mark::Active);
    let watched = safe_row(0, 8453, 0, Some(0));
    assert_eq!(watched.mark, Mark::Absent);
    assert_eq!(watched.badge, "Safe (watch)");
    assert!(watched.on_press.is_none());
    assert_eq!(chain_label_for_id(42161), "?");
    assert_eq!(chain_label_for_id(1), "Ethereum Mainnet");
}

#[test]
fn the_picker_hands_choices_on() {
    let mut p = AccountDropdown::new();
    assert!(matches!(p.update(PickerMessage::Select(3)), Some(PickerOutcome::Switch(3))));
    assert!(matches!(p.update(PickerMessage::SelectSafe(1)), Some(PickerOutcome::SelectSafe(1))));
    assert!(matches!(p.update(PickerMessage::Add), Some(PickerOutcome::Add)));
    let esc = Event::KeyPressed { key: Key::Escape, shift: false };
    assert!(matches!(p.update(PickerMessage::Key(esc)), Some(PickerOutcome::Closed)));
    assert!(p.update(PickerMessage::Key(Event::Other)).is_none());
    assert!(p.update(PickerMessage::BoxClickIgnored).is_none());
}

// ── activity ────────────────────────────────────────────────────────────────

#[test]
fn times_are_told_in_words() {
    assert_eq!(format_relative(100, 0), "just now");
    assert_eq!(format_relative(100, 50), "just now");
    assert_eq!(format_relative(50, 100), "just now");
    assert_eq!(format_relative(1_000, 400), "10 min ago");
    assert_eq!(format_relative(10_000, 5_000), "1 hr ago");
    assert_eq!(format_relative(100_000, 80_000), "5 hrs ago");
    assert_eq!(format_relative(200_000, 100_000), "Yesterday");
    assert_eq!(format_relative(1_000_000, 100_000), "10 days ago");
}

fn tx(direction: TxDirection, to: Option<Address>, value: u128) -> IndexedTx {
    IndexedTx {
        hash: hash(1),
        block_number: 1,
        timestamp: 10,
        from: addr(0xAA),
        to,
        value: Amount::of(value),
        success: true,
        direction,
        method: None,
        token: None,
        gas_used: None,
        gas_price: None,
        chain: Chain::Mainnet,
    }
}

fn usdc(amount: u128, symbol: &str) -> TokenTransfer {
    TokenTransfer {
        symbol: symbol.to_string(),
        decimals: 6,
        amount_raw: Amount::of(amount),
        contract: addr(0xC0),
    }
}

#[test]
fn amounts_carry_a_sign_only_where_something_moved() {
    assert_eq!(format_token_amount(&usdc(5, "USDC"), true, "0.5"), "+0.5 USDC");
    assert_eq!(format_token_amount(&usdc(5, ""), false, "0.5"), "−0.5 tokens");
    assert_eq!(format_token_amount(&usdc(0, "USDC"), true, "0"), "0 USDC");
    assert_eq!(format_amount(&tx(TxDirection::In, None, 3), true, "1.5"), "+1.5 ETH");
    assert_eq!(format_amount(&tx(TxDirection::Out, None, 0), false, "0"), "0 ETH");
    let mut with_token = tx(TxDirection::Out, None, 0);
    with_token.token = Some(usdc(5, "USDC"));
    assert_eq!(format_amount(&with_token, false, "0.5"), "−0.5 USDC");
}

fn contact(name: &str, address: Address) -> Contact {
    Contact {
        name: name.to_string(),
        address,
        kaomoji: "(◕‿◕)".to_string(),
        notes: String::new(),
        ens: None,
    }
}

#[test]
fn rows_call_people_by_their_names() {
    let book = ContactsBook { contacts: vec![contact("Ann", addr(0xBB))] };
    let row = tx_row(&tx(TxDirection::Out, Some(addr(0xBB)), 1), addr(0xAA), &book);
    assert_eq!(row.label, "To Ann");
    assert_eq!(row.method, "transfer");
    assert!(!row.gain);
    let row = tx_row(&tx(TxDirection::Out, None, 1), addr(0xAA), &book);
    assert_eq!(row.label, "To contract creation");
    let row = tx_row(&tx(TxDirection::In, Some(addr(1)), 1), addr(0xCC), &book);
    assert_eq!(row.label, format!("From {}", short_address(addr(0xAA))));
    assert!(row.gain);
    assert_eq!(activity_body(true, 0), ActivityBody::Loading);
    assert_eq!(activity_body(false, 0), ActivityBody::Empty);
    assert_eq!(activity_body(false, 2), ActivityBody::Rows);
}

// ── history and balances ────────────────────────────────────────────────────

#[test]
fn the_feed_is_ordered_and_bounded() {
    let mut h = History::new();
    h.ask(vec![Chain::Mainnet, Chain::Base]);
    let feed: Vec<IndexedTx> = (0..60u64)
        .map(|i| IndexedTx { timestamp: i, block_number: i, ..tx(TxDirection::In, None, 1) })
        .collect();
    let both = vec![Chain::Mainnet, Chain::Base, Chain::Optimism];
    h.fetch_done(addr(1), Chain::Mainnet, Ok(feed), addr(1), &both);
    assert_eq!(h.rows.len(), HISTORY_LIMIT);
    assert_eq!(h.rows[0].timestamp, 59);
    assert!(h.loading, "another chain has not answered yet");
    h.fetch_done(addr(1), Chain::Base, Err("down".to_string()), addr(1), &both);
    assert!(!h.loading);
    assert_eq!(h.errors.base.as_deref(), Some("down"));
}

#[test]
fn the_indexer_comes_first_and_the_chain_is_stamped() {
    let from_chain = vec![tx(TxDirection::In, None, 1)];
    let got = history_result(
        Chain::Base,
        Some(Err("HTTP 500".to_string())),
        Some(Ok(from_chain)),
    )
    .expect("the chain answers");
    assert_eq!(got[0].chain, Chain::Base);
    let none = history_result(Chain::Base, None, None).unwrap_err();
    assert!(none.contains("indexer disabled"), "{none}");
    let indexed = vec![tx(TxDirection::In, None, 1), tx(TxDirection::Out, None, 1)];
    assert_eq!(history_result(Chain::Base, Some(Ok(indexed)), None).unwrap().len(), 2);
}

#[test]
fn balances_have_one_source_per_chain() {
    assert_eq!(balance_route(Chain::Mainnet, Some(3), true), BalanceRoute::Discovered);
    assert_eq!(balance_route(Chain::Mainnet, Some(3), false), BalanceRoute::NoRpc);
    assert_eq!(balance_route(Chain::Base, Some(3), false), BalanceRoute::Indexer);
    assert_eq!(balance_route(Chain::Base, Some(0), true), BalanceRoute::OnChain);
    assert_eq!(balance_route(Chain::Base, None, false), BalanceRoute::NoRpc);
    assert_eq!(sim_retry_delay(30), 31);
    assert!(no_rpc_text(Chain::Base).contains("Base"));
    assert!(bad_rpc_text("Anvil").contains("Anvil"));
}

fn token(symbol: &str, contract: Option<Address>, usd_rank: u64, chain: Chain) -> LiveToken {
    LiveToken {
        symbol: symbol.to_string(),
        name: symbol.to_string(),
        balance: "1".to_string(),
        balance_raw: Amount::of(1),
        decimals: 18,
        contract,
        priced: true,
        usd_rank,
        chain: NetworkId::Builtin(chain),
    }
}

#[test]
fn native_coin_comes_first_and_value_next() {
    let mut rows = vec![
        token("A", Some(addr(1)), 5, Chain::Mainnet),
        token("B", Some(addr(2)), 50, Chain::Mainnet),
        token("ETH", None, 1, Chain::Base),
        token("C", Some(addr(3)), 50, Chain::Mainnet),
    ];
    sort_portfolio_rows(&mut rows);
    let order: Vec<&str> = rows.iter().map(|t| t.symbol.as_str()).collect();
    assert_eq!(order, vec!["ETH", "B", "C", "A"]);
}

#[test]
fn a_refresh_drops_what_left_scope() {
    let mut p = Portfolio::new(Table::new(), addr(1));
    p.rows = vec![
        token("ETH", None, 1, Chain::Mainnet),
        LiveToken { chain: NetworkId::Custom(7), ..token("X", None, 1, Chain::Mainnet) },
    ];
    p.refresh(&vec![NetworkId::Builtin(Chain::Mainnet)]);
    assert_eq!(p.rows.len(), 1);
    assert!(p.refreshing);
}

#[test]
fn another_identity_starts_with_what_was_kept() {
    let mut cache = Table::new();
    let slot = Slot { address: addr(2), network: NetworkId::Builtin(Chain::Base) };
    cache.insert(slot, vec![token("ETH", None, 1, Chain::Base)]);
    let mut p = Portfolio::new(cache, addr(1));
    assert!(p.rows.is_empty() && p.loading);
    p.seed(addr(2), &vec![NetworkId::Builtin(Chain::Base)]);
    assert_eq!(p.rows.len(), 1);
    assert!(!p.loading);
    p.seed(addr(3), &vec![NetworkId::Builtin(Chain::Base)]);
    assert_eq!(p.rows.len(), 1, "nothing is kept for the third, so the rows stay");
}

// ── orders ──────────────────────────────────────────────────────────────────

fn order(uid: &str, status: OrderStatus) -> TrackedOrder {
    TrackedOrder {
        uid: uid.to_string(),
        chain: Chain::Base,
        owner: addr(1),
        kind: OrderKind::Sell,
        sell_token: addr(0x11),
        buy_token: addr(0x22),
        sell_symbol: "USDC".to_string(),
        buy_symbol: "DAI".to_string(),
        sell_amount: Amount::of(1),
        buy_amount: Amount::of(2),
        sell_decimals: 6,
        buy_decimals: 18,
        valid_to: 9,
        status,
        executed: None,
        is_ethflow: false,
    }
}

#[test]
fn a_fill_is_seen_once() {
    let mut b = OrderBook::new();
    b.place(order("0x1", OrderStatus::Open));
    b.place(order("0x1", OrderStatus::Expired));
    assert_eq!(b.orders.len(), 1);
    let fill = Some((Amount::of(1), Amount::of(2)));
    let r = b.status_came("0x1", OrderStatus::Fulfilled, fill).expect("filled now");
    assert_eq!(r.slots, vec![Some(addr(0x22)), Some(addr(0x11))]);
    assert_eq!(r.fetch.len(), 2);
    assert!(b.status_came("0x1", OrderStatus::Fulfilled, None).is_none());
    assert_eq!(b.orders[0].executed, fill);
    assert!(b.status_came("0x2", OrderStatus::Fulfilled, None).is_none());
    assert!(b.polled().is_empty());
}

#[test]
fn a_filled_native_order_reads_native_coin() {
    let mut b = OrderBook::new();
    b.place(TrackedOrder { is_ethflow: true, ..order("0x1", OrderStatus::Open) });
    let r = b.status_came("0x1", OrderStatus::Fulfilled, None).expect("filled now");
    assert_eq!(r.slots, vec![Some(addr(0x22)), None]);
    assert_eq!(r.fetch.len(), 1);
}

#[test]
fn cancelling_touches_one_order() {
    let mut b = OrderBook::new();
    b.place(order("0x1", OrderStatus::Open));
    b.place(order("0x2", OrderStatus::Open));
    b.cancelled("0x2");
    assert_eq!(b.orders[0].status, OrderStatus::Open);
    assert_eq!(b.orders[1].status, OrderStatus::Cancelled);
    assert_eq!(b.polled().len(), 1);
}

#[test]
fn identifiers_are_56_bytes() {
    assert_eq!(parse_order_uid(&"0a".repeat(56)), Ok(vec![0x0a; 56]));
    assert_eq!(parse_order_uid("0x00").unwrap_err(), "order uid must be 56 bytes");
    assert!(parse_order_uid("0xq").unwrap_err().starts_with("bad order uid: "));
    assert_eq!(short_order_uid("0x12"), "0x12");
    assert_eq!(short_order_uid(&"0xdeadbeef".repeat(7)), "0xdeadbe…adbeef");
}

#[test]
fn orders_of_past_sessions_are_told_like_new_ones() {
    let listed = AccountOrder {
        uid: "0x9".to_string(),
        sell_token: addr(0x11),
        buy_token: addr(0x22),
        sell_amount: Amount::of(1),
        buy_amount: Amount::of(2),
        valid_to: u32::MAX,
        kind: "buy".to_string(),
        status: OrderStatus::Open,
        executed: None,
        ethflow_data: Some(EthflowOrder { user_valid_to: Some(77) }),
    };
    let known =
        vec![CuratedToken { symbol: "DAI".to_string(), address: addr(0x22), decimals: 18 }];
    let got = account_orders_to_tracked(Chain::Base, addr(1), &vec![listed], &known);
    assert_eq!(got[0].sell_symbol, "ETH");
    assert_eq!(got[0].buy_symbol, "DAI");
    assert_eq!(got[0].valid_to, 77);
    assert_eq!(got[0].kind, OrderKind::Buy);
    assert!(got[0].is_ethflow);
    assert_eq!(got[0].owner, addr(1));
}

#[test]
fn order_rows_tell_what_became_of_them() {
    let open = order_row(&order("0x1", OrderStatus::Open), "1", "2", "");
    assert_eq!(open.title, "1 USDC → 2 DAI");
    assert_eq!(open.sub, "min 2 DAI · limit-protected");
    assert!(open.cancel);
    let filled = TrackedOrder {
        executed: Some((Amount::of(1), Amount::of(3))),
        ..order("0x1", OrderStatus::Fulfilled)
    };
    let filled = order_row(&filled, "1", "2", "3");
    assert_eq!(filled.sub, "received 3 DAI");
    assert!(!filled.cancel);
    assert_eq!(order_tone(OrderStatus::Expired), Tone::Bad);
    let l = launcher_view(&vec![order("0x1", OrderStatus::Open)], false);
    assert_eq!(l.swap, "Trade via CoW Protocol · 1 open");
    assert_eq!(l.subtitle, "On-chain apps — swaps");
}

// ── amounts ─────────────────────────────────────────────────────────────────

fn holding(raw: u128, decimals: u8, contract: Option<Address>) -> Holding {
    Holding { balance_raw: Amount::of(raw), decimals, contract, balance: "1,234.5".to_string() }
}

#[test]
fn the_most_that_can_be_sent_leaves_room_for_gas() {
    let eth = 1_500_000_000_000_000_000;
    assert_eq!(compute_max_amount(&holding(eth, 18, None), None), "1.5");
    let gas = Some(Amount::of(500_000_000_000_000_000));
    assert_eq!(compute_max_amount(&holding(eth, 18, None), gas), "1");
    assert_eq!(compute_max_amount(&holding(eth, 18, Some(addr(1))), gas), "1.5");
    assert_eq!(compute_max_amount(&holding(5, 18, None), gas), "0.000000000000000005");
    assert_eq!(compute_max_amount(&holding(5, 200, None), None), "1234.5");
}

#[test]
fn dollars_are_grouped() {
    assert_eq!(format_usd(0), "0.00");
    assert_eq!(format_usd(5), "0.05");
    assert_eq!(format_usd(123_456_789), "1,234,567.89");
    assert_eq!(format_usd(100_000), "1,000.00");
    assert_eq!(format_usd(-123_450), "-1,234.50");
    assert_eq!(format_usd(-50), "0.50");
    assert_eq!(format_usd(i64::MIN), "-92,233,720,368,547,758.08");
}

// ── networks ────────────────────────────────────────────────────────────────

#[test]
fn only_secure_urls_are_taken() {
    assert!(is_https_url("https://rpc.example"));
    assert!(is_https_url("HTTPS://rpc.example"));
    assert!(!is_https_url("http://rpc.example"));
    assert!(!is_https_url("rpc.example"));
    assert!(!is_https_url(""));
}

#[test]
fn checkpoints_are_hashes() {
    let digits = "ab".repeat(32);
    assert_eq!(parse_checkpoint(&format!("0x{digits}")), Some(hash(0xab)));
    assert_eq!(parse_checkpoint(&digits), Some(hash(0xab)));
    assert_eq!(parse_checkpoint(""), None);
    assert_eq!(parse_checkpoint("0x12"), None);
}

fn per<T: Clone>(t: T) -> PerChain<T> {
    PerChain { mainnet: t.clone(), optimism: t.clone(), base: t }
}

#[test]
fn a_shown_checkpoint_is_written_again() {
    let urls = per(vec!["https://a".to_string()]);
    let same = per("https://d".to_string());
    let mut pane = NetworksPane::new(&urls, &urls, &same, &same, Some(hash(0xa1)));
    assert_eq!(pane.draft.checkpoint_override, format!("0x{}", "a1".repeat(32)));
    let (saved, _) = pane.update(NetworksMessage::Save);
    assert_eq!(saved.expect("written").checkpoint, Some(hash(0xa1)));
    assert_eq!(checkpoint_placeholder(hash(0x0b)), format!("auto: 0x{}", "0b".repeat(32)));
}

#[test]
fn a_form_is_written_where_it_is_valid() {
    let urls = per(vec!["https://a".to_string()]);
    let mut pane =
        NetworksPane::new(&urls, &urls, &per("https://d".to_string()), &per("https://e".to_string()), None);
    assert!(pane.can_save());
    let (saved, _) = pane.update(NetworksMessage::Save);
    assert_eq!(saved.expect("written").execution.mainnet.as_deref(), Some("https://a"));
    pane.update(NetworksMessage::Saved);
    pane.update(NetworksMessage::ExecChanged(Chain::Mainnet, "ftp://x".to_string()));
    assert!(!pane.can_save());
    let bad = Draft {
        execution: per("https://a".to_string()),
        consensus: per("https://a".to_string()),
        checkpoint_override: "zz".to_string(),
    };
    assert!(!draft_valid(&bad));
}

#[test]
fn balances_are_shown_with_their_network_and_value() {
    let on_base = token("USDC", Some(addr(1)), 5, Chain::Base);
    let row = token_row(&on_base, 123_456, &Vec::new());
    assert_eq!(row.holding, "1 USDC (Base)");
    assert_eq!(row.value, "$1,234.56");
    let row = token_row(&LiveToken { priced: false, ..on_base }, 0, &Vec::new());
    assert_eq!(row.value, "—");
    assert_eq!(refresh_button(false), ("↻ refresh", true));
    assert!(!refresh_button(true).1);
}

#[test]
fn networks_are_named() {
    let custom = vec![CustomNetwork { chain_id: 31337, name: "Anvil\u{202E}".to_string() }];
    assert_eq!(network_label(NetworkId::Custom(31337), &custom), "Anvil");
    assert_eq!(network_label(NetworkId::Custom(5), &custom), "chain 5");
    assert_eq!(network_label(NetworkId::Builtin(Chain::Base), &custom), "Base");
    assert_eq!(
        network_display_name(NetworkId::Builtin(Chain::Mainnet), &custom),
        Chain::Mainnet.display_name()
    );
}

// ── home ────────────────────────────────────────────────────────────────────

#[test]
fn pending_transactions_tell_where_they_stand() {
    let p = PendingSafeTx {
        safe_tx_hash: hash(1),
        to: addr(0xDD),
        value: Amount::zero(),
        data: Vec::new(),
        operation: 1,
        nonce: 5,
        state: SafeTxState::AwaitingConfirmations { have: 1, required: 2 },
        submission_ts: 400,
    };
    let row = pending_row(&p, 1_000);
    assert_eq!(row.meta, "nonce 5 · 10 min ago");
    assert_eq!(row.warning, Some("⚠ delegatecall"));
    assert_eq!(row.badge, "1/2 signatures");
    assert_eq!(status_badge(SafeTxState::AwaitingExecution { is_next: true }), "Ready to execute");
    assert_eq!(status_badge(SafeTxState::Executed { success: false }), "Failed");
    assert_eq!(pending_section(0, true, true), PendingSection::Loading);
    assert_eq!(pending_section(0, false, true), PendingSection::Failed);
    assert_eq!(pending_section(0, false, false), PendingSection::Hidden);
    assert_eq!(pending_section(1, true, true), PendingSection::Rows);
    assert_eq!(title_slot(true, true), TitleSlot::Editing);
    assert_eq!(title_slot(false, true), TitleSlot::SafeName);
    assert_eq!(title_slot(false, false), TitleSlot::Name);
}

// ── decoded calls ───────────────────────────────────────────────────────────

fn call(state: ResolutionState) -> DecodedCall {
    DecodedCall {
        function_name: None,
        selector: vec![0xa9, 0x05, 0x9c, 0xbb],
        state,
        args: Vec::new(),
        warnings: vec![
            Warning::UnverifiedBytecode,
            Warning::AmbiguousSignature { candidates: vec!["a()".to_string(), "b()".to_string()] },
        ],
        proxied: true,
        all_verified: false,
        raw_calldata: vec![1, 2],
    }
}

#[test]
fn every_warning_is_shown_once() {
    let d = call(ResolutionState::Unknown);
    assert_eq!(warning_lines(&d.warnings, true), vec!["⚠ ambiguous: a(), b()"]);
    assert_eq!(
        warning_lines(&d.warnings, false),
        vec!["⚠ bytecode read fell back to unverified RPC"]
    );
    let h = header(&d);
    assert_eq!(h.title, "0xa9059cbb");
    assert_eq!(h.subtitle, Some("unverified call"));
    assert!(h.via_proxy);
    assert!(matches!(panel(Some(&DecodeResult::Heuristic(d)), false), Panel::Heuristic));
    assert!(matches!(panel(None, true), Panel::Loading));
}

#[test]
fn an_unknown_call_shows_its_bytes() {
    let row = unknown_call_body(&call(ResolutionState::Unknown)).expect("a row");
    assert_eq!(row.label, "· raw");
    assert_eq!(row.value, "0x0102");
    assert!(row.inline);
    assert!(unknown_call_body(&call(ResolutionState::Resolved)).is_none());
    let w = Warning::InfiniteApproval { spender: addr(0x22) };
    assert_eq!(warning_line(&w), "⚠ infinite approval to 0x2222…2222");
}

#[test]
fn a_described_call_is_nested() {
    let item = |l: &str| DisplayItem { label: l.to_string(), value: "x".repeat(21) };
    let m = DisplayModel {
        intent: "Swap".to_string(),
        interpolated_intent: Some("Swap 1 ETH".to_string()),
        contract_name: None,
        entries: vec![
            DisplayEntry::Group { label: "Fees".to_string(), items: vec![item("a")] },
            DisplayEntry::Nested {
                label: "Then".to_string(),
                intent: "Send".to_string(),
                entries: vec![DisplayEntry::Item(item("b"))],
            },
        ],
    };
    let rows = entry_rows(&m);
    assert_eq!(rows.len(), 4);
    assert!(matches!(&rows[0].kind, EntryKind::GroupHead(l) if l == "Fees"));
    assert!(matches!(&rows[1].kind, EntryKind::Item { row, grouped: true } if !row.inline));
    assert!(matches!(&rows[2].kind, EntryKind::NestedHead { intent, .. } if intent == "Send"));
    assert_eq!(rows[3].depth, 1);
    let head = intent_head(&m, true, false);
    assert_eq!(head.intent, "Swap 1 ETH");
    assert!(head.muted && head.via_proxy && head.caution.is_some());
    let said = diagnostic_lines(&vec![
        FormatDiagnostic { is_warning: true, message: "odd".to_string() },
        FormatDiagnostic { is_warning: false, message: "fine".to_string() },
    ]);
    assert_eq!(said.len(), 1);
}

#[test]
fn hostile_labels_are_stripped() {
    let item = || DisplayItem {
        label: "Re\u{202E}cip\u{200B}ient".to_string(),
        value: "a\u{2066}b".to_string(),
    };
    let long = "l".repeat(200);
    let m = DisplayModel {
        intent: "Swap".to_string(),
        interpolated_intent: None,
        contract_name: None,
        entries: vec![
            DisplayEntry::Item(item()),
            DisplayEntry::Group { label: "Fe\u{7}es".to_string(), items: vec![item()] },
            DisplayEntry::Nested {
                label: "Th\u{FEFF}en".to_string(),
                intent: "Send".to_string(),
                entries: Vec::new(),
            },
            DisplayEntry::Item(DisplayItem { label: long.clone(), value: "v".repeat(60) }),
        ],
    };
    let rows = entry_rows(&m);
    let row = |i: usize| match &rows[i].kind {
        EntryKind::Item { row, .. } => (row.label.clone(), row.value.clone()),
        other => panic!("{other:?}"),
    };
    assert_eq!(row(0), ("· Recipient".to_string(), "ab".to_string()));
    assert!(matches!(&rows[1].kind, EntryKind::GroupHead(l) if l == "Fees"));
    assert_eq!(row(2), row(0));
    assert!(matches!(&rows[3].kind, EntryKind::NestedHead { label, .. } if label == "Then"));
    let (label, value) = row(4);
    assert_eq!(label, format!("· {long}"));
    assert_eq!(value, format!("{}…", "v".repeat(48)));
    assert_eq!(strip_display("a\u{AD}b"), "ab");
}

#[test]
fn a_partial_descriptor_calls_for_a_hint() {
    let model = || DisplayModel {
        intent: "Swap".to_string(),
        interpolated_intent: None,
        contract_name: None,
        entries: Vec::new(),
    };
    let whole = DecodeResult::ClearSigned {
        model: model(),
        diagnostics: Vec::new(),
        proxied: true,
        all_verified: true,
    };
    assert!(matches!(
        panel(Some(&whole), false),
        Panel::ClearSigned { partial: false, proxied: true, all_verified: true }
    ));
    let part = DecodeResult::Fallback {
        model: model(),
        diagnostics: Vec::new(),
        all_verified: true,
        heuristic: call(ResolutionState::Resolved),
    };
    assert!(matches!(panel(Some(&part), false), Panel::ClearSigned { partial: true, .. }));
}

#[test]
fn arguments_are_written_out() {
    let arg = |ty: SolType, display: ArgDisplay| DecodedArg {
        name: Some("data".to_string()),
        ty,
        display,
    };
    let row = arg_row(&arg(SolType::Bytes, ArgDisplay::Bytes(vec![0xab, 0x01])));
    assert_eq!(row.value, "0xab01");
    let nested = SolType::Array(Box::new(SolType::Tuple(vec![
        SolType::Uint(256),
        SolType::FixedArray(Box::new(SolType::Address), 2),
    ])));
    assert_eq!(ty_short(&nested), "(uint256,address[2])[]");
    assert_eq!(truncate("abcdef", 3), sanitize_display("abcdef", 3));
    assert_eq!(sanitize_display("a\u{202E}b\u{200B}c", 64), "abc");
}

// ── faces, dialogs, the clipboard ───────────────────────────────────────────

#[test]
fn a_drawn_face_differs_from_the_one_before() {
    let first = pick_random_kaomoji("");
    for _ in 0..50 {
        assert_ne!(pick_random_kaomoji(&first), first);
    }
    assert_eq!(face_from_draws("", &vec![0]), "(◕‿◕)");
}

#[test]
fn a_dialog_closes_once() {
    let mut c = ModalChrome::new(0);
    assert!(!c.is_animating(0));
    c.open(0);
    assert!(c.is_animating(100));
    assert!(!c.is_animating(220));
    c.start_close(1_000);
    assert!(c.is_animating(1_100));
    c.start_close(1_100);
    assert!(!c.tick_settled(1_219));
    assert!(c.tick_settled(1_220));
    assert!(!c.tick_settled(1_300));
}

#[test]
fn only_the_last_copy_is_cleared() {
    let mut c = Clipboard::new();
    let first = c.arm_clipboard_clear("one".to_string(), 0);
    let second = c.arm_clipboard_clear("two".to_string(), 5);
    assert!(!c.timer_ran_out(first));
    assert!(c.timer_ran_out(second));
    assert!(!c.clipboard_read(first, Some("two".to_string())));
    assert!(c.clipboard_read(second, Some("two".to_string())));
    assert!(!c.clipboard_read(second, Some("two".to_string())));
    let third = c.arm_clipboard_clear("three".to_string(), 9);
    assert!(clipboard_clear_chip(c.clear.as_ref().expect("armed"), 9).contains("10"));
    assert!(!c.clipboard_read(third, Some("something else".to_string())));
}

// ── contacts ────────────────────────────────────────────────────────────────

#[test]
fn a_saved_contact_is_found() {
    let book = ContactsBook { contacts: vec![contact("Ann", addr(0xBB))] };
    let mut p = ContactsPane::new();
    p.update(ContactMessage::OpenAdd, Some(&book));
    p.update(ContactMessage::NameChanged("Bob".to_string()), Some(&book));
    let at = "0x5aAeb6053F3E94C9b9A09f33669435E7Ef1BeAed";
    p.update(ContactMessage::AddressChanged(at.to_string()), Some(&book));
    assert!(matches!(p.resolution, AddressResolution::Hex(_)));
    let (_, out) = p.update(ContactMessage::Save, Some(&book));
    match out {
        Some(ContactOutcome::SaveRequested(v)) => {
            assert_eq!(v.len(), 2);
            assert_eq!(v[1].name, "Bob");
        }
        other => panic!("{other:?}"),
    }
}

#[test]
fn an_incomplete_form_saves_nothing() {
    let book = ContactsBook { contacts: Vec::new() };
    let mut p = ContactsPane::new();
    p.update(ContactMessage::OpenAdd, Some(&book));
    let (_, out) = p.update(ContactMessage::Save, Some(&book));
    assert!(out.is_none());
    assert!(!p.validation.is_empty());
    p.update(ContactMessage::CancelEdit, Some(&book));
    assert!(matches!(p.mode, Mode::List));
}

#[test]
fn deleting_takes_two_presses() {
    let book = ContactsBook { contacts: vec![contact("Ann", addr(0xBB))] };
    let mut p = ContactsPane::new();
    let (_, out) = p.update(ContactMessage::Delete(0), Some(&book));
    assert!(out.is_none());
    let (_, out) = p.update(ContactMessage::Delete(0), Some(&book));
    assert!(matches!(out, Some(ContactOutcome::SaveRequested(v)) if v.is_empty()));
}

#[test]
fn a_recipient_fills_the_form_with_its_checksummed_address() {
    let a = Address::from_bytes([
        0x5a, 0xae, 0xb6, 0x05, 0x3f, 0x3e, 0x94, 0xc9, 0xb9, 0xa0, 0x9f, 0x33, 0x66, 0x94, 0x35,
        0xe7, 0xef, 0x1b, 0xea, 0xed,
    ]);
    let p = ContactsPane::new_with_prefill(a, None);
    assert_eq!(p.draft.address_input, "0x5aAeb6053F3E94C9b9A09f33669435E7Ef1BeAed");
    assert!(matches!(p.resolution, AddressResolution::Hex(b) if b == a));
    assert!(address_parse_hint(&p.resolution).is_some());
    assert_eq!(ContactsPane::focus_initial_task(), Focus::NameField);
}

#[test]
fn a_late_lookup_is_dropped() {
    let book = ContactsBook { contacts: Vec::new() };
    let mut p = ContactsPane::new();
    p.update(ContactMessage::OpenAdd, Some(&book));
    p.set_address("ann.eth".to_string());
    let (seq, name) = p.take_pending_ens().expect("a name to look up");
    assert_eq!(name, "ann.eth");
    assert!(p.take_pending_ens().is_none());
    p.set_address("bob.eth".to_string());
    let late = ContactMessage::EnsResolved { seq, name, result: Ok(Some(addr(9))) };
    p.update(late, Some(&book));
    assert!(matches!(p.resolution, AddressResolution::Resolving { .. }));
}

#[test]
fn a_card_has_a_face() {
    let mut c = contact("Ann", addr(1));
    assert_eq!(card_text(&c).kaomoji, "(◕‿◕)");
    assert_eq!(card_text(&c).service, "");
    c.kaomoji = String::new();
    assert_eq!(card_text(&c).kaomoji, face_from_draws("", &vec![0]));
}

#[test]
fn a_book_keeps_one_contact_per_address() {
    let mut book = ContactsBook { contacts: vec![contact("Ann", addr(0xBB))] };
    book.upsert(contact("Anna", addr(0xBB)));
    assert_eq!(book.contacts.len(), 1);
    assert_eq!(book.name_for(addr(0xBB)).as_deref(), Some("Anna"));
    assert_eq!(book.position(addr(1)), None);
}

// ── names ───────────────────────────────────────────────────────────────────

#[test]
fn name_reviews_say_what_is_signed() {
    let plan = RegisterPlan {
        namespace: Namespace::Gns,
        label: "alice".to_string(),
        owner: addr(1),
        duration_secs: ens_duration_secs(2),
        secret: hash(3),
    };
    assert_eq!(plan.duration_secs, 63_072_000);
    let l = name_review_labels(&NameSign::Commit(plan.clone()));
    assert_eq!(l.title, "Register alice.gwei — commit");
    assert_eq!(l.subtitle.as_deref(), Some("Step 1 of 2 · front-run-proof commitment"));
    let l = name_review_labels(&NameSign::Register(plan));
    assert_eq!(l.title, "Register alice.gwei — reveal");
    let renew =
        NameSign::Renew { namespace: Namespace::Ens, label: "bob".to_string(), years: 3 };
    assert_eq!(renew.leg_title(), "Renew bob.eth");
    assert!(name_review_labels(&renew).note.expect("a note").contains("blind-sign"));
}
