use wallet_dashboard::account_dropdown;
use wallet_dashboard::activity::{IndexedTx, TxDirection};
use wallet_dashboard::amounts::trim_trailing_decimal_zeros;
use wallet_dashboard::apps::NameOutcome;
use wallet_dashboard::fetch::NetworkConfig;
use wallet_dashboard::home::{PendingSafeTx, SafeTxState};
use wallet_dashboard::identity::{
    first_local_key_of, owner_desc_by_address, signable_owners_of, AccountDescriptor,
    SafeDescriptor, SafeTrust, DEFAULT_TX_SERVICE_BASE,
};
use wallet_dashboard::keyed::Table;
use wallet_dashboard::networks::PerChain;
use wallet_dashboard::orders::{CowHost, OrderKind, OrderStatus, TrackedOrder};
use wallet_dashboard::portfolio::{LiveToken, Slot};
use wallet_dashboard::safe_tx::{
    build_safe_tx_with_nonce, ethflow_safe_tx, rebuild_reviewed_safe_tx, PreparedSafeTx,
    SafeSendRequest, SafeTx, SendToken,
};
use wallet_dashboard::screen::{Env, Modal, Reply, WalletScreen};
use wallet_dashboard::screen_message::Message;
use wallet_dashboard::signer::Signer;
use wallet_dashboard::swap::{
    build_ethflow_data, create_order_calldata, CowContracts, OrderTexts, QuoteParams,
    QuoteResponse, SwapDraft,
};
use wallet_dashboard::types::{Address, Amount, Chain, Hash32, NetworkId};

fn addr(byte: u8) -> Address {
    Address::from_bytes([byte; 20])
}

fn hash(byte: u8) -> Hash32 {
    Hash32 { hi: u128::from_be_bytes([byte; 16]), lo: u128::from_be_bytes([byte; 16]) }
}

fn env() -> Env {
    Env {
        now: 0,
        config: NetworkConfig {
            rpcs: PerChain { mainnet: true, optimism: false, base: false },
            custom: Vec::new(),
        },
    }
}

fn send(s: &mut WalletScreen, msg: Message) -> Reply {
    s.update(msg, &env(), None)
}

fn new_cache() -> Table<Slot, Vec<LiveToken>> {
    Table::new()
}

fn view_only_account(a: Address) -> AccountDescriptor {
    AccountDescriptor::ViewOnly { name: None, address: a }
}

fn local_with_key(seed: u8) -> AccountDescriptor {
    AccountDescriptor::Local { name: None, key: hash(seed), address: Some(addr(seed ^ 0x80)) }
}

fn ledger_acct(a: Address) -> AccountDescriptor {
    AccountDescriptor::Ledger { name: None, path: "m/44'/60'/0'/0/0".to_string(), address: a }
}

fn screen_of(
    signer: Signer,
    accounts: Vec<AccountDescriptor>,
    safes: Vec<SafeDescriptor>,
) -> WalletScreen {
    WalletScreen::new(signer, accounts, safes, 0, new_cache(), None, 0, Vec::new(), 0)
}

fn screen_for(a: Address) -> WalletScreen {
    screen_of(Signer::ViewOnly(a), vec![view_only_account(a)], Vec::new())
}

fn live_screen() -> WalletScreen {
    let a = addr(0x42);
    let desc = AccountDescriptor::Local { name: None, key: hash(0x42), address: Some(a) };
    screen_of(Signer::Live { address: a, handle: 1 }, vec![desc], Vec::new())
}

fn token(symbol: &str, chain: Chain) -> LiveToken {
    LiveToken {
        symbol: symbol.to_string(),
        name: symbol.to_string(),
        balance: "1".to_string(),
        balance_raw: Amount::of(1),
        decimals: 18,
        contract: None,
        priced: true,
        usd_rank: 100,
        chain: NetworkId::Builtin(chain),
    }
}

fn erc20(symbol: &str, chain: Chain, contract: Address, usd_rank: u64) -> LiveToken {
    LiveToken { contract: Some(contract), usd_rank, ..token(symbol, chain) }
}

#[test]
fn swap_refetch_replaces_targeted_slots_and_leaves_the_rest() {
    let active = addr(0xAA);
    let usdc = addr(0x01);
    let weth = addr(0x02);
    let mut s = screen_for(active);
    s.portfolio.rows = vec![
        token("ETH", Chain::Mainnet),
        erc20("USDC", Chain::Mainnet, usdc, 10_000),
        erc20("WETH", Chain::Mainnet, weth, 500),
    ];
    send(
        &mut s,
        Message::SwapTokensRefetched {
            address: active,
            network: NetworkId::Builtin(Chain::Mainnet),
            slots: vec![Some(weth), Some(usdc)],
            result: Ok(vec![erc20("WETH", Chain::Mainnet, weth, 10_500)]),
        },
    );
    assert!(s.portfolio.rows.iter().all(|t| t.contract != Some(usdc)));
    let w = s.portfolio.rows.iter().find(|t| t.contract == Some(weth)).expect("buy token present");
    assert_eq!(w.usd_rank, 10_500, "buy token must be refreshed");
    assert!(s.portfolio.rows.iter().any(|t| t.contract.is_none()));
    assert_eq!(s.portfolio.rows.len(), 2);
}

#[test]
fn swap_refetch_ignores_result_rows_outside_the_slots() {
    let active = addr(0xAA);
    let usdc = addr(0x01);
    let weth = addr(0x02);
    let mut s = screen_for(active);
    s.portfolio.rows = vec![
        token("ETH", Chain::Mainnet),
        erc20("USDC", Chain::Mainnet, usdc, 10_000),
        erc20("WETH", Chain::Mainnet, weth, 500),
    ];
    send(
        &mut s,
        Message::SwapTokensRefetched {
            address: active,
            network: NetworkId::Builtin(Chain::Mainnet),
            slots: vec![Some(weth), Some(usdc)],
            result: Ok(vec![
                erc20("WETH", Chain::Mainnet, weth, 10_500),
                erc20("USDC", Chain::Mainnet, usdc, 50),
                token("ETH", Chain::Mainnet),
            ]),
        },
    );
    assert_eq!(s.portfolio.rows.iter().filter(|t| t.contract.is_none()).count(), 1);
}

#[test]
fn swap_refetch_for_other_address_updates_cache_not_live_view() {
    let active = addr(0xAA);
    let other = addr(0xBB);
    let weth = addr(0x02);
    let slot = Slot { address: other, network: NetworkId::Builtin(Chain::Mainnet) };
    let mut s = screen_for(active);
    s.portfolio.cache.insert(slot, vec![erc20("WETH", Chain::Mainnet, weth, 500)]);
    s.portfolio.rows = vec![erc20("WETH", Chain::Mainnet, weth, 500)];
    send(
        &mut s,
        Message::SwapTokensRefetched {
            address: other,
            network: NetworkId::Builtin(Chain::Mainnet),
            slots: vec![Some(weth)],
            result: Ok(vec![erc20("WETH", Chain::Mainnet, weth, 5_000)]),
        },
    );
    assert_eq!(s.portfolio.rows[0].usd_rank, 500);
    assert_eq!(s.portfolio.cache.get(&slot).expect("slot")[0].usd_rank, 5_000);
}

fn tracked_order(uid: &str, owner: Address, status: OrderStatus, valid_to: u32) -> TrackedOrder {
    TrackedOrder {
        uid: uid.to_string(),
        chain: Chain::Base,
        owner,
        kind: OrderKind::Sell,
        sell_token: addr(0x01),
        buy_token: addr(0x02),
        sell_symbol: "USDC".to_string(),
        buy_symbol: "DAI".to_string(),
        sell_amount: Amount::of(1_000_000),
        buy_amount: Amount::of(990_000),
        sell_decimals: 6,
        buy_decimals: 18,
        valid_to,
        status,
        executed: None,
        is_ethflow: false,
    }
}

#[test]
fn fetch_account_orders_upserts_history_and_refreshes_known() {
    let active = addr(0xAA);
    let mut s = screen_for(active);
    s.orders.orders.push(tracked_order("0xsession", active, OrderStatus::Open, 100));
    send(
        &mut s,
        Message::CowAccountOrders {
            address: active,
            chain: Chain::Base,
            result: Ok(vec![
                tracked_order("0xsession", active, OrderStatus::Fulfilled, 100),
                tracked_order("0xhistory", active, OrderStatus::Expired, 50),
            ]),
        },
    );
    assert_eq!(s.orders.orders.len(), 2);
    let session = s.orders.orders.iter().find(|o| o.uid == "0xsession").unwrap();
    assert_eq!(session.status, OrderStatus::Fulfilled);
    assert!(s.orders.orders.iter().any(|o| o.uid == "0xhistory"));
}

#[test]
fn fetch_account_orders_for_other_address_is_dropped() {
    let active = addr(0xAA);
    let other = addr(0xBB);
    let mut s = screen_for(active);
    send(
        &mut s,
        Message::CowAccountOrders {
            address: other,
            chain: Chain::Base,
            result: Ok(vec![tracked_order("0xhistory", other, OrderStatus::Open, 50)]),
        },
    );
    assert!(s.orders.orders.is_empty());
}

#[test]
fn placing_an_order_keeps_apps_available_until_it_resolves() {
    let mut s = live_screen();
    assert!(s.can_swap());
    assert!(s.apps_available());

    let handoff = s.desk.park_signer_for_order();
    assert!(!s.can_swap(), "parked signer can't sign right now");
    assert!(s.apps_available());

    send(
        &mut s,
        Message::CowPlaced {
            host: CowHost::Apps,
            result: Err("placement failed (test)".to_string()),
            signer: handoff,
        },
    );
    assert!(!s.desk.order_op_in_flight);
    assert!(s.can_swap(), "signer reclaimed after the op resolves");
    assert!(s.apps_available());
}

#[test]
fn concurrent_signer_park_never_strands_the_wallet() {
    let mut s = live_screen();
    assert!(s.can_swap());
    assert!(!s.is_signing_busy());

    let h1 = s.desk.park_signer_for_order();
    let h2 = s.desk.park_signer_for_order();
    assert!(s.is_signing_busy());

    send(
        &mut s,
        Message::CowPlaced {
            host: CowHost::Apps,
            result: Err("first op (test)".to_string()),
            signer: h1,
        },
    );
    assert!(s.can_swap(), "real signer restored by the first reclaim");

    send(
        &mut s,
        Message::CowPlaced {
            host: CowHost::Apps,
            result: Err("second op (test)".to_string()),
            signer: h2,
        },
    );
    assert!(s.can_swap(), "a stale placeholder must never strand the live signer");
}

#[test]
fn portfolio_fetched_for_other_address_does_not_pollute_live_view() {
    let mut s = screen_for(addr(0xAA));
    assert!(s.portfolio.rows.is_empty());
    send(
        &mut s,
        Message::PortfolioFetched {
            address: addr(0xBB),
            network: NetworkId::Builtin(Chain::Mainnet),
            result: Ok(vec![token("USDC", Chain::Mainnet)]),
        },
    );
    assert!(s.portfolio.rows.is_empty());
}

#[test]
fn portfolio_fetched_for_other_address_still_fills_that_address_cache_slot() {
    let active = addr(0xAA);
    let other = addr(0xBB);
    let network = NetworkId::Builtin(Chain::Mainnet);
    let mut s = screen_for(active);
    send(
        &mut s,
        Message::PortfolioFetched {
            address: other,
            network,
            result: Ok(vec![token("USDC", Chain::Mainnet)]),
        },
    );
    let kept = s.portfolio.cache.get(&Slot { address: other, network });
    assert_eq!(kept.map(|v| v.len()), Some(1));
    assert!(s.portfolio.cache.get(&Slot { address: active, network }).is_none());
}

#[test]
fn portfolio_fetched_for_active_address_merges_and_caches() {
    let active = addr(0xAA);
    let network = NetworkId::Builtin(Chain::Mainnet);
    let mut s = screen_for(active);
    send(
        &mut s,
        Message::PortfolioFetched {
            address: active,
            network,
            result: Ok(vec![token("USDC", Chain::Mainnet)]),
        },
    );
    assert_eq!(s.portfolio.rows.len(), 1);
    assert_eq!(s.portfolio.rows[0].symbol, "USDC");
    assert!(!s.portfolio.loading);
    let kept = s.portfolio.cache.get(&Slot { address: active, network });
    assert_eq!(kept.map(|v| v.len()), Some(1));
}

#[test]
fn history_fetched_for_other_address_is_dropped() {
    let active = addr(0xAA);
    let other = addr(0xBB);
    let mut s = screen_for(active);
    s.history.pending = vec![Chain::Mainnet];
    s.history.loading = true;
    send(
        &mut s,
        Message::HistoryFetched { address: active, chain: Chain::Mainnet, result: Ok(Vec::new()) },
    );
    let baseline_loading = s.history.loading;
    s.history.pending = vec![Chain::Mainnet, Chain::Base];
    s.history.loading = true;
    send(
        &mut s,
        Message::HistoryFetched { address: other, chain: Chain::Mainnet, result: Ok(Vec::new()) },
    );
    assert!(s.history.loading);
    assert_eq!(s.history.pending.len(), 2);
    assert!(!baseline_loading);
}

fn safe_descriptor(byte: u8, chain_id: u64) -> SafeDescriptor {
    SafeDescriptor {
        name: None,
        chain_id,
        address: addr(byte),
        version: "1.4.1".to_string(),
        trust: SafeTrust::Canonical,
        threshold: 1,
        owners: Vec::new(),
        linked_signer_indices: vec![0],
        tx_service_url: None,
    }
}

fn screen_with_safes(a: Address, safes: Vec<SafeDescriptor>) -> WalletScreen {
    screen_of(Signer::ViewOnly(a), vec![view_only_account(a)], safes)
}

#[test]
fn display_address_returns_safe_addr_when_active_safe_set() {
    let mut screen = screen_with_safes(addr(1), vec![safe_descriptor(0x55, 1)]);
    assert_eq!(screen.identity.display_address(), addr(1));
    screen.identity.active_safe = Some(0);
    assert_eq!(screen.identity.display_address(), addr(0x55));
}

fn indexed_tx(chain: Chain) -> IndexedTx {
    IndexedTx {
        hash: hash(0),
        block_number: 1,
        timestamp: 0,
        from: Address::zero(),
        to: None,
        value: Amount::zero(),
        success: true,
        direction: TxDirection::SelfTransfer,
        method: None,
        token: None,
        gas_used: None,
        gas_price: None,
        chain,
    }
}

#[test]
fn select_safe_outcome_enters_safe_mode_and_resets_history() {
    let mut screen = screen_with_safes(addr(1), vec![safe_descriptor(0x77, 1)]);
    screen.history.rows.push(indexed_tx(Chain::Mainnet));
    screen.history.loaded = true;
    screen.modal = Modal::AccountDropdown;
    send(&mut screen, Message::AccountDropdown(account_dropdown::Message::SelectSafe(0)));
    assert_eq!(screen.identity.active_safe, Some(0));
    assert!(screen.history.rows.is_empty());
    assert!(!screen.history.loaded);
}

fn safe_mode_screen(owner: AccountDescriptor, trust: SafeTrust) -> WalletScreen {
    let mut safe = safe_descriptor(0x99, 1);
    safe.trust = trust;
    safe.linked_signer_indices = vec![1];
    screen_of(Signer::ViewOnly(addr(1)), vec![view_only_account(addr(1)), owner], vec![safe])
}

#[test]
fn can_send_in_safe_mode_true_when_linked_local_exists() {
    let mut screen = safe_mode_screen(local_with_key(0x7e), SafeTrust::Canonical);
    assert!(!screen.can_send());
    screen.identity.active_safe = Some(0);
    assert!(screen.can_send());
}

#[test]
fn can_send_in_safe_mode_false_for_unrecognized_impl() {
    let mut screen = safe_mode_screen(local_with_key(0x7e), SafeTrust::UnrecognizedImpl);
    screen.identity.active_safe = Some(0);
    assert!(!screen.can_send());
}

#[test]
fn can_send_in_safe_mode_true_for_hardware_owner() {
    let mut screen = safe_mode_screen(ledger_acct(addr(0xab)), SafeTrust::Canonical);
    screen.identity.active_safe = Some(0);
    assert!(screen.can_send());
}

#[test]
fn can_send_in_safe_mode_false_for_view_only_owner() {
    let mut screen = safe_mode_screen(view_only_account(addr(2)), SafeTrust::Canonical);
    screen.identity.active_safe = Some(0);
    assert!(!screen.can_send());
}

#[test]
fn send_hidden_for_view_only_and_disconnected_hardware_eoa() {
    let mut screen = live_screen();
    assert!(screen.can_send(), "a live Local signer shows Send");
    screen.desk.signer = Signer::ViewOnly(addr(0xCC));
    assert!(!screen.can_send());
}

fn hardware_safe_screen_on_chain(chain_id: u64) -> WalletScreen {
    let mut safe = safe_descriptor(0x99, chain_id);
    safe.linked_signer_indices = vec![1];
    let mut screen = screen_of(
        Signer::ViewOnly(addr(1)),
        vec![view_only_account(addr(1)), ledger_acct(addr(0xab))],
        vec![safe],
    );
    screen.identity.active_safe = Some(0);
    screen
}

fn hardware_safe_screen() -> WalletScreen {
    hardware_safe_screen_on_chain(1)
}

#[test]
fn order_owner_tracks_active_identity() {
    let mut screen = hardware_safe_screen();
    let safe_addr = screen.identity.safes[0].address;
    assert_eq!(screen.identity.order_owner(), safe_addr);
    screen.identity.active_safe = None;
    assert_eq!(screen.identity.order_owner(), screen.identity.address);
}

#[test]
fn can_swap_true_for_hardware_safe() {
    assert!(hardware_safe_screen().can_swap());
}

#[test]
fn can_swap_false_for_view_only_safe() {
    let mut screen = safe_mode_screen(view_only_account(addr(2)), SafeTrust::Canonical);
    screen.identity.active_safe = Some(0);
    assert!(!screen.can_swap());
}

#[test]
fn can_swap_false_for_unrecognized_safe() {
    let mut screen = hardware_safe_screen();
    screen.identity.safes[0].trust = SafeTrust::UnrecognizedImpl;
    assert!(!screen.can_swap());
}

#[test]
fn can_swap_false_for_safe_on_unsupported_chain() {
    let mut screen = hardware_safe_screen();
    screen.identity.safes[0].chain_id = 10;
    assert!(!screen.can_swap());
}

#[test]
fn build_safe_swap_ctx_uses_hardware_owner_and_no_local_executor() {
    let screen = hardware_safe_screen();
    let ctx = screen.identity.build_safe_swap_ctx().expect("a valid hardware Safe");
    assert_eq!(ctx.safe, screen.identity.safes[0].address);
    assert_eq!(ctx.chain, Chain::Mainnet);
    assert_eq!(ctx.signer_owners.len(), 1, "one signable (hardware) owner");
    assert!(matches!(ctx.signer_owners[0], AccountDescriptor::Ledger { .. }));
    assert!(ctx.local_executor_key.is_none());
}

#[test]
fn ethflow_safe_tx_targets_ethflow_with_eth_value() {
    let contracts = contracts();
    let sell = Amount::of(2_000_000_000_000_000_000);
    let draft = SwapDraft {
        is_native: true,
        buy_token: addr(0xB0),
        sell_amount: sell,
        ..sample_swap_draft()
    };
    let quote = QuoteResponse {
        quote: QuoteParams {
            sell_amount: sell,
            buy_amount: Amount::of(5_000_000_000),
            fee_amount: Amount::zero(),
            valid_to: 1_900_000_000,
        },
        id: Some(7),
    };
    let data = build_ethflow_data(&draft, &quote, addr(0x99), hash(0x50));
    let tx = ethflow_safe_tx(&data, 11, &contracts);
    assert_eq!(tx.to, contracts.ethflow, "calls the EthFlow contract");
    assert_eq!(tx.value, sell, "forwards the full ETH sell as the inner value");
    assert_eq!(&tx.data[0..4], &[0x32, 0x2b, 0xba, 0x21], "createOrder selector");
    assert_eq!(tx.operation, 0, "Call, never DelegateCall");
    assert_eq!(tx.nonce, 11, "pinned nonce");
    assert_eq!(tx.gas_price, Amount::zero(), "gas-refund fields zeroed");
    assert_eq!(tx.data, create_order_calldata(&data));
}

#[test]
fn active_cow_orders_scope_to_active_identity() {
    let mut screen = hardware_safe_screen();
    let safe_addr = screen.identity.safes[0].address;
    let eoa = screen.identity.address;
    screen.orders.orders = vec![
        tracked_order("0xsafe_new", safe_addr, OrderStatus::Open, 200),
        tracked_order("0xsafe_old", safe_addr, OrderStatus::Open, 100),
        tracked_order("0xeoa", eoa, OrderStatus::Open, 300),
    ];
    let got: Vec<String> = screen.active_cow_orders().into_iter().map(|o| o.uid).collect();
    assert_eq!(got, vec!["0xsafe_new", "0xsafe_old"]);
    screen.identity.active_safe = None;
    let got: Vec<String> = screen.active_cow_orders().into_iter().map(|o| o.uid).collect();
    assert_eq!(got, vec!["0xeoa"]);
}

#[test]
fn build_safe_name_ctx_uses_hardware_owner_and_no_local_executor() {
    let screen = hardware_safe_screen();
    let ctx = screen.identity.build_safe_name_ctx().expect("a Mainnet hardware Safe");
    assert_eq!(ctx.safe, screen.identity.safes[0].address);
    assert_eq!(ctx.owners.len(), 1);
    assert!(matches!(ctx.owners[0], AccountDescriptor::Ledger { .. }));
    assert!(ctx.executor_key.is_none(), "hardware owner self-pays gas");
}

fn register_alice() -> NameOutcome {
    NameOutcome::RegisterXns { namespace: "xns".to_string(), label: "alice".to_string() }
}

#[test]
fn names_available_and_routed_for_mainnet_safe() {
    let mut screen = hardware_safe_screen();
    assert!(screen.identity.names_available_for_active());
    assert!(!screen.desk.order_op_in_flight);
    screen.handle_name_outcome(register_alice(), hash(9));
    assert!(screen.gate.review.is_some());
    assert!(!screen.desk.order_op_in_flight);
    screen.confirm_sign_review();
    assert!(screen.desk.order_op_in_flight);
    assert!(screen.gate.review.is_none(), "confirm closes the review");
}

#[test]
fn names_refused_for_non_mainnet_safe() {
    let mut screen = hardware_safe_screen_on_chain(8453);
    assert!(!screen.identity.names_available_for_active());
    assert!(screen.identity.build_safe_name_ctx().is_none());
    assert!(!screen.desk.order_op_in_flight);
    screen.handle_name_outcome(register_alice(), hash(9));
    assert!(!screen.desk.order_op_in_flight);
}

#[test]
fn names_available_for_eoa() {
    let mut screen = hardware_safe_screen();
    screen.identity.active_safe = None;
    assert!(screen.identity.names_available_for_active());
}

fn contracts() -> CowContracts {
    CowContracts { ethflow: addr(0xE7), settlement: addr(0x9E) }
}

fn sample_swap_draft() -> SwapDraft {
    SwapDraft {
        chain: Chain::Mainnet,
        is_native: false,
        sell_token: addr(0x11),
        buy_token: addr(0x22),
        sell_amount: Amount::of(1_000_000),
        slippage_bps: 50,
        sell_symbol: "USDC".to_string(),
        buy_symbol: "DAI".to_string(),
        sell_decimals: 6,
        buy_decimals: 18,
    }
}

fn sample_quote() -> QuoteResponse {
    QuoteResponse {
        quote: QuoteParams {
            sell_amount: Amount::of(1_000_000),
            buy_amount: Amount::of(990_000_000_000_000_000),
            fee_amount: Amount::zero(),
            valid_to: 1_900_000_000,
        },
        id: Some(1),
    }
}

fn texts() -> OrderTexts {
    OrderTexts { sell: "1".to_string(), buy: "0.99".to_string(), min: "0.985".to_string() }
}

#[test]
fn cow_place_opens_review_then_confirm_parks_signer() {
    let me = addr(0xAB);
    let mut screen = screen_for(me);
    assert!(screen.gate.review.is_none());
    assert!(!screen.desk.order_op_in_flight);

    screen.open_cow_review(
        CowHost::Apps,
        sample_swap_draft(),
        sample_quote(),
        texts(),
        &contracts(),
    );
    let review = screen.gate.review.as_ref().expect("place opens a review");
    let order = review.order.as_ref().expect("swap review shows the order panel");
    assert_eq!(order.receiver, me, "receiver is the active account");
    assert_eq!(order.sell_symbol, "USDC");
    assert_eq!(order.buy_symbol, "DAI");
    assert!(!screen.desk.order_op_in_flight);

    screen.cancel_sign_review();
    assert!(screen.gate.review.is_none());
    assert!(!screen.desk.order_op_in_flight);

    screen.open_cow_review(
        CowHost::Apps,
        sample_swap_draft(),
        sample_quote(),
        texts(),
        &contracts(),
    );
    screen.confirm_sign_review();
    assert!(screen.desk.order_op_in_flight);
    assert!(screen.gate.review.is_none(), "confirm closes the review");
}

#[test]
fn cow_cancel_opens_gasless_review() {
    let me = addr(0xAB);
    let mut screen = screen_for(me);
    let uid = "0xdeadbeef".repeat(7);
    screen.orders.orders.push(TrackedOrder {
        chain: Chain::Mainnet,
        sell_token: addr(0x11),
        buy_token: addr(0x22),
        buy_amount: Amount::of(990_000_000_000_000_000),
        ..tracked_order(&uid, me, OrderStatus::Open, 1_900_000_000)
    });
    screen.open_cow_cancel_review(CowHost::Modal, &uid, "1");
    let review = screen.gate.review.as_ref().expect("cancel opens a review");
    assert!(review.order.is_none(), "a cancellation has no order panel");
    assert!(!review.legs_loading, "a cancellation has nothing to decode");
}

#[test]
fn active_safe_signing_block_catches_demotion_and_swap() {
    let mut screen = screen_with_safes(addr(1), vec![safe_descriptor(0x99, 1)]);
    screen.identity.active_safe = Some(0);
    let safe = screen.identity.safes[0].address;
    let chain = Chain::Mainnet;
    assert!(screen.identity.active_safe_signing_block(safe, chain).is_none());

    screen.identity.safes[0].trust = SafeTrust::UnrecognizedImpl;
    assert!(screen.identity.active_safe_signing_block(safe, chain).is_some());

    screen.identity.safes[0] = safe_descriptor(0xAB, 1);
    assert!(screen.identity.active_safe_signing_block(safe, chain).is_some());

    screen.identity.active_safe = None;
    assert!(screen.identity.active_safe_signing_block(safe, chain).is_some());
}

#[test]
fn allowed_chains_in_eoa_mode_returns_all_chains() {
    let screen = screen_with_safes(addr(1), vec![safe_descriptor(0x55, 1)]);
    assert_eq!(screen.identity.allowed_chains(), Chain::all());
}

#[test]
fn allowed_chains_in_safe_mode_returns_only_safe_chain() {
    for (byte, chain) in [(0x55, Chain::Mainnet), (0x66, Chain::Base), (0x77, Chain::Optimism)] {
        let mut screen =
            screen_with_safes(addr(1), vec![safe_descriptor(byte, chain.chain_id())]);
        screen.identity.active_safe = Some(0);
        assert_eq!(screen.identity.allowed_chains(), vec![chain]);
    }
}

#[test]
fn portfolio_fetched_on_disallowed_chain_in_safe_mode_drops() {
    let mut screen =
        screen_with_safes(addr(1), vec![safe_descriptor(0x55, Chain::Mainnet.chain_id())]);
    screen.identity.active_safe = Some(0);
    let stray = LiveToken {
        balance: "0.1".to_string(),
        balance_raw: Amount::zero(),
        ..token("ETH", Chain::Base)
    };
    send(
        &mut screen,
        Message::PortfolioFetched {
            address: addr(0x55),
            network: NetworkId::Builtin(Chain::Base),
            result: Ok(vec![stray]),
        },
    );
    assert!(screen.portfolio.rows.is_empty());
}

#[test]
fn history_fetched_on_disallowed_chain_in_safe_mode_drops() {
    let mut screen =
        screen_with_safes(addr(1), vec![safe_descriptor(0x55, Chain::Mainnet.chain_id())]);
    screen.identity.active_safe = Some(0);
    send(
        &mut screen,
        Message::HistoryFetched {
            address: addr(0x55),
            chain: Chain::Optimism,
            result: Ok(vec![indexed_tx(Chain::Optimism)]),
        },
    );
    assert!(screen.history.rows.is_empty());
}

#[test]
fn switch_account_outcome_exits_safe_mode_and_resets_history() {
    let mut screen = screen_with_safes(addr(1), vec![safe_descriptor(0x77, 1)]);
    screen.identity.active_safe = Some(0);
    screen.history.loaded = true;
    screen.modal = Modal::AccountDropdown;
    let reply =
        send(&mut screen, Message::AccountDropdown(account_dropdown::Message::Select(0)));
    assert!(reply.outcome.is_none());
    assert!(screen.identity.active_safe.is_none());
    assert!(!screen.history.loaded);
}

#[test]
fn signable_owners_excludes_view_only_and_dangling_indices() {
    let accounts = vec![
        local_with_key(0xaa),
        view_only_account(addr(0xbb)),
        ledger_acct(addr(0xcc)),
    ];
    let mut safe = safe_descriptor(0x11, 1);
    safe.linked_signer_indices = vec![0, 1, 2, 9];
    let got = signable_owners_of(&safe, &accounts);
    assert_eq!(got.len(), 2, "view-only + dangling dropped");
    assert!(matches!(got[0].1, AccountDescriptor::Local { .. }));
    assert!(matches!(got[1].1, AccountDescriptor::Ledger { .. }));
    assert_eq!(got[1].0, addr(0xcc));
}

#[test]
fn first_local_key_finds_first_local_only() {
    let accounts =
        vec![view_only_account(addr(0xbb)), local_with_key(0x07), local_with_key(0x09)];
    assert_eq!(first_local_key_of(&accounts), Some(hash(0x07)));
    let hw_only = vec![view_only_account(addr(0xbb)), ledger_acct(addr(0xcc))];
    assert!(first_local_key_of(&hw_only).is_none());
}

#[test]
fn owner_desc_by_address_matches_or_none() {
    let l = local_with_key(0x05);
    let la = l.account_address().expect("local has address");
    let accounts = vec![view_only_account(addr(0xbb)), l];
    assert!(matches!(
        owner_desc_by_address(la, &accounts),
        Some(AccountDescriptor::Local { .. })
    ));
    assert!(owner_desc_by_address(addr(0xff), &accounts).is_none());
}

#[test]
fn trim_trailing_decimal_zeros_strips_padding() {
    assert_eq!(trim_trailing_decimal_zeros("1.000000000000000000"), "1");
    assert_eq!(trim_trailing_decimal_zeros("0.500000000000000000"), "0.5");
    assert_eq!(trim_trailing_decimal_zeros("0.000000000000000000"), "0");
    assert_eq!(trim_trailing_decimal_zeros("0.123456789012"), "0.123456789012");
    assert_eq!(trim_trailing_decimal_zeros("42"), "42");
}

fn safe_screen(chain_id: u64, safe_addr: Address) -> WalletScreen {
    let desc = SafeDescriptor {
        address: safe_addr,
        threshold: 2,
        owners: vec![addr(0x11), addr(0x22)],
        linked_signer_indices: Vec::new(),
        ..safe_descriptor(0, chain_id)
    };
    let mut s = screen_with_safes(addr(0xAA), vec![desc]);
    s.identity.active_safe = Some(0);
    s
}

fn pending_tx(nonce: u64) -> PendingSafeTx {
    PendingSafeTx {
        safe_tx_hash: hash(0xab),
        to: addr(0xdd),
        value: Amount::zero(),
        data: Vec::new(),
        operation: 0,
        nonce,
        state: SafeTxState::AwaitingConfirmations { have: 1, required: 2 },
        submission_ts: 0,
    }
}

#[test]
fn fetch_safe_pending_task_is_none_in_eoa_mode() {
    let s = screen_for(addr(0xAA));
    assert!(s.fetch_safe_pending_task(&env().config).is_none());
}

#[test]
fn fetch_safe_pending_task_launches_for_mainnet_safe() {
    let s = safe_screen(1, addr(0xCC));
    assert!(s.fetch_safe_pending_task(&env().config).is_some());
}

#[test]
fn fetch_safe_pending_task_is_none_for_unsupported_chain() {
    let s = safe_screen(42161, addr(0xCC));
    assert!(s.fetch_safe_pending_task(&env().config).is_none());
}

#[test]
fn refresh_portfolio_does_not_strand_pending_loading_when_fetch_cannot_launch() {
    let mut s = safe_screen(42161, addr(0xCC));
    send(&mut s, Message::RefreshPortfolio);
    assert!(!s.queue.loading);
}

#[test]
fn refresh_portfolio_marks_pending_loading_when_fetch_launches() {
    let mut s = safe_screen(1, addr(0xCC));
    send(&mut s, Message::RefreshPortfolio);
    assert!(s.queue.loading);
}

#[test]
fn safe_pending_fetched_for_active_safe_applies_and_clears_loading() {
    let safe = addr(0xCC);
    let mut s = safe_screen(1, safe);
    s.queue.loading = true;
    send(
        &mut s,
        Message::SafePendingFetched {
            safe,
            chain: Chain::Mainnet,
            result: Ok(vec![pending_tx(5)]),
        },
    );
    assert_eq!(s.queue.pending.len(), 1);
    assert_eq!(s.queue.pending[0].nonce, 5);
    assert!(s.queue.error.is_none());
    assert!(!s.queue.loading);
}

#[test]
fn safe_pending_fetched_for_other_safe_is_dropped() {
    let mut s = safe_screen(1, addr(0xCC));
    send(
        &mut s,
        Message::SafePendingFetched {
            safe: addr(0xEE),
            chain: Chain::Mainnet,
            result: Ok(vec![pending_tx(5)]),
        },
    );
    assert!(s.queue.pending.is_empty());
}

#[test]
fn safe_pending_fetched_for_wrong_chain_is_dropped() {
    let safe = addr(0xCC);
    let mut s = safe_screen(1, safe);
    send(
        &mut s,
        Message::SafePendingFetched {
            safe,
            chain: Chain::Base,
            result: Ok(vec![pending_tx(5)]),
        },
    );
    assert!(s.queue.pending.is_empty());
}

#[test]
fn safe_pending_fetched_error_is_surfaced_not_swallowed() {
    let safe = addr(0xCC);
    let mut s = safe_screen(1, safe);
    s.queue.loading = true;
    send(
        &mut s,
        Message::SafePendingFetched {
            safe,
            chain: Chain::Mainnet,
            result: Err("safe-service queue: HTTP 503".to_string()),
        },
    );
    assert!(!s.queue.loading);
    assert_eq!(s.queue.error.as_deref(), Some("safe-service queue: HTTP 503"));
    send(
        &mut s,
        Message::SafePendingFetched { safe, chain: Chain::Mainnet, result: Ok(Vec::new()) },
    );
    assert!(s.queue.error.is_none());
}

fn reviewed_req(prepared: Option<PreparedSafeTx>) -> SafeSendRequest {
    SafeSendRequest {
        safe_address: addr(0x5A),
        chain: Chain::Mainnet,
        version: "1.4.1".to_string(),
        trust: SafeTrust::Canonical,
        service_base: DEFAULT_TX_SERVICE_BASE.to_string(),
        recipient: addr(0xDD),
        amount_units: Amount::of(1_000),
        token: SendToken::Native,
        threshold: 1,
        signable_indices: vec![0],
        prepared,
    }
}

fn pinned(nonce: u64, byte: u8) -> SafeSendRequest {
    reviewed_req(Some(PreparedSafeTx { nonce, safe_tx_hash: hash(byte) }))
}

fn unread() -> Result<u64, String> {
    Err("the chain was read".to_string())
}

#[test]
fn rebuild_refuses_without_a_review_pin() {
    let err =
        rebuild_reviewed_safe_tx(&reviewed_req(None), unread(), hash(1), Ok(())).unwrap_err();
    assert!(err.contains("reviewed hash"), "{err}");
}

#[test]
fn rebuild_refuses_unsignable_version_before_any_chain_read() {
    let mut req = pinned(7, 0xaa);
    req.version = "1.1.1".to_string();
    let err = rebuild_reviewed_safe_tx(&req, unread(), hash(1), Ok(())).unwrap_err();
    assert!(err.contains("outside the signable range"), "{err}");
}

#[test]
fn rebuild_refuses_unrecognized_safe_before_any_chain_read() {
    let mut req = pinned(7, 0xaa);
    req.trust = SafeTrust::UnrecognizedImpl;
    let err = rebuild_reviewed_safe_tx(&req, unread(), hash(1), Ok(())).unwrap_err();
    assert!(err.contains("not recognized as canonical"), "{err}");
}

#[test]
fn rebuild_refuses_when_nonce_advanced_since_review() {
    let err = rebuild_reviewed_safe_tx(&pinned(7, 0xaa), Ok(8), hash(0xaa), Ok(())).unwrap_err();
    assert!(err.contains("advanced since review"), "{err}");
    assert!(err.contains("7 → 8"), "{err}");
}

#[test]
fn rebuild_refuses_when_pin_hash_diverges_from_rebuilt_tx() {
    let err = rebuild_reviewed_safe_tx(&pinned(7, 0xaa), Ok(7), hash(0xbb), Ok(())).unwrap_err();
    assert!(err.contains("differs from the reviewed hash"), "{err}");
}

#[test]
fn rebuild_passes_when_pin_matches_and_contract_agrees() {
    let req = pinned(7, 0x77);
    let tx: SafeTx = build_safe_tx_with_nonce(req.safe_tx_input(), 7);
    let (got_tx, got_hash) =
        rebuild_reviewed_safe_tx(&req, Ok(7), hash(0x77), Ok(())).unwrap();
    assert_eq!(got_hash, hash(0x77));
    assert_eq!(got_tx.to, tx.to);
    assert_eq!(got_tx.value, tx.value);
    assert_eq!(got_tx.nonce, tx.nonce);
    assert_eq!(got_tx.operation, tx.operation);
    assert_eq!(got_tx.to, addr(0xDD));
    assert_eq!(got_tx.value, Amount::of(1_000));
}

#[test]
fn rebuild_refuses_when_contract_disputes_the_hash() {
    let err = rebuild_reviewed_safe_tx(
        &pinned(7, 0x77),
        Ok(7),
        hash(0x77),
        Err("safe hash mismatch: the contract computes another".to_string()),
    )
    .unwrap_err();
    assert!(err.contains("safe hash mismatch"), "{err}");
}
