use wallet_dashboard::amounts::{parse_amount, trim_zeros};
use wallet_dashboard::apps::{AppsPane, AppsView, Message as AppsMessage};
use wallet_dashboard::home::{format_symbol, sanitize_network_name};
use wallet_dashboard::keys::{Event, Key};
use wallet_dashboard::pool_app::{Message, Outcome, PoolApp, TargetResolution};
use wallet_dashboard::types::{Address, Amount, Chain, Hash32, NetworkId};

fn esc_event() -> Event {
    Event::KeyPressed { key: Key::Escape, shift: false }
}

#[test]
fn esc_steps_back_from_swap_app_to_launcher() {
    let mut pane = AppsPane::new(Vec::new());
    assert_eq!(pane.view, AppsView::Launcher);
    pane.update(AppsMessage::OpenSwapApp);
    assert_eq!(pane.view, AppsView::Swap);
    let out = pane.update(AppsMessage::Key(esc_event()));
    assert!(out.is_none(), "stepping back is internal, no outcome bubbles up");
    assert_eq!(pane.view, AppsView::Launcher);
}

#[test]
fn esc_on_launcher_is_a_noop() {
    let mut pane = AppsPane::new(Vec::new());
    pane.update(AppsMessage::Key(esc_event()));
    assert_eq!(pane.view, AppsView::Launcher);
}

#[test]
fn mainnet_symbol_has_no_suffix() {
    let none = Vec::new();
    assert_eq!(format_symbol("USDC", NetworkId::Builtin(Chain::Mainnet), &none), "USDC");
    assert_eq!(format_symbol("ETH", NetworkId::Builtin(Chain::Mainnet), &none), "ETH");
}

#[test]
fn l2_symbol_carries_chain_in_parens() {
    let none = Vec::new();
    assert_eq!(format_symbol("USDC", NetworkId::Builtin(Chain::Base), &none), "USDC (Base)");
    assert_eq!(
        format_symbol("ETH", NetworkId::Builtin(Chain::Optimism), &none),
        "ETH (Optimism)"
    );
}

#[test]
fn custom_network_symbol_carries_name_or_chain_id() {
    assert_eq!(
        format_symbol("ETH", NetworkId::Custom(987654321), &Vec::new()),
        "ETH (chain 987654321)"
    );
}

#[test]
fn custom_network_name_is_sanitized_for_display() {
    assert_eq!(sanitize_network_name("My\u{202E}Net\u{200B}work"), "MyNetwork");
}

#[test]
fn parse_amount_scales_by_decimals() {
    assert_eq!(parse_amount("1", 18), Some(Amount::of(10u128.pow(18))));
    assert_eq!(parse_amount("1.5", 6), Some(Amount::of(1_500_000)));
    assert_eq!(parse_amount("0.01", 18), Some(Amount::of(10u128.pow(16))));
    assert_eq!(parse_amount("", 18), None);
    assert_eq!(parse_amount("1.2345678", 6), None);
    assert_eq!(parse_amount("abc", 18), None);
}

fn pool() -> PoolApp {
    PoolApp::new(Vec::new())
}

#[test]
fn set_target_classifies_input() {
    let mut app = pool();

    app.set_target("   ".to_string());
    assert!(matches!(app.withdraw_resolution, TargetResolution::Empty));

    let addr = Address::from_bytes([0x11; 20]);
    app.set_target("0x1111111111111111111111111111111111111111".to_string());
    assert!(matches!(app.withdraw_resolution, TargetResolution::Address(a) if a == addr));

    app.set_target("0x0000000000000000000000000000000000000000".to_string());
    assert!(matches!(app.withdraw_resolution, TargetResolution::Invalid));

    app.set_target("vitalik.eth".to_string());
    assert!(
        matches!(&app.withdraw_resolution, TargetResolution::Resolving { name } if name == "vitalik.eth")
    );

    app.set_target("hello".to_string());
    assert!(matches!(app.withdraw_resolution, TargetResolution::Invalid));
}

#[test]
fn resolve_dispatches_once_and_drops_stale() {
    let mut app = pool();
    app.set_target("vitalik.eth".to_string());
    let seq = app.withdraw_resolution_seq;

    assert_eq!(app.take_pending_resolve(), Some((seq, "vitalik.eth".to_string())));
    assert!(app.take_pending_resolve().is_none());

    let addr = Address::from_bytes([0x22; 20]);
    app.set_target_resolution(seq.wrapping_sub(1), "vitalik.eth".to_string(), Ok(Some(addr)));
    assert!(matches!(app.withdraw_resolution, TargetResolution::Resolving { .. }));

    app.set_target_resolution(seq, "vitalik.eth".to_string(), Ok(Some(addr)));
    assert_eq!(app.resolved_target(), Ok(addr));
}

#[test]
fn unresolved_names_block_the_quote() {
    let mut app = pool();

    app.set_target("ghost.eth".to_string());
    let seq = app.withdraw_resolution_seq;
    app.set_target_resolution(seq, "ghost.eth".to_string(), Ok(None));
    assert!(matches!(app.withdraw_resolution, TargetResolution::NotFound { .. }));
    assert!(app.resolved_target().is_err());
    assert!(app.withdraw_resolution.recipient().is_none());

    app.set_target("half.eth".to_string());
    assert!(app.resolved_target().is_err());
}

#[test]
fn picked_contact_reverifies_pinned_name() {
    let mut app = pool();
    let pinned = Address::from_bytes([0x33; 20]);
    app.update(Message::PickTarget { address: pinned, ens: Some("vitalik.eth".to_string()) });
    assert!(matches!(app.withdraw_resolution, TargetResolution::AddressVerifying { .. }));
    assert_eq!(app.withdraw_resolution.recipient(), Some(pinned));
    assert_eq!(app.take_pending_resolve().map(|(_, n)| n), Some("vitalik.eth".to_string()));
    let seq = app.withdraw_resolution_seq;

    app.set_target_resolution(seq, "vitalik.eth".to_string(), Ok(Some(pinned)));
    assert!(matches!(app.withdraw_resolution, TargetResolution::Address(a) if a == pinned));
}

#[test]
fn diverged_pinned_name_blocks_until_accepted() {
    let mut app = pool();
    let pinned = Address::from_bytes([0x33; 20]);
    app.update(Message::PickTarget { address: pinned, ens: Some("vitalik.eth".to_string()) });
    let seq = app.withdraw_resolution_seq;

    let fresh = Address::from_bytes([0x44; 20]);
    app.set_target_resolution(seq, "vitalik.eth".to_string(), Ok(Some(fresh)));
    assert!(matches!(app.withdraw_resolution, TargetResolution::EnsDivergence { .. }));
    assert!(app.withdraw_resolution.recipient().is_none());
    assert!(app.resolved_target().is_err());

    app.update(Message::AcceptTargetDivergence);
    assert_eq!(app.withdraw_resolution.recipient(), Some(fresh));
}

#[test]
fn depositing_marker_tracks_pools_and_clock() {
    let mut app = pool();
    let a = Address::from_bytes([0xaa; 20]);
    let b = Address::from_bytes([0xbb; 20]);
    assert!(app.deposit_started.is_none());

    app.set_pool_depositing(a, true, 5);
    assert!(app.depositing_pools.contains(&a));
    let started = app.deposit_started;
    assert!(started.is_some());

    app.set_pool_depositing(b, true, 9);
    assert_eq!(app.deposit_started, started);

    app.set_pool_depositing(a, false, 12);
    assert!(!app.depositing_pools.contains(&a));
    assert!(app.deposit_started.is_some());

    app.set_pool_depositing(b, false, 13);
    assert!(app.depositing_pools.is_empty());
    assert!(app.deposit_started.is_none());
}

#[test]
fn removing_identity_clears_depositing_markers() {
    let mut app = pool();
    app.set_pool_depositing(Address::from_bytes([0xaa; 20]), true, 1);
    app.set_identity(false);
    assert!(app.depositing_pools.is_empty());
    assert!(app.deposit_started.is_none());
}

fn label(byte: u8) -> Hash32 {
    Hash32 { hi: u128::from_be_bytes([byte; 16]), lo: u128::from_be_bytes([byte; 16]) }
}

#[test]
fn asp_toggle_manages_approval_badges() {
    let mut app = pool();
    let at = Address::from_bytes([0x55; 20]);
    app.set_pool_approvals(at, vec![label(0x01)]);
    assert!(app.approvals.contains(&at));

    assert!(app.update(Message::ToggleAsp(false)).is_none());
    assert!(app.approvals.is_empty());

    assert!(matches!(app.update(Message::ToggleAsp(true)), Some(Outcome::Sync(_))));
}

#[test]
fn removing_identity_clears_approvals() {
    let mut app = pool();
    app.set_pool_approvals(Address::from_bytes([0x55; 20]), vec![label(0x02)]);
    app.set_identity(false);
    assert!(app.approvals.is_empty());
}

#[test]
fn trim_zeros_drops_trailing_fraction() {
    assert_eq!(trim_zeros("0.010000"), "0.01");
    assert_eq!(trim_zeros("25.0000"), "25");
    assert_eq!(trim_zeros("1000.00"), "1000");
    assert_eq!(trim_zeros("1.2345"), "1.2345");
    assert_eq!(trim_zeros("0"), "0");
    assert_eq!(trim_zeros("42"), "42");
}
