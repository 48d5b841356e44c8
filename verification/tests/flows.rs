use wallet_dashboard::cow_flow::{
    cancellation_body, cow_preflight_sim, signing_scheme, CancelAction, CancelEvent, Cancellation,
    PlaceAction, PlaceEvent, PlaceFailure, PlaceStage, Placement, Placer, SimOutcome, POST_RETRIES,
};
use wallet_dashboard::crew::{Crew, CrewAction, CrewEvent, CrewKind};
use wallet_dashboard::identity::SafeTrust;
use wallet_dashboard::name_flow::{NameAction, NameEvent, NameWrite, NameWriter};
use wallet_dashboard::name_writes::{NameSign, Namespace, RegisterPlan};
use wallet_dashboard::orders::{OrderStatus, TrackedOrder};
use wallet_dashboard::safe_flow::{SafeJob, SafeTask, TaskAction, TaskEvent, TaskStage};
use wallet_dashboard::safe_tx::{
    choose_executor, ExecAction, ExecEvent, ExecStage, Executor, PreparedSafeTx, SafeExec,
    SafeSendRequest, SendToken,
};
use wallet_dashboard::swap::{
    apply_slippage, build_ethflow_data, cow_legs, cow_quote_request, create_order_calldata,
    full_sell, CowContracts, LegCall, QuoteParams, QuoteResponse, SwapDraft,
};
use wallet_dashboard::types::{Address, Amount, Chain, Hash32};

fn addr(byte: u8) -> Address {
    Address::from_bytes([byte; 20])
}

fn hash(byte: u8) -> Hash32 {
    Hash32 { hi: u128::from_be_bytes([byte; 16]), lo: u128::from_be_bytes([byte; 16]) }
}

fn contracts() -> CowContracts {
    CowContracts { ethflow: addr(0xE7), settlement: addr(0x9E) }
}

fn draft(is_native: bool) -> SwapDraft {
    SwapDraft {
        chain: Chain::Base,
        is_native,
        sell_token: addr(0x11),
        buy_token: addr(0x22),
        sell_amount: Amount::of(1_000),
        slippage_bps: 100,
        sell_symbol: "USDC".to_string(),
        buy_symbol: "DAI".to_string(),
        sell_decimals: 6,
        buy_decimals: 18,
    }
}

fn quote() -> QuoteResponse {
    QuoteResponse {
        quote: QuoteParams {
            sell_amount: Amount::of(990),
            buy_amount: Amount::of(2_000),
            fee_amount: Amount::of(10),
            valid_to: 1_900_000_000,
        },
        id: Some(7),
    }
}

fn err<T>(t: &str) -> Result<T, String> {
    Err(t.to_string())
}

// ── figures ─────────────────────────────────────────────────────────────────

#[test]
fn the_fee_is_part_of_what_is_sold() {
    assert_eq!(full_sell(&quote().quote), Amount::of(1_000));
    let most = Amount { hi: u128::MAX, lo: u128::MAX };
    let q = QuoteParams { sell_amount: most, ..quote().quote };
    assert_eq!(full_sell(&q), most);
}

#[test]
fn slippage_takes_hundredths_of_a_percent() {
    assert_eq!(apply_slippage(Amount::of(10_000), 50), Amount::of(9_950));
    assert_eq!(apply_slippage(Amount::of(2_000), 100), Amount::of(1_980));
    assert_eq!(apply_slippage(Amount::of(999), 0), Amount::of(999));
}

#[test]
fn a_quote_for_native_coin_is_asked_for_the_contract() {
    let user = addr(0xAA);
    let native = cow_quote_request(&draft(true), user, "{}".to_string(), &contracts());
    assert_eq!(native.from, contracts().ethflow);
    assert_eq!(native.signing_scheme, "eip1271");
    assert!(native.onchain_order);
    let erc20 = cow_quote_request(&draft(false), user, "{}".to_string(), &contracts());
    assert_eq!(erc20.from, user);
    assert_eq!(erc20.signing_scheme, "eip712");
    assert!(!erc20.onchain_order);
    assert_eq!(erc20.valid_for, 1800);
    assert_eq!(erc20.receiver, user);
    assert_eq!(erc20.sell_amount_before_fee, Amount::of(1_000));
}

#[test]
fn only_a_short_allowance_makes_an_approval_leg() {
    let c = contracts();
    let short =
        cow_legs(&draft(false), &quote(), Some(Ok(Amount::of(999))), &c).expect("legs");
    assert_eq!(short.len(), 1);
    assert_eq!(short[0].title, "Approve USDC for CoW (vault relayer)");
    assert_eq!(short[0].to, addr(0x11));
    assert!(matches!(short[0].call, LegCall::ApproveMax));
    let enough =
        cow_legs(&draft(false), &quote(), Some(Ok(Amount::of(1_000))), &c).expect("legs");
    assert!(enough.is_empty());
    let native = cow_legs(&draft(true), &quote(), None, &c).expect("legs");
    assert_eq!(native[0].title, "Place on-chain order — EthFlow createOrder");
    assert_eq!(native[0].value, Amount::of(1_000));
    assert_eq!(
        cow_legs(&draft(false), &quote(), None, &c).unwrap_err(),
        "no execution RPC configured"
    );
    assert_eq!(
        cow_legs(&draft(false), &quote(), Some(err("no answer")), &c).unwrap_err(),
        "no answer"
    );
}

#[test]
fn an_order_for_native_coin_is_written_word_by_word() {
    let d = build_ethflow_data(&draft(true), &quote(), addr(0xAA), hash(0x33));
    assert_eq!(d.buy_amount, Amount::of(1_980));
    let bytes = create_order_calldata(&d);
    assert_eq!(bytes.len(), 4 + 9 * 32);
    assert_eq!(&bytes[4 + 12..4 + 32], &[0x22; 20]);
    assert_eq!(&bytes[4 + 32 + 12..4 + 64], &[0xAA; 20]);
    assert_eq!(bytes[4 + 3 * 32 - 1], 0xE8);
    assert_eq!(bytes[4 + 9 * 32 - 1], 7);
}

// ── placing ─────────────────────────────────────────────────────────────────

#[test]
fn an_account_approves_signs_and_posts() {
    let (mut p, first) =
        Placement::cow_place_order(&draft(false), &quote(), addr(0xAA), &contracts());
    assert!(matches!(first, PlaceAction::ReadAllowance));
    let a = p.step(PlaceEvent::Allowance(Ok(Amount::of(999))));
    assert!(matches!(a, PlaceAction::Preflight { call: LegCall::ApproveMax, .. }));
    let a = p.step(PlaceEvent::Simulated(SimOutcome::Success));
    assert!(matches!(a, PlaceAction::SendCall { call: LegCall::ApproveMax, .. }));
    let a = p.step(PlaceEvent::Sent(Ok(hash(1))));
    assert!(matches!(a, PlaceAction::AwaitReceipt(h) if h == hash(1)));
    assert!(matches!(p.step(PlaceEvent::Mined(Ok(()))), PlaceAction::SignOrder));
    assert!(matches!(p.step(PlaceEvent::Signed(Ok(()))), PlaceAction::UploadAppData));
    assert!(matches!(p.step(PlaceEvent::Uploaded), PlaceAction::PostOrder));
    match p.step(PlaceEvent::Posted(Ok("0xuid".to_string()))) {
        PlaceAction::Placed(o) => {
            assert_eq!(o.uid, "0xuid");
            assert_eq!(o.owner, addr(0xAA));
            assert_eq!(o.sell_amount, Amount::of(1_000));
            assert_eq!(o.buy_amount, Amount::of(1_980));
            assert_eq!(o.status, OrderStatus::Open);
            assert!(!o.is_ethflow);
        }
        other => panic!("{other:?}"),
    }
}

#[test]
fn a_doomed_call_is_not_paid_for() {
    let (mut p, _) =
        Placement::cow_place_order(&draft(true), &quote(), addr(0xAA), &contracts());
    assert!(matches!(p.step(PlaceEvent::Uploaded), PlaceAction::Preflight { .. }));
    match p.step(PlaceEvent::Simulated(SimOutcome::Revert("no balance".to_string()))) {
        PlaceAction::Failed(f) => {
            assert_eq!(f.message(), "preflight: would revert — no balance");
        }
        other => panic!("{other:?}"),
    }
    assert!(matches!(p.step(PlaceEvent::Sent(Ok(hash(1)))), PlaceAction::Nothing));
}

#[test]
fn a_simulation_that_cannot_run_stops_nothing() {
    assert!(cow_preflight_sim(SimOutcome::Unavailable).is_ok());
    assert!(cow_preflight_sim(SimOutcome::Success).is_ok());
    let halted = cow_preflight_sim(SimOutcome::Halt("out of gas".to_string())).unwrap_err();
    assert!(matches!(halted, PlaceFailure::Halt(_)));
    assert_eq!(halted.message(), "preflight: would fail — out of gas");
    assert_eq!(PlaceFailure::Told("why".to_string()).message(), "why");
}

#[test]
fn a_fresh_approval_is_waited_for_five_times() {
    let (mut p, _) =
        Placement::cow_place_order(&draft(false), &quote(), addr(0xAA), &contracts());
    p.step(PlaceEvent::Allowance(Ok(Amount::zero())));
    p.step(PlaceEvent::Simulated(SimOutcome::Success));
    p.step(PlaceEvent::Sent(Ok(hash(1))));
    p.step(PlaceEvent::Mined(Ok(())));
    p.step(PlaceEvent::Signed(Ok(())));
    p.step(PlaceEvent::Uploaded);
    for _ in 0..POST_RETRIES {
        let a = p.step(PlaceEvent::Posted(err("must give ALLOWANCE to VaultRelayer")));
        assert!(matches!(a, PlaceAction::PostAgain));
    }
    let a = p.step(PlaceEvent::Posted(err("must give allowance to VaultRelayer")));
    assert!(matches!(a, PlaceAction::Failed(PlaceFailure::Told(_))));
}

#[test]
fn an_order_without_an_approval_is_posted_once() {
    let (mut p, _) =
        Placement::cow_place_order(&draft(false), &quote(), addr(0xAA), &contracts());
    assert!(matches!(
        p.step(PlaceEvent::Allowance(Ok(Amount::of(1_000)))),
        PlaceAction::SignOrder
    ));
    p.step(PlaceEvent::Signed(Ok(())));
    p.step(PlaceEvent::Uploaded);
    let a = p.step(PlaceEvent::Posted(err("must give allowance to VaultRelayer")));
    assert!(matches!(a, PlaceAction::Failed(_)));
    assert_eq!(p.stage, PlaceStage::Over);
}

fn safe_placement(is_native: bool, trust: SafeTrust, version: &str) -> (Placement, PlaceAction) {
    Placement::cow_place_order_safe(
        &draft(is_native),
        &quote(),
        addr(0x5A),
        Chain::Mainnet,
        trust,
        version,
        &contracts(),
    )
}

#[test]
fn a_safe_order_lies_on_the_chain_of_the_safe() {
    let (mut p, _) = safe_placement(false, SafeTrust::Canonical, "1.4.1");
    assert_eq!(p.draft.chain, Chain::Base);
    p.step(PlaceEvent::Allowance(Ok(Amount::of(1_000))));
    p.step(PlaceEvent::Signed(Ok(())));
    p.step(PlaceEvent::Confirmed(Ok(())));
    p.step(PlaceEvent::Uploaded);
    let a = p.step(PlaceEvent::Posted(Ok("0xuid".to_string())));
    assert!(matches!(
        a,
        PlaceAction::Placed(TrackedOrder { chain: Chain::Mainnet, owner, .. }) if owner == addr(0x5A)
    ));
    let (p, _) = Placement::cow_place_order(&draft(false), &quote(), addr(0xAA), &contracts());
    assert_eq!(p.chain, p.draft.chain);
}

#[test]
fn versions_are_read_as_numbers() {
    let opens = |version: &str| {
        !matches!(safe_placement(false, SafeTrust::Canonical, version).1, PlaceAction::Failed(_))
    };
    assert!(opens("1.3.0"));
    assert!(opens("1.10.0"));
    assert!(opens("1.12345678901234567890123.0"));
    assert!(!opens("1.00000000002.0"));
    assert!(!opens("1.2.9"));
    assert!(!opens("2.0.0"));
    assert!(!opens("1.x.0"));
}

#[test]
fn a_safe_checks_its_signature_before_it_posts() {
    let (mut p, first) = safe_placement(false, SafeTrust::Canonical, "1.4.1");
    assert!(matches!(first, PlaceAction::ReadAllowance));
    let a = p.step(PlaceEvent::Allowance(Ok(Amount::zero())));
    assert!(matches!(a, PlaceAction::CallAsSafe { nonce: None, .. }));
    p.step(PlaceEvent::Sent(Ok(hash(2))));
    assert!(matches!(p.step(PlaceEvent::Mined(Ok(()))), PlaceAction::SignOrder));
    assert!(matches!(p.step(PlaceEvent::Signed(Ok(()))), PlaceAction::VerifySignature));
    assert!(matches!(
        p.step(PlaceEvent::Confirmed(err("bad signature"))),
        PlaceAction::Failed(PlaceFailure::Told(_))
    ));
}

#[test]
fn a_safe_places_native_orders_at_its_nonce() {
    let (mut p, first) = safe_placement(true, SafeTrust::Canonical, "1.4.1");
    assert!(matches!(first, PlaceAction::UploadAppData));
    assert!(matches!(p.step(PlaceEvent::Uploaded), PlaceAction::ReadNonce));
    assert!(matches!(p.step(PlaceEvent::Nonce(Ok(4))), PlaceAction::Preflight { .. }));
    let a = p.step(PlaceEvent::Simulated(SimOutcome::Unavailable));
    assert!(matches!(
        a,
        PlaceAction::CallAsSafe { nonce: Some(4), call: LegCall::CreateOrder, .. }
    ));
    p.step(PlaceEvent::Sent(Ok(hash(2))));
    assert!(matches!(p.step(PlaceEvent::Mined(Ok(()))), PlaceAction::DeriveUid));
    let a = p.step(PlaceEvent::Uid(Ok("0xuid".to_string())));
    assert!(matches!(a, PlaceAction::Placed(TrackedOrder { is_ethflow: true, .. })));
}

#[test]
fn a_safe_that_is_not_trusted_places_nothing() {
    let (_, a) = safe_placement(false, SafeTrust::UnrecognizedImpl, "1.4.1");
    assert!(matches!(a, PlaceAction::Failed(_)));
    let (_, a) = safe_placement(false, SafeTrust::Canonical, "1.2.0");
    match a {
        PlaceAction::Failed(f) => assert!(f.message().contains("outside the signable range")),
        other => panic!("{other:?}"),
    }
}

#[test]
fn an_order_is_posted_with_its_signature() {
    let (p, _) = Placement::cow_place_order(&draft(false), &quote(), addr(0xAA), &contracts());
    let body = p.order_creation("{}".to_string(), "0x1".to_string(), &vec![0xab, 0x01]);
    assert_eq!(body.signature, "0xab01");
    assert_eq!(body.signing_scheme, "eip712");
    assert_eq!(body.fee_amount, Amount::zero());
    assert_eq!(body.sell_amount, Amount::of(1_000));
    assert_eq!(body.buy_amount, Amount::of(1_980));
    assert_eq!(body.quote_id, Some(7));
    assert_eq!(signing_scheme(Placer::Safe), "eip1271");
}

// ── cancelling ──────────────────────────────────────────────────────────────

fn uid() -> String {
    format!("0x{}", "ab".repeat(56))
}

#[test]
fn an_account_signs_and_deletes() {
    let (mut c, first) = Cancellation::cow_cancel(&uid(), Placer::Account);
    assert!(matches!(first, CancelAction::Sign(b) if b == vec![0xab; 56]));
    assert!(matches!(c.step(CancelEvent::Signed(Ok(()))), CancelAction::DeleteOrder));
    assert!(matches!(c.step(CancelEvent::Deleted(Ok(()))), CancelAction::Cancelled));
    assert!(matches!(c.step(CancelEvent::Deleted(Ok(()))), CancelAction::Nothing));
}

#[test]
fn a_safe_checks_its_cancellation() {
    let (mut c, _) = Cancellation::cow_cancel(&uid(), Placer::Safe);
    assert!(matches!(c.step(CancelEvent::Signed(Ok(()))), CancelAction::VerifySignature));
    assert!(matches!(c.step(CancelEvent::Confirmed(Ok(()))), CancelAction::DeleteOrder));
    assert!(matches!(c.step(CancelEvent::Deleted(err("404"))), CancelAction::Failed(_)));
    let body = cancellation_body(&uid(), &vec![1, 2], Placer::Safe);
    assert_eq!(body.signature, "0x0102");
    assert_eq!(body.signing_scheme, "eip1271");
    assert_eq!(body.order_uid, uid());
}

#[test]
fn a_broken_identifier_cancels_nothing() {
    let (_, a) = Cancellation::cow_cancel("0x00", Placer::Account);
    assert!(matches!(a, CancelAction::Failed(e) if e == "order uid must be 56 bytes"));
    let (_, a) = Cancellation::cow_cancel("0xzz", Placer::Account);
    assert!(matches!(a, CancelAction::Failed(e) if e.starts_with("bad order uid: ")));
}

// ── a Safe's transactions ───────────────────────────────────────────────────

fn request(prepared: Option<PreparedSafeTx>, threshold: u32) -> SafeSendRequest {
    SafeSendRequest {
        safe_address: addr(0x5A),
        chain: Chain::Mainnet,
        version: "1.4.1".to_string(),
        trust: SafeTrust::Canonical,
        service_base: "https://service".to_string(),
        recipient: addr(0xDD),
        amount_units: Amount::of(5),
        token: SendToken::Erc20 { contract: addr(0xC0) },
        threshold,
        signable_indices: vec![0, 1],
        prepared,
    }
}

fn pin() -> Option<PreparedSafeTx> {
    Some(PreparedSafeTx { nonce: 7, safe_tx_hash: hash(0x77) })
}

#[test]
fn a_send_is_prepared_at_the_live_nonce() {
    let (mut t, first) = SafeTask::start(SafeJob::Prepare { req: request(None, 1) });
    assert!(matches!(first, TaskAction::ReadNonce));
    assert!(matches!(t.step(TaskEvent::Nonce(Ok(9))), TaskAction::HashTx));
    let tx = t.tx.as_ref().expect("built");
    assert_eq!(tx.nonce, 9);
    assert_eq!(tx.to, addr(0xC0));
    assert_eq!(&tx.data[0..4], &[0xa9, 0x05, 0x9c, 0xbb]);
    assert_eq!(tx.data.len(), 68);
    assert!(matches!(t.step(TaskEvent::Hashed(hash(3))), TaskAction::VerifyHash(h) if h == hash(3)));
    assert!(matches!(
        t.step(TaskEvent::Verified(Ok(()))),
        TaskAction::Prepared { nonce: 9, hash: h } if h == hash(3)
    ));
}

#[test]
fn all_owners_sign_before_a_send_is_executed() {
    let job = SafeJob::Broadcast {
        req: request(pin(), 2),
        owners: 3,
        executor: Executor::Local(hash(0x10)),
    };
    let (mut t, first) = SafeTask::start(job);
    assert!(matches!(first, TaskAction::FindProvider));
    assert!(matches!(t.step(TaskEvent::Provider(true)), TaskAction::BuildOwner(0)));
    assert!(matches!(t.step(TaskEvent::Built(Ok(()))), TaskAction::BuildOwner(1)));
    assert!(matches!(t.step(TaskEvent::Built(Ok(()))), TaskAction::ReadNonce));
    assert!(matches!(t.step(TaskEvent::Nonce(Ok(7))), TaskAction::HashTx));
    assert!(matches!(t.step(TaskEvent::Hashed(hash(0x77))), TaskAction::VerifyHash(_)));
    assert!(matches!(
        t.step(TaskEvent::Verified(Ok(()))),
        TaskAction::SignOwner { owner: 0, hash: h } if h == hash(0x77)
    ));
    assert!(matches!(t.step(TaskEvent::Signed(Ok(()))), TaskAction::SignOwner { owner: 1, .. }));
    assert!(matches!(t.step(TaskEvent::Signed(Ok(()))), TaskAction::Assemble));
    assert!(matches!(t.step(TaskEvent::Assembled(Ok(()))), TaskAction::BuildExecutor(_)));
    assert!(matches!(t.step(TaskEvent::Built(Ok(()))), TaskAction::Send));
    assert!(matches!(t.step(TaskEvent::Sent(Ok(hash(5)))), TaskAction::Sent(h) if h == hash(5)));
    assert!(matches!(t.step(TaskEvent::Sent(Ok(hash(5)))), TaskAction::Nothing));
}

fn failure(a: TaskAction) -> String {
    match a {
        TaskAction::Failed(e) => e,
        other => panic!("{other:?}"),
    }
}

#[test]
fn a_broadcast_says_why_it_stops() {
    let job = |owners: usize, threshold: u32| SafeJob::Broadcast {
        req: request(pin(), threshold),
        owners,
        executor: Executor::FirstOwner,
    };
    let (mut t, _) = SafeTask::start(job(2, 2));
    assert_eq!(failure(t.step(TaskEvent::Provider(false))), "no execution RPCs configured");

    let few = "not enough signable owners to meet the Safe threshold";
    let (mut t, _) = SafeTask::start(job(0, 1));
    assert_eq!(failure(t.step(TaskEvent::Provider(true))), few);
    let (mut t, _) = SafeTask::start(job(1, 2));
    t.step(TaskEvent::Provider(true));
    assert_eq!(failure(t.step(TaskEvent::Built(Ok(())))), few);

    let (mut t, _) = SafeTask::start(job(1, 1));
    t.step(TaskEvent::Provider(true));
    assert_eq!(failure(t.step(TaskEvent::Built(err("no device")))), "no device");

    let (mut t, _) = SafeTask::start(job(1, 1));
    t.step(TaskEvent::Provider(true));
    t.step(TaskEvent::Built(Ok(())));
    assert_eq!(
        failure(t.step(TaskEvent::Nonce(Ok(8)))),
        "Safe nonce advanced since review (7 → 8) — go back and review again"
    );

    let (mut t, _) = SafeTask::start(job(1, 1));
    t.step(TaskEvent::Provider(true));
    t.step(TaskEvent::Built(Ok(())));
    t.step(TaskEvent::Nonce(Ok(7)));
    assert_eq!(
        failure(t.step(TaskEvent::Hashed(hash(1)))),
        "safe-tx differs from the reviewed hash — refusing to sign"
    );
    assert_eq!(t.stage, TaskStage::Over);
}

#[test]
fn an_executor_that_cannot_be_derived_is_named() {
    let job = SafeJob::Broadcast {
        req: request(pin(), 1),
        owners: 1,
        executor: choose_executor(Some(hash(0))),
    };
    let (mut t, _) = SafeTask::start(job);
    t.step(TaskEvent::Provider(true));
    t.step(TaskEvent::Built(Ok(())));
    t.step(TaskEvent::Nonce(Ok(7)));
    t.step(TaskEvent::Hashed(hash(0x77)));
    t.step(TaskEvent::Verified(Ok(())));
    t.step(TaskEvent::Signed(Ok(())));
    t.step(TaskEvent::Assembled(Ok(())));
    assert_eq!(failure(t.step(TaskEvent::Built(err("zero key")))), "derive executor: zero key");
}

#[test]
fn a_proposal_is_reviewed_before_its_owner_is_connected() {
    let (mut t, first) = SafeTask::start(SafeJob::Propose { req: request(pin(), 2) });
    assert!(matches!(first, TaskAction::ReadNonce));
    t.step(TaskEvent::Nonce(Ok(7)));
    t.step(TaskEvent::Hashed(hash(0x77)));
    assert!(matches!(t.step(TaskEvent::Verified(Ok(()))), TaskAction::BuildOwner(0)));
    assert!(matches!(t.step(TaskEvent::Built(Ok(()))), TaskAction::SignOwner { owner: 0, .. }));
    assert!(matches!(t.step(TaskEvent::Signed(Ok(()))), TaskAction::PostProposal("Kao")));
    assert!(matches!(t.step(TaskEvent::Posted(Ok(()))), TaskAction::Done(_)));
    let (_, a) = SafeTask::start(SafeJob::Propose { req: request(None, 2) });
    assert!(failure(a).contains("reviewed hash"));
}

#[test]
fn a_queued_transaction_is_confirmed_as_it_is_shown() {
    let (mut t, first) = SafeTask::start(SafeJob::Confirm { shown: hash(2) });
    assert!(matches!(first, TaskAction::HashTx));
    t.step(TaskEvent::Hashed(hash(2)));
    t.step(TaskEvent::Verified(Ok(())));
    t.step(TaskEvent::Built(Ok(())));
    assert!(matches!(
        t.step(TaskEvent::Signed(Ok(()))),
        TaskAction::PostConfirmation(h) if h == hash(2)
    ));
    assert!(matches!(
        t.step(TaskEvent::Posted(Ok(()))),
        TaskAction::Done(s) if s == "Signature added"
    ));
    let (mut t, _) = SafeTask::start(SafeJob::Confirm { shown: hash(2) });
    assert_eq!(
        failure(t.step(TaskEvent::Hashed(hash(3)))),
        "safe-tx: detail hash drifted; refusing to sign"
    );
}

#[test]
fn a_queued_transaction_is_executed_with_a_local_key() {
    let (mut t, _) = SafeTask::start(SafeJob::Execute { key: hash(9) });
    assert!(matches!(
        t.step(TaskEvent::Provider(true)),
        TaskAction::BuildExecutor(k) if k == hash(9)
    ));
    assert!(matches!(t.step(TaskEvent::Built(Ok(()))), TaskAction::Assemble));
    assert!(matches!(t.step(TaskEvent::Assembled(Ok(()))), TaskAction::Send));
    match t.step(TaskEvent::Sent(Ok(hash(0xab)))) {
        TaskAction::Done(s) => assert_eq!(s, format!("Executed · 0x{}", "ab".repeat(32))),
        other => panic!("{other:?}"),
    }
    let (mut t, _) = SafeTask::start(SafeJob::Execute { key: hash(9) });
    t.step(TaskEvent::Provider(true));
    assert_eq!(failure(t.step(TaskEvent::Built(err("bad key")))), "bad key");
}

#[test]
fn a_rejection_is_an_empty_call_of_the_safe() {
    let (mut t, _) = SafeTask::start(SafeJob::Reject { safe: addr(0x5A), nonce: 4 });
    let tx = t.tx.as_ref().expect("built");
    assert_eq!(tx.to, addr(0x5A));
    assert_eq!(tx.nonce, 4);
    assert_eq!(tx.value, Amount::zero());
    assert!(tx.data.is_empty());
    t.step(TaskEvent::Hashed(hash(6)));
    t.step(TaskEvent::Verified(Ok(())));
    t.step(TaskEvent::Built(Ok(())));
    assert!(matches!(t.step(TaskEvent::Signed(Ok(()))), TaskAction::PostProposal("Kao:reject")));
    assert!(matches!(
        t.step(TaskEvent::Posted(Ok(()))),
        TaskAction::Done(s) if s == "Rejection proposed"
    ));
}

#[test]
fn a_call_as_a_safe_is_signed_by_every_owner() {
    let (mut x, first) = SafeExec::start(2);
    assert_eq!(first, ExecAction::ReadNonce);
    assert_eq!(x.step(ExecEvent::Nonce(3)), ExecAction::HashAt(3));
    assert_eq!(x.step(ExecEvent::Hashed(hash(8))), ExecAction::Verify(hash(8)));
    assert_eq!(
        x.step(ExecEvent::Verified),
        ExecAction::SignOwner { owner: 0, hash: hash(8) }
    );
    assert_eq!(x.step(ExecEvent::Signed), ExecAction::SignOwner { owner: 1, hash: hash(8) });
    assert_eq!(x.step(ExecEvent::Signed), ExecAction::Assemble);
    assert_eq!(x.step(ExecEvent::Assembled), ExecAction::Send);
    assert_eq!(x.step(ExecEvent::Failed), ExecAction::Failed);
    assert_eq!(x.stage, ExecStage::Over);
    assert_eq!(x.step(ExecEvent::Sent(hash(1))), ExecAction::Nothing);
}

#[test]
fn a_pinned_call_as_a_safe_keeps_its_nonce() {
    let (mut x, first) = SafeExec::start_at(1, 4);
    assert_eq!(first, ExecAction::HashAt(4));
    assert_eq!(x.step(ExecEvent::Nonce(5)), ExecAction::Nothing);
    assert_eq!(x.step(ExecEvent::Hashed(hash(8))), ExecAction::Verify(hash(8)));
    assert_eq!(
        x.step(ExecEvent::Verified),
        ExecAction::SignOwner { owner: 0, hash: hash(8) }
    );
}

// ── getting ready ───────────────────────────────────────────────────────────

fn crew_failure(a: CrewAction) -> String {
    match a {
        CrewAction::Failed(e) => e,
        other => panic!("{other:?}"),
    }
}

#[test]
fn an_account_takes_its_lent_signer() {
    let (mut c, first) = Crew::gather(CrewKind::PlaceAccount);
    assert!(matches!(first, CrewAction::FindProvider));
    assert!(!c.holds_signer());
    assert!(matches!(c.step(CrewEvent::Provider(true)), CrewAction::TakeSigner));
    assert!(matches!(c.step(CrewEvent::Signer(Ok(()))), CrewAction::Proceed));
    assert!(c.holds_signer());
    let (_, first) = Crew::gather(CrewKind::CancelAccount);
    assert!(matches!(first, CrewAction::TakeSigner));
    let (mut c, _) = Crew::gather(CrewKind::SendAccount);
    assert_eq!(crew_failure(c.step(CrewEvent::Provider(false))), "no execution RPCs configured");
    let (mut c, _) = Crew::gather(CrewKind::NameAccount);
    assert_eq!(crew_failure(c.step(CrewEvent::Signer(err("unplugged")))), "unplugged");
    assert!(!c.holds_signer());
}

#[test]
fn a_safe_gathers_all_owners_and_its_payer() {
    let kind = CrewKind::PlaceSafe { owners: 2, executor: Executor::Local(hash(4)) };
    let (mut c, _) = Crew::gather(kind);
    assert!(matches!(c.step(CrewEvent::Provider(true)), CrewAction::BuildOwner(0)));
    assert!(matches!(c.step(CrewEvent::Signer(Ok(()))), CrewAction::BuildOwner(1)));
    assert!(matches!(c.step(CrewEvent::Signer(Ok(()))), CrewAction::BuildPayer(k) if k == hash(4)));
    assert_eq!(crew_failure(c.step(CrewEvent::Signer(err("bad")))), "derive executor: bad");

    let (mut c, _) = Crew::gather(kind);
    assert_eq!(crew_failure(c.step(CrewEvent::Provider(false))), "no execution RPC configured");

    let (_, a) = Crew::gather(CrewKind::CancelSafe { owners: 0 });
    assert_eq!(crew_failure(a), "no signable owners for this Safe");

    let name = CrewKind::NameSafe { owners: 1, executor: Executor::FirstOwner };
    let (mut c, _) = Crew::gather(name);
    assert_eq!(
        crew_failure(c.step(CrewEvent::Provider(false))),
        "no Ethereum mainnet RPC configured"
    );
    let (mut c, _) = Crew::gather(name);
    c.step(CrewEvent::Provider(true));
    assert!(matches!(c.step(CrewEvent::Signer(Ok(()))), CrewAction::Proceed));
    assert!(!c.holds_signer());
}

// ── names ───────────────────────────────────────────────────────────────────

fn plan() -> RegisterPlan {
    RegisterPlan {
        namespace: Namespace::Ens,
        label: "alice".to_string(),
        owner: addr(1),
        duration_secs: 31_536_000,
        secret: hash(3),
    }
}

#[test]
fn a_commitment_is_reported_once_mined() {
    let (mut w, first) = NameWrite::start(NameSign::Commit(plan()), NameWriter::Account);
    assert!(matches!(first, NameAction::Gather(CrewKind::NameAccount)));
    assert!(matches!(w.step(NameEvent::Crew(Ok(()))), NameAction::Submit));
    assert!(matches!(w.step(NameEvent::Sent(Ok(hash(1)))), NameAction::FindProvider));
    assert!(matches!(
        w.step(NameEvent::Provider(true)),
        NameAction::AwaitReceipt { hash: h, polls: 60 } if h == hash(1)
    ));
    match w.step(NameEvent::Mined(Ok(()))) {
        NameAction::Committed { plan: p, hash: h } => {
            assert_eq!(p.secret, hash(3));
            assert_eq!(h, hash(1));
        }
        other => panic!("{other:?}"),
    }
}

#[test]
fn a_safe_works_out_the_call_first() {
    let sign = NameSign::RegisterXns { namespace: "xns".to_string(), label: "bob".to_string() };
    let writer = NameWriter::Safe { owners: 1, executor: Executor::FirstOwner };
    let (mut w, first) = NameWrite::start(sign, writer);
    assert!(matches!(first, NameAction::BuildCall));
    assert!(matches!(w.step(NameEvent::Call(Ok(()))), NameAction::Gather(_)));
    assert!(matches!(w.step(NameEvent::Crew(Ok(()))), NameAction::CallAsSafe));
    w.step(NameEvent::Sent(Ok(hash(2))));
    w.step(NameEvent::Provider(true));
    assert!(matches!(
        w.step(NameEvent::Mined(Ok(()))),
        NameAction::Written { name, .. } if name == "bob.xns"
    ));
}

#[test]
fn a_name_write_says_why_it_stops() {
    let start = || NameWrite::start(NameSign::Register(plan()), NameWriter::Account).0;
    let failed = |a: NameAction| match a {
        NameAction::Failed(e) => e,
        other => panic!("{other:?}"),
    };
    assert_eq!(failed(start().step(NameEvent::Crew(err("no signer")))), "no signer");
    let mut w = start();
    w.step(NameEvent::Crew(Ok(())));
    assert_eq!(failed(w.step(NameEvent::Sent(err("refused")))), "refused");
    let mut w = start();
    w.step(NameEvent::Crew(Ok(())));
    w.step(NameEvent::Sent(Ok(hash(1))));
    assert_eq!(
        failed(w.step(NameEvent::Provider(false))),
        "no Ethereum mainnet RPC configured"
    );
    let mut w = start();
    w.step(NameEvent::Crew(Ok(())));
    w.step(NameEvent::Sent(Ok(hash(1))));
    w.step(NameEvent::Provider(true));
    assert_eq!(failed(w.step(NameEvent::Mined(err("reverted")))), "reverted");
    assert!(matches!(w.step(NameEvent::Mined(Ok(()))), NameAction::Nothing));
}
