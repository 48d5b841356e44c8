//! What each step of the Privacy Pools app leaves alone, and what it tells the user.

use vstd::prelude::*;

use crate::pool_app::{
    lookup_done, lookup_taken, proof_target, request_of, stepped, with_depositing, with_identity,
    with_pools, with_proving, with_quote, with_state, with_submitted, with_syncing, with_target,
    Message, OutcomeView, PoolInfo, PoolModel, PoolState, PoolTxKind, QuoteResponse, Relayer,
    RequestView, Screen, Target,
};
use crate::types::{Address, Chain};

verus! {

/// What is told to the app changes what it is about, and nothing else.
pub proof fn law_news_leave_the_rest_alone(
    s: PoolModel,
    chain: Chain,
    pools: Vec<PoolInfo>,
    relayers: Seq<Relayer>,
    pool: Address,
    state: PoolState,
    on: bool,
    now: u64,
)
    ensures
        ({
            let t = with_pools(s, chain, pools, relayers);
            t == (PoolModel {
                pool_cache: t.pool_cache,
                pools: t.pools,
                relayers: t.relayers,
                relayer_sel: t.relayer_sel,
                ..s
            })
        }),
        ({
            let t = with_state(s, pool, state);
            t == (PoolModel { states: t.states, ..s })
        }),
        ({
            let t = with_syncing(s, on, now);
            t == (PoolModel { syncing: t.syncing, syncing_started: t.syncing_started, ..s })
        }),
        ({
            let t = with_depositing(s, pool, on, now);
            t == (PoolModel { depositing: t.depositing, deposit_started: t.deposit_started, ..s })
        }),
        ({
            let t = with_identity(s, true);
            t == (PoolModel { has_identity: true, screen: t.screen, ..s })
        }),
        ({
            let t = with_identity(s, false);
            t == (PoolModel {
                has_identity: false,
                screen: Screen::Setup,
                depositing: t.depositing,
                deposit_started: None,
                approvals: t.approvals,
                ..s
            })
        }),
{
}

/// A relayer that is no longer offered gives way to the last one that is.
pub proof fn law_the_last_relayer_stands_in(
    s: PoolModel,
    pools: Vec<PoolInfo>,
    relayers: Seq<Relayer>,
)
    requires
        0 < relayers.len() <= s.relayer_sel,
    ensures
        with_pools(s, s.chain, pools, relayers).relayer_sel == relayers.len() - 1,
{
}

/// What becomes of a withdrawal changes its own fields, and nothing else.
pub proof fn law_withdrawals_leave_the_rest_alone(
    s: PoolModel,
    quote: QuoteResponse,
    label: Seq<char>,
    now: u64,
    kind: PoolTxKind,
    tx: Option<Seq<char>>,
)
    ensures
        with_quote(s, quote) == (PoolModel { quote: Some(quote), screen: Screen::Review, ..s }),
        with_proving(s, label, now) == (PoolModel {
            proving_started: Some(now),
            proving_label: label,
            screen: Screen::Proving,
            ..s
        }),
        with_submitted(s, kind, tx) == (PoolModel {
            quote: None,
            proving_started: None,
            error: None,
            submitted: Some((kind, tx)),
            screen: Screen::Success,
            ..s
        }),
{
}

/// A lookup changes the recipient and its quote, and nothing else.
pub proof fn law_lookups_leave_the_rest_alone(
    s: PoolModel,
    raw: Seq<char>,
    seq: u64,
    name: Seq<char>,
    result: Result<Option<Address>, Seq<char>>,
)
    ensures
        ({
            let t = lookup_done(s, seq, name, result);
            t == (PoolModel { resolution: t.resolution, quote: t.quote, ..s })
        }),
        ({
            let t = lookup_taken(s);
            t == (PoolModel { dispatched: t.dispatched, ..s })
        }),
        ({
            let t = with_target(s, raw);
            t == (PoolModel {
                withdraw_target: raw,
                seq: t.seq,
                quote: None,
                resolution: t.resolution,
                ..s
            })
        }),
{
}

/// What the user enters or opens changes its own field, and nothing else but the error,
/// which is gone.
pub proof fn law_entries_leave_the_rest_alone(
    s: PoolModel,
    v: String,
    pool: usize,
    account: usize,
    i: usize,
)
    ensures
        stepped(s, Message::RestoreInput(v)).state == (PoolModel {
            restore_input: v@,
            error: None,
            ..s
        }),
        stepped(s, Message::OpenRestore).state == (PoolModel {
            screen: Screen::Restore,
            error: None,
            ..s
        }),
        stepped(s, Message::ToggleReveal).state == (PoolModel {
            revealed: !s.revealed,
            error: None,
            ..s
        }),
        stepped(s, Message::CopyPhrase).state == (PoolModel { did_copy: true, error: None, ..s }),
        stepped(s, Message::AspUrlInput(v)).state == (PoolModel { asp_url: v@, error: None, ..s }),
        stepped(s, Message::Tick).state == (PoolModel { error: None, ..s }),
        stepped(s, Message::OpenDeposit(pool)).state == (PoolModel {
            deposit_pool: pool,
            deposit_amount: Seq::empty(),
            screen: Screen::Deposit,
            error: None,
            ..s
        }),
        stepped(s, Message::DepositAmount(v)).state == (PoolModel {
            deposit_amount: v@,
            error: None,
            ..s
        }),
        stepped(s, Message::DepositSetAmount(v)).state == (PoolModel {
            deposit_amount: v@,
            error: None,
            ..s
        }),
        stepped(s, Message::WithdrawAmount(v)).state == (PoolModel {
            withdraw_amount: v@,
            error: None,
            ..s
        }),
        stepped(s, Message::SelectRelayer(i)).state == (PoolModel {
            relayer_sel: i,
            error: None,
            ..s
        }),
        ({
            let t = stepped(s, Message::OpenWithdraw(pool, account)).state;
            t == (PoolModel {
                withdraw_pool: pool,
                withdraw_account: account,
                withdraw_amount: Seq::empty(),
                withdraw_target: Seq::empty(),
                resolution: Target::Empty,
                quote: None,
                seq: t.seq,
                screen: Screen::Withdraw,
                error: None,
                ..s
            })
        }),
{
    assert(crate::text::trimmed(Seq::<char>::empty()).len() == 0);
}

/// What is asked of the coordinator leaves the form as it is.
pub proof fn law_wishes_leave_the_form_alone(s: PoolModel, pool: usize, account: usize)
    ensures
        stepped(s, Message::CreateIdentity).state == (PoolModel { error: None, ..s }),
        stepped(s, Message::CreateIdentity).out == Some(OutcomeView::CreateIdentity),
        stepped(s, Message::OpenBackup).state == (PoolModel { error: None, ..s }),
        stepped(s, Message::OpenBackup).out == Some(OutcomeView::RevealBackup),
        stepped(s, Message::ExitApp).state == (PoolModel { error: None, ..s }),
        stepped(s, Message::ExitApp).out == Some(OutcomeView::Close),
        stepped(s, Message::Ragequit(pool, account)).state == (PoolModel { error: None, ..s }),
        stepped(s, Message::CopyTxHash).state == (PoolModel { error: None, ..s }),
        stepped(s, Message::WithdrawGetQuote).out is Some ==> stepped(
            s,
            Message::WithdrawGetQuote,
        ).state == (PoolModel { error: None, ..s }),
        stepped(s, Message::WithdrawConfirm).out is Some ==> stepped(
            s,
            Message::WithdrawConfirm,
        ).state == (PoolModel { error: None, ..s }),
        stepped(s, Message::DepositReview).out is Some ==> stepped(s, Message::DepositReview).state
            == (PoolModel { error: None, ..s }),
{
}

/// A form that is not complete is refused with what is wrong with it.
pub proof fn law_the_form_says_what_is_wrong(
    s: PoolModel,
    info: PoolInfo,
    name: Seq<char>,
    msg: Seq<char>,
    a: Address,
    b: Address,
)
    requires
        s.withdraw_pool < s.pools.len(),
        info == s.pools[s.withdraw_pool as int],
    ensures
        s.resolution is Empty || s.resolution is Invalid ==> request_of(s) == Some(
            Err::<RequestView, Seq<char>>("Enter a valid recipient address or name"@),
        ),
        s.resolution == (Target::Resolving { name }) ==> request_of(s) == Some(
            Err::<RequestView, Seq<char>>("Still resolving that name — try again in a moment"@),
        ),
        s.resolution == (Target::EnsDivergence { name, pinned: a, fresh: b }) ==> request_of(s)
            == Some(Err::<RequestView, Seq<char>>("That name now resolves to a different address — confirm it first"@)),
        s.resolution == (Target::NotFound { name }) ==> request_of(s) == Some(
            Err::<RequestView, Seq<char>>("“"@ + name + "” has no address record"@),
        ),
        s.resolution == (Target::Error { name, msg }) ==> request_of(s) == Some(
            Err::<RequestView, Seq<char>>("Name lookup for “"@ + name + "” failed"@),
        ),
        s.resolution == Target::Address(a) && a@ == 0 ==> request_of(s) == Some(
            Err::<RequestView, Seq<char>>("Recipient can't be the zero address"@),
        ),
        proof_target(s.resolution) is Ok && crate::amounts::amount_of_text(
            s.withdraw_amount,
            info.decimals as nat,
        ) is None ==> request_of(s) == Some(Err::<RequestView, Seq<char>>("Enter a valid amount"@)),
        proof_target(s.resolution) is Ok && crate::amounts::amount_of_text(
            s.withdraw_amount,
            info.decimals as nat,
        ) == Some(0nat) ==> request_of(s) == Some(Err::<RequestView, Seq<char>>("Enter a valid amount"@)),
        proof_target(s.resolution) is Ok && s.relayers.len() <= s.relayer_sel
            && crate::amounts::amount_of_text(s.withdraw_amount, info.decimals as nat) is Some
            && crate::amounts::amount_of_text(s.withdraw_amount, info.decimals as nat)->0 > 0
            ==> request_of(s) == Some(Err::<RequestView, Seq<char>>("no relayer available for this chain"@)),
        request_of(s) matches Some(Err(e)) ==> {
            &&& stepped(s, Message::WithdrawGetQuote).out is None
            &&& stepped(s, Message::WithdrawGetQuote).state == (PoolModel { error: Some(e), ..s })
        },
{
}

/// A deposit without an amount is refused, and the user told.
pub proof fn law_a_deposit_needs_an_amount(s: PoolModel, info: PoolInfo)
    requires
        s.deposit_pool < s.pools.len(),
        info == s.pools[s.deposit_pool as int],
        crate::amounts::amount_of_text(s.deposit_amount, info.decimals as nat) is None
            || crate::amounts::amount_of_text(s.deposit_amount, info.decimals as nat) == Some(0nat),
    ensures
        stepped(s, Message::DepositReview).out is None,
        stepped(s, Message::DepositReview).state == (PoolModel {
            error: Some("Enter a valid amount"@),
            ..s
        }),
{
}

} // verus!
