//! What holds of the Privacy Pools app as a whole.

use vstd::prelude::*;

use crate::amounts::amount_of_text;
use crate::keys::{Event, Key};
use crate::pool_app::{
    clocks_agree, fresh_pool, lookup_done, lookup_due, lookup_taken, proof_target, recipient_of,
    request_of, selected_balance, share_of, stepped, with_depositing, with_identity, with_pools,
    with_proving, with_quote, with_state, with_submitted, with_syncing, with_target, Message,
    OutcomeView, PoolAccount, PoolInfo, PoolModel, PoolState, PoolTxKind, QuoteResponse, Relayer,
    RequestView, Screen, Target,
};
use crate::pool_view::{
    after_fee, hint_of, is_pool_token, pool_token_balance, quoted_fee, reviewed_amount, rows_of,
};
use crate::portfolio::LiveToken;
use crate::text::trimmed;
use crate::types::{
    address_hex, checksum_of, law_written_addresses_read_back, Address, Chain, Hash32, NetworkId,
};

verus! {

/// A quote binds the recipient it was made for: a message that changes the
/// recipient drops the quote.
pub open spec fn quote_bound(s: PoolModel, t: PoolModel) -> bool {
    t.quote is Some ==> recipient_of(t.resolution) == recipient_of(s.resolution)
}

/// A quote binds the recipient it was made for: whatever message changes the
/// recipient drops the quote.
pub proof fn law_quote_binds_recipient(s: PoolModel, m: Message)
    ensures
        quote_bound(s, stepped(s, m).state),
{
}

/// A lookup that changes the recipient drops the quote, too.
pub proof fn law_lookup_drops_quote(
    s: PoolModel,
    seq: u64,
    name: Seq<char>,
    result: Result<Option<Address>, Seq<char>>,
)
    ensures
        quote_bound(s, lookup_done(s, seq, name, result)),
{
}

/// What a request to prove a withdrawal stands for.
pub open spec fn sound_request(s: PoolModel, req: RequestView) -> bool {
    &&& recipient_of(s.resolution) == Some(req.target)
    &&& req.target@ != 0
    &&& req.amount > 0
    &&& s.withdraw_pool < s.pools.len()
    &&& req.info == s.pools[s.withdraw_pool as int]
    &&& req.account == s.withdraw_account
    &&& req.relayer is Some
}

/// Nothing is quoted or proved but what the form shows: the recipient that was
/// made out, not the zero address, and an amount above zero. A proof goes with
/// the quote that was reviewed.
pub proof fn law_only_sound_requests(s: PoolModel, m: Message, req: RequestView)
    ensures
        stepped(s, m).out == Some(OutcomeView::Quote(req)) ==> sound_request(s, req),
        forall|quote|
            stepped(s, m).out == Some(OutcomeView::Submit { req, quote }) ==> s.quote == Some(quote)
                && sound_request(s, req),
{
    match m {
        Message::WithdrawGetQuote => {
            assert(request_of(s) == request_of(PoolModel { error: None, ..s }));
        },
        Message::WithdrawConfirm => {
            assert(request_of(s) == request_of(PoolModel { error: None, ..s }));
        },
        _ => {
            assert(!(stepped(s, m).out matches Some(OutcomeView::Quote(_))));
            assert(!(stepped(s, m).out matches Some(OutcomeView::Submit { .. })));
        },
    }
}

/// As long as the target is not made out, nothing is quoted or proved.
pub proof fn law_unresolved_target_blocks(s: PoolModel)
    requires
        proof_target(s.resolution) is Err,
    ensures
        stepped(s, Message::WithdrawGetQuote).out is None,
        stepped(s, Message::WithdrawConfirm).out is None,
        s.withdraw_pool < s.pools.len() ==> stepped(s, Message::WithdrawGetQuote).state.error
            == Some(proof_target(s.resolution)->Err_0),
{
}

/// A lookup is handed out once: having been taken, it is not due again.
pub proof fn law_lookup_handed_out_once(s: PoolModel)
    ensures
        lookup_due(lookup_taken(s)) is None,
{
}

/// A result for an earlier target changes nothing.
pub proof fn law_stale_lookup_dropped(
    s: PoolModel,
    raw: Seq<char>,
    name: Seq<char>,
    result: Result<Option<Address>, Seq<char>>,
)
    ensures
        lookup_done(with_target(s, raw), s.seq, name, result) == with_target(s, raw),
{
}

/// A picked contact is usable at once. Where its name turns out to point
/// elsewhere, nothing is usable until that address is accepted, and then it is
/// that address. Where the name cannot be checked, the contact's address stays.
pub proof fn law_picked_contact(
    s: PoolModel,
    pinned: Address,
    name: Seq<char>,
    fresh: Address,
    msg: Seq<char>,
)
    requires
        s.resolution == (Target::AddressVerifying { pinned, name }),
    ensures
        recipient_of(s.resolution) == Some(pinned),
        recipient_of(lookup_done(s, s.seq, name, Ok(Some(pinned))).resolution) == Some(pinned),
        recipient_of(lookup_done(s, s.seq, name, Ok(None)).resolution) == Some(pinned),
        recipient_of(lookup_done(s, s.seq, name, Err(msg)).resolution) == Some(pinned),
        fresh != pinned ==> ({
            let t = lookup_done(s, s.seq, name, Ok(Some(fresh)));
            &&& recipient_of(t.resolution) is None
            &&& proof_target(t.resolution) is Err
            &&& recipient_of(
                stepped(t, Message::AcceptTargetDivergence).state.resolution,
            ) == Some(fresh)
        }),
{
}

/// What a sync delivers changes no screen, so it disturbs nothing the user is
/// looking at.
pub proof fn law_sync_keeps_screen(
    s: PoolModel,
    syncing: bool,
    now: u64,
    chain: Chain,
    pools: Vec<PoolInfo>,
    relayers: Seq<Relayer>,
    pool: Address,
    state: PoolState,
)
    ensures
        with_syncing(s, syncing, now).screen == s.screen,
        with_pools(s, chain, pools, relayers).screen == s.screen,
        with_state(s, pool, state).screen == s.screen,
{
}

/// A chain that has been discovered is shown again without asking for a sync.
pub proof fn law_known_chain_needs_no_sync(
    s: PoolModel,
    chain: Chain,
    pools: Vec<PoolInfo>,
    relayers: Seq<Relayer>,
)
    ensures
        ({
            let t = with_pools(s, chain, pools, relayers);
            let u = stepped(t, Message::SelectChain(chain));
            u.out is None && u.state.pools == pools@
        }),
{
}

/// Refreshing forgets the active chain's pools, so that coming back to it
/// discovers them anew.
pub proof fn law_refresh_forgets(s: PoolModel, other: Chain)
    requires
        other != s.chain,
    ensures
        stepped(s, Message::Refresh).out == Some(OutcomeView::Sync(s.chain)),
        ({
            let t = stepped(stepped(s, Message::Refresh).state, Message::SelectChain(other)).state;
            stepped(t, Message::SelectChain(s.chain)).out == Some(OutcomeView::Sync(s.chain))
        }),
{
    let r = stepped(s, Message::Refresh).state;
    let t = stepped(r, Message::SelectChain(other)).state;
    assert(!r.pool_cache.dom().contains(s.chain));
    assert(t.pool_cache == r.pool_cache);
    assert(t.chain == other);
}

/// A deposit under way runs the shared clock; a second one does not restart it,
/// and the clock stops when the last one is done.
pub proof fn law_deposits_share_a_clock(s: PoolModel, a: Address, b: Address, t0: u64, t1: u64)
    requires
        clocks_agree(s),
        s.depositing == Map::<Address, ()>::empty(),
        a != b,
    ensures
        ({
            let one = with_depositing(s, a, true, t0);
            let two = with_depositing(one, b, true, t1);
            let less = with_depositing(two, a, false, t1);
            let none = with_depositing(less, b, false, t1);
            &&& one.deposit_started == Some(t0)
            &&& two.deposit_started == Some(t0)
            &&& less.deposit_started == Some(t0)
            &&& none.deposit_started is None
            &&& none.depositing == Map::<Address, ()>::empty()
        }),
{
    let one = with_depositing(s, a, true, t0);
    let two = with_depositing(one, b, true, t1);
    let less = with_depositing(two, a, false, t1);
    let none = with_depositing(less, b, false, t1);
    assert(less.depositing.dom().contains(b));
    assert(none.depositing =~= Map::<Address, ()>::empty());
}

/// Leaving the backup forgets the phrase: nothing is left to copy.
pub proof fn law_backup_done_forgets_phrase(s: PoolModel)
    ensures
        ({
            let t = stepped(s, Message::BackupDone).state;
            t.backup_phrase is None && stepped(t, Message::CopyPhrase).out is None
        }),
{
}

/// Escape on the confirmation does what its button does.
pub proof fn law_escape_leaves_confirmation(s: PoolModel, shift: bool)
    requires
        s.screen == Screen::Success,
    ensures
        stepped(
            s,
            Message::Key(crate::keys::Event::KeyPressed { key: crate::keys::Key::Escape, shift }),
        ) == stepped(s, Message::SubmittedDone),
{
}

// ── withdrawing ─────────────────────────────────────────────────────────────

/// The request is the one that the form describes: its pool and account, its recipient,
/// the amount that was typed, and the relayer that is selected.
pub open spec fn as_in_the_form(s: PoolModel, req: RequestView) -> bool {
    &&& s.withdraw_pool < s.pools.len()
    &&& req.info == s.pools[s.withdraw_pool as int]
    &&& req.account == s.withdraw_account
    &&& match s.resolution {
        Target::Address(a) => req.target == a,
        Target::Resolved { addr, .. } => req.target == addr,
        Target::AddressVerifying { pinned, .. } => req.target == pinned,
        _ => false,
    }
    &&& req.target@ > 0
    &&& amount_of_text(s.withdraw_amount, s.pools[s.withdraw_pool as int].decimals as nat) == Some(
        req.amount,
    )
    &&& req.amount > 0
    &&& s.relayer_sel < s.relayers.len()
    &&& req.relayer == Some(s.relayers[s.relayer_sel as int].url@)
}

/// The form is complete: its pool is there, its recipient is made out and not the zero
/// address, its amount is one above zero, and a relayer is selected.
pub open spec fn form_complete(s: PoolModel) -> bool {
    &&& s.withdraw_pool < s.pools.len()
    &&& match s.resolution {
        Target::Address(a) => a@ > 0,
        Target::Resolved { addr, .. } => addr@ > 0,
        Target::AddressVerifying { pinned, .. } => pinned@ > 0,
        _ => false,
    }
    &&& amount_of_text(
        s.withdraw_amount,
        s.pools[s.withdraw_pool as int].decimals as nat,
    ) matches Some(n) && n > 0
    &&& s.relayer_sel < s.relayers.len()
}

/// A quote is asked for where the form is complete, and only there; a withdrawal is
/// submitted where, besides, a quote was reviewed. Both are for what the form shows, and
/// neither changes it.
pub proof fn law_withdrawals_are_what_the_form_shows(s: PoolModel)
    ensures
        ({
            let t = stepped(s, Message::WithdrawGetQuote);
            &&& form_complete(s) ==> {
                &&& t.out matches Some(OutcomeView::Quote(req)) && as_in_the_form(s, req)
                &&& t.state == (PoolModel { error: None, ..s })
            }
            &&& !form_complete(s) ==> t.out is None
            &&& !form_complete(s) && s.withdraw_pool < s.pools.len() ==> t.state.error is Some
        }),
        ({
            let t = stepped(s, Message::WithdrawConfirm);
            &&& form_complete(s) && s.quote is Some ==> {
                &&& t.out matches Some(OutcomeView::Submit { req, quote }) && as_in_the_form(s, req)
                    && Some(quote) == s.quote
                &&& t.state == (PoolModel { error: None, ..s })
            }
            &&& !form_complete(s) || s.quote is None ==> t.out is None
        }),
{
    let t = PoolModel { error: None, ..s };
    assert(request_of(t) == request_of(s));
}

/// No other message asks for a quote or submits a withdrawal.
pub proof fn law_only_the_form_withdraws(s: PoolModel, m: Message)
    ensures
        stepped(s, m).out matches Some(OutcomeView::Quote(_)) ==> m is WithdrawGetQuote,
        stepped(s, m).out matches Some(OutcomeView::Submit { .. }) ==> m is WithdrawConfirm,
        stepped(s, m).out matches Some(OutcomeView::Deposit { .. }) ==> m is DepositReview,
        stepped(s, m).out matches Some(OutcomeView::Ragequit { .. }) ==> m is Ragequit,
        stepped(s, m).out matches Some(OutcomeView::RestoreIdentity(_)) ==> m is RestoreSubmit,
        stepped(s, m).out matches Some(OutcomeView::CreateIdentity) ==> m is CreateIdentity,
        stepped(s, m).out matches Some(OutcomeView::RevealBackup) ==> m is OpenBackup,
        stepped(s, m).out matches Some(OutcomeView::Close) ==> m is ExitApp,
{
}

/// The form takes in what is entered, each part for itself: the account that was opened,
/// the amount and the relayer. Opening an account empties the form.
pub proof fn law_the_form_takes_in_what_is_entered(
    s: PoolModel,
    pool: usize,
    account: usize,
    amount: String,
    i: usize,
)
    ensures
        ({
            let t = stepped(s, Message::OpenWithdraw(pool, account)).state;
            &&& t.withdraw_pool == pool
            &&& t.withdraw_account == account
            &&& t.withdraw_amount.len() == 0
            &&& t.withdraw_target.len() == 0
            &&& t.quote is None
            &&& t.screen == Screen::Withdraw
            &&& t.pools == s.pools
            &&& t.relayers == s.relayers
            &&& t.relayer_sel == s.relayer_sel
        }),
        stepped(s, Message::WithdrawAmount(amount)).state == (PoolModel {
            withdraw_amount: amount@,
            error: None,
            ..s
        }),
        stepped(s, Message::SelectRelayer(i)).state == (PoolModel {
            relayer_sel: i,
            error: None,
            ..s
        }),
        stepped(s, Message::WithdrawAmount(amount)).out is None,
        stepped(s, Message::SelectRelayer(i)).out is None,
        stepped(s, Message::OpenWithdraw(pool, account)).out is None,
{
}

/// The relayer that the user selects is the one that is asked, and the one that submits.
pub proof fn law_the_selected_relayer_withdraws(s: PoolModel, i: usize, quote: QuoteResponse)
    requires
        form_complete(s),
        i < s.relayers.len(),
    ensures
        ({
            let t = stepped(s, Message::SelectRelayer(i)).state;
            let asked = stepped(t, Message::WithdrawGetQuote);
            let sent = stepped(with_quote(t, quote), Message::WithdrawConfirm);
            &&& asked.out matches Some(OutcomeView::Quote(req)) && req.relayer == Some(
                s.relayers[i as int].url@,
            )
            &&& sent.out matches Some(OutcomeView::Submit { req, quote: q }) && req.relayer == Some(
                s.relayers[i as int].url@,
            ) && q == quote
        }),
{
    let t = stepped(s, Message::SelectRelayer(i)).state;
    assert(form_complete(t));
    law_withdrawals_are_what_the_form_shows(t);
    assert(form_complete(with_quote(t, quote)));
    law_withdrawals_are_what_the_form_shows(with_quote(t, quote));
}

/// Opening an account and picking a recipient leaves a form for that account and that
/// recipient.
pub proof fn law_a_picked_recipient_is_in_the_form(
    s: PoolModel,
    pool: usize,
    account: usize,
    to: Address,
)
    ensures
        ({
            let a = stepped(s, Message::OpenWithdraw(pool, account)).state;
            let b = stepped(a, Message::PickTarget { address: to, ens: None }).state;
            &&& b.resolution == Target::Address(to)
            &&& b.withdraw_pool == pool
            &&& b.withdraw_account == account
            &&& b.withdraw_amount.len() == 0
            &&& b.pools == s.pools
            &&& b.relayers == s.relayers
            &&& b.quote is None
        }),
{
}

/// From the form to the quote: what the user types and selects is what is asked for.
#[verifier::rlimit(60)]
pub proof fn law_a_withdrawal_from_form_to_quote(s: PoolModel, amount: String, i: usize)
    requires
        s.withdraw_pool < s.pools.len(),
        recipient_of(s.resolution) matches Some(to) && to@ > 0,
        i < s.relayers.len(),
        amount_of_text(
            amount@,
            s.pools[s.withdraw_pool as int].decimals as nat,
        ) matches Some(n) && n > 0,
    ensures
        ({
            let c = stepped(s, Message::WithdrawAmount(amount)).state;
            let d = stepped(c, Message::SelectRelayer(i)).state;
            stepped(d, Message::WithdrawGetQuote).out matches Some(OutcomeView::Quote(req)) && {
                &&& req.info == s.pools[s.withdraw_pool as int]
                &&& req.account == s.withdraw_account
                &&& Some(req.target) == recipient_of(s.resolution)
                &&& Some(req.amount) == amount_of_text(
                    amount@,
                    s.pools[s.withdraw_pool as int].decimals as nat,
                )
                &&& req.relayer == Some(s.relayers[i as int].url@)
            }
        }),
{
    let c = stepped(s, Message::WithdrawAmount(amount)).state;
    let d = stepped(c, Message::SelectRelayer(i)).state;
    assert(form_complete(d));
    law_withdrawals_are_what_the_form_shows(d);
}

// ── the recipient ───────────────────────────────────────────────────────────

/// Typing an address, with or without white space around it, makes that address the
/// recipient; typing the zero address or nothing makes none.
pub proof fn law_a_typed_address_is_the_recipient(s: PoolModel, a: Address, raw: String)
    requires
        trimmed(raw@) == address_hex(a),
    ensures
        ({
            let t = stepped(s, Message::WithdrawTarget(raw)).state;
            &&& a@ > 0 ==> t.resolution == Target::Address(a)
            &&& a@ == 0 ==> t.resolution == Target::Invalid
            &&& t.withdraw_target == raw@
            &&& t.quote is None
            &&& t.seq != s.seq
        }),
{
    law_written_addresses_read_back(a);
    crate::types::lemma_address_hex_len(a);
}

/// An empty target stands for nothing.
pub proof fn law_nothing_typed_is_nobody(s: PoolModel, raw: String)
    requires
        trimmed(raw@).len() == 0,
    ensures
        stepped(s, Message::WithdrawTarget(raw)).state.resolution == Target::Empty,
{
}

/// A name that is being looked up becomes its address, or nothing that can be used.
pub proof fn law_a_looked_up_name_is_its_address(
    s: PoolModel,
    name: Seq<char>,
    a: Address,
    why: Seq<char>,
)
    requires
        s.resolution == (Target::Resolving { name }),
    ensures
        lookup_done(s, s.seq, name, Ok(Some(a))).resolution == (Target::Resolved { name, addr: a }),
        lookup_done(s, s.seq, name, Ok(None)).resolution == (Target::NotFound { name }),
        lookup_done(s, s.seq, name, Err(why)).resolution == (Target::Error { name, msg: why }),
        recipient_of(s.resolution) is None,
        recipient_of(lookup_done(s, s.seq, name, Ok(Some(a))).resolution) == Some(a),
        recipient_of(lookup_done(s, s.seq, name, Ok(None)).resolution) is None,
        recipient_of(lookup_done(s, s.seq, name, Err(why)).resolution) is None,
        s.dispatched != Some(s.seq) ==> lookup_due(s) == Some(name),
        s.dispatched == Some(s.seq) ==> lookup_due(s) is None,
{
}

/// The lookup of another name changes nothing.
pub proof fn law_another_name_changes_nothing(
    s: PoolModel,
    name: Seq<char>,
    other: Seq<char>,
    result: Result<Option<Address>, Seq<char>>,
)
    requires
        s.resolution matches Target::Resolving { name: n } && n == name,
        other != name,
    ensures
        lookup_done(s, s.seq, other, result).resolution == s.resolution,
{
}

/// A picked contact is its address; with a pinned name, that name is looked up again.
pub proof fn law_a_picked_contact_is_its_address(s: PoolModel, address: Address, name: String)
    ensures
        ({
            let t = stepped(s, Message::PickTarget { address, ens: None }).state;
            &&& t.resolution == Target::Address(address)
            &&& t.withdraw_target == checksum_of(address@)
            &&& t.quote is None
            &&& lookup_due(t) is None
        }),
        ({
            let t = stepped(s, Message::PickTarget { address, ens: Some(name) }).state;
            &&& t.resolution == (Target::AddressVerifying { pinned: address, name: name@ })
            &&& t.quote is None
            &&& s.dispatched != Some(t.seq) ==> lookup_due(t) == Some(name@)
        }),
{
}

/// The line below the target says what it stands for.
pub proof fn law_the_hint_tells_what_the_target_is(t: Target, known: Option<Seq<char>>)
    ensures
        t is Empty <==> hint_of(t, known) is Nothing,
        t is Address || t is Resolved <==> hint_of(t, known) is Good,
        t is Resolving <==> hint_of(t, known) is Waiting,
        t is AddressVerifying <==> hint_of(t, known) is Checking,
        t is EnsDivergence <==> hint_of(t, known) is Diverged,
        t is Invalid || t is NotFound || t is Error <==> hint_of(t, known) is Bad,
{
}

// ── what a withdrawal comes to ──────────────────────────────────────────────

/// The relayer's fee is so many hundredths of a percent of the amount, rounded down, and
/// the rest arrives.
pub proof fn law_the_fee_comes_off(amount: nat, bps: nat)
    requires
        bps <= 10_000,
        amount * 10_000
            < 0x1_0000_0000_0000_0000_0000_0000_0000_0000_0000_0000_0000_0000_0000_0000_0000_0000,
    ensures
        after_fee(amount, bps) <= amount,
        10_000 * (amount - after_fee(amount, bps)) <= amount * bps,
        amount * bps < 10_000 * (amount - after_fee(amount, bps)) + 10_000,
        after_fee(amount, 0) == amount,
{
    assert(0 <= amount * bps <= amount * 10_000) by (nonlinear_arith)
        requires
            0 <= bps <= 10_000,
    ;
    assert(amount * 0 == 0);
}

/// The fee is the quote's, and none where there is no quote or it names none.
pub proof fn law_the_fee_is_the_quotes(s: PoolModel)
    ensures
        s.quote is None ==> quoted_fee(s) == 0,
        s.quote matches Some(q) ==> (q.fee_bps matches Some(n) ==> quoted_fee(s) == n),
        s.quote matches Some(q) ==> (q.fee_bps is None ==> quoted_fee(s) == 0),
        amount_of_text(
            s.withdraw_amount,
            s.pools[s.withdraw_pool as int].decimals as nat,
        ) matches Some(n) ==> reviewed_amount(s) == n,
{
}

/// A hundred percent are the whole balance, none are nothing, and any share is rounded
/// down.
pub proof fn law_shares_of_a_balance(balance: nat, pct: nat)
    requires
        balance * 100
            < 0x1_0000_0000_0000_0000_0000_0000_0000_0000_0000_0000_0000_0000_0000_0000_0000_0000,
        pct <= 100,
    ensures
        share_of(balance, 100) == balance,
        share_of(balance, 0) == 0,
        100 * share_of(balance, pct) <= balance * pct < 100 * share_of(balance, pct) + 100,
{
    assert(0 <= balance * pct <= balance * 100) by (nonlinear_arith)
        requires
            0 <= pct <= 100,
    ;
    assert(balance * 0 == 0);
}

/// The balance that a share is taken of is that of the account that was opened.
pub proof fn law_the_balance_is_the_opened_accounts(
    s: PoolModel,
    shown: String,
    pool: Address,
    account: PoolAccount,
)
    requires
        s.withdraw_pool < s.pools.len(),
        s.pools[s.withdraw_pool as int].pool == pool,
        s.states.dom().contains(pool),
        s.withdraw_account < s.states[pool].accounts@.len(),
        s.states[pool].accounts@[s.withdraw_account as int] == account,
    ensures
        selected_balance(s) == account.spendable,
        account.spendable is Some ==> stepped(
            s,
            Message::WithdrawPercent { shown },
        ).state.withdraw_amount == shown@,
        account.spendable is None ==> stepped(
            s,
            Message::WithdrawPercent { shown },
        ).state.withdraw_amount == s.withdraw_amount,
{
}

// ── depositing and leaving ──────────────────────────────────────────────────

/// A deposit is what the form shows: into the pool that was opened, of the amount that
/// was typed. Without an amount above zero nothing is deposited, and the user is told.
pub proof fn law_deposits_are_what_the_form_shows(s: PoolModel)
    requires
        s.deposit_pool < s.pools.len(),
    ensures
        ({
            let info = s.pools[s.deposit_pool as int];
            let typed = amount_of_text(s.deposit_amount, info.decimals as nat);
            let t = stepped(s, Message::DepositReview);
            &&& typed is Some && typed->0 > 0 ==> t.out == Some(
                OutcomeView::Deposit { info, amount: typed->0 },
            ) && t.state == (PoolModel { error: None, ..s })
            &&& typed is None || typed == Some(0nat) ==> t.out is None && t.state.error is Some
        }),
{
}

/// Opening a pool and typing an amount fills the deposit form.
pub proof fn law_the_deposit_form_takes_in_what_is_entered(
    s: PoolModel,
    pool: usize,
    amount: String,
)
    ensures
        ({
            let t = stepped(s, Message::OpenDeposit(pool)).state;
            &&& t.deposit_pool == pool
            &&& t.deposit_amount.len() == 0
            &&& t.screen == Screen::Deposit
            &&& t.pools == s.pools
        }),
        stepped(s, Message::DepositAmount(amount)).state == (PoolModel {
            deposit_amount: amount@,
            error: None,
            ..s
        }),
        stepped(s, Message::DepositSetAmount(amount)).state == (PoolModel {
            deposit_amount: amount@,
            error: None,
            ..s
        }),
{
}

/// Leaving a pool as its depositor concerns the pool and the account that were picked.
pub proof fn law_exits_concern_what_was_picked(s: PoolModel, pool: usize, account: usize)
    ensures
        pool < s.pools.len() ==> stepped(s, Message::Ragequit(pool, account)).out == Some(
            OutcomeView::Ragequit { info: s.pools[pool as int], account },
        ),
        pool >= s.pools.len() ==> stepped(s, Message::Ragequit(pool, account)).out is None,
{
}

/// What the depositor holds of a pool's token is the balance of the first row of that
/// chain and that token.
pub proof fn law_deposits_come_from_the_pools_token(
    rows: Seq<LiveToken>,
    info: PoolInfo,
    k: int,
)
    requires
        0 <= k < rows.len(),
        rows[k].chain == NetworkId::Builtin(info.chain),
        info.is_native ==> rows[k].contract is None,
        !info.is_native ==> rows[k].contract == Some(info.asset),
        forall|j: int|
            0 <= j < k ==> (#[trigger] rows[j]).chain.id() != info.chain.id() || (if info.is_native {
                rows[j].contract is Some
            } else {
                rows[j].contract != Some(info.asset)
            }),
    ensures
        pool_token_balance(rows, info) == Some(rows[k].balance_raw),
    decreases rows.len(),
{
    assert(is_pool_token(rows[k], info));
    if k > 0 {
        assert(!is_pool_token(rows[0], info));
        let rest = rows.drop_first();
        assert(rest[k - 1] == rows[k]);
        assert forall|j: int| 0 <= j < k - 1 implies (#[trigger] rest[j]).chain.id()
            != info.chain.id() || (if info.is_native {
            rest[j].contract is Some
        } else {
            rest[j].contract != Some(info.asset)
        }) by {
            assert(rest[j] == rows[j + 1]);
        }
        law_deposits_come_from_the_pools_token(rest, info, k - 1);
    }
}

/// A pool's card lists every account with something to spend, with its balance and its
/// approval, and none that has nothing; the rows are in the order of the accounts.
pub proof fn law_a_card_lists_what_can_be_spent(
    accounts: Seq<PoolAccount>,
    approvals: Option<Seq<Hash32>>,
    i: int,
)
    requires
        accounts.len() <= usize::MAX,
        0 <= i < accounts.len(),
    ensures
        accounts[i].spendable matches Some(balance) ==> exists|k: int|
            0 <= k < rows_of(accounts, approvals).len() && (#[trigger] rows_of(
                accounts,
                approvals,
            )[k]).index == i && rows_of(accounts, approvals)[k].balance == balance && match approvals {
                None => rows_of(accounts, approvals)[k].approved is None,
                Some(labels) => rows_of(accounts, approvals)[k].approved == Some(
                    labels.contains(accounts[i].label),
                ),
            },
    decreases accounts.len(),
{
    let before = rows_of(accounts.drop_last(), approvals);
    let rows = rows_of(accounts, approvals);
    if accounts[i].spendable is Some {
        if i == accounts.len() - 1 {
            assert(rows[rows.len() - 1].index == i);
        } else {
            law_a_card_lists_what_can_be_spent(accounts.drop_last(), approvals, i);
            let k = choose|k: int|
                0 <= k < before.len() && (#[trigger] before[k]).index == i && before[k].balance
                    == accounts[i].spendable->0 && match approvals {
                    None => before[k].approved is None,
                    Some(labels) => before[k].approved == Some(
                        labels.contains(accounts[i].label),
                    ),
                };
            assert(rows[k] == before[k]);
        }
    }
}

/// A card lists nothing but accounts with something to spend.
pub proof fn law_a_card_lists_only_what_can_be_spent(
    accounts: Seq<PoolAccount>,
    approvals: Option<Seq<Hash32>>,
    k: int,
)
    requires
        accounts.len() <= usize::MAX,
        0 <= k < rows_of(accounts, approvals).len(),
    ensures
        rows_of(accounts, approvals)[k].index < accounts.len(),
        accounts[rows_of(accounts, approvals)[k].index as int].spendable == Some(
            rows_of(accounts, approvals)[k].balance,
        ),
    decreases accounts.len(),
{
    let before = rows_of(accounts.drop_last(), approvals);
    if k < before.len() {
        law_a_card_lists_only_what_can_be_spent(accounts.drop_last(), approvals, k);
    }
}

// ── the rest of the pane ────────────────────────────────────────────────────

/// The copy buttons copy what they stand beside: the hash of the broadcast transaction,
/// the link to it, or the recovery phrase.
pub proof fn law_copies_are_what_is_shown(s: PoolModel, base: String)
    ensures
        s.submitted is None ==> stepped(s, Message::CopyTxHash).out is None && stepped(
            s,
            Message::CopyExplorer { base },
        ).out is None,
        s.submitted matches Some((_, Some(tx))) ==> stepped(s, Message::CopyTxHash).out == Some(
            OutcomeView::CopyText(tx),
        ) && stepped(s, Message::CopyExplorer { base }).out == Some(
            OutcomeView::CopyText(base@ + "/tx/"@ + tx),
        ),
        s.backup_phrase matches Some(p) ==> stepped(s, Message::CopyPhrase).out == Some(
            OutcomeView::CopyText(p),
        ),
        s.backup_phrase is None ==> stepped(s, Message::CopyPhrase).out is None,
        stepped(s, Message::CopyPhrase).state.did_copy,
{
}

/// A recovery phrase is restored only where it was found valid; it leaves the form.
pub proof fn law_only_valid_phrases_are_restored(s: PoolModel, why: String, typed: String)
    ensures
        stepped(s, Message::RestoreSubmit { checked: Ok(()) }).out matches Some(
            OutcomeView::RestoreIdentity(_),
        ),
        stepped(s, Message::RestoreSubmit { checked: Ok(()) }).state.restore_input.len() == 0,
        stepped(s, Message::RestoreSubmit { checked: Err(why) }).out is None,
        stepped(s, Message::RestoreSubmit { checked: Err(why) }).state.error == Some(
            "Invalid recovery phrase: "@ + why@,
        ),
        stepped(s, Message::RestoreSubmit { checked: Err(why) }).state.restore_input
            == s.restore_input,
        stepped(s, Message::RestoreInput(typed)).state.restore_input == typed@,
{
}

/// Another chain shows its own pools, from the cache or after a sync; the chain on screen
/// stays as it is.
pub proof fn law_chains_show_their_pools(s: PoolModel, c: Chain)
    ensures
        c == s.chain ==> stepped(s, Message::SelectChain(c)) == stepped(s, Message::Tick),
        c != s.chain ==> ({
            let t = stepped(s, Message::SelectChain(c));
            &&& t.state.chain == c
            &&& t.state.screen == Screen::Overview
            &&& s.pool_cache.dom().contains(c) ==> t.state.pools == s.pool_cache[c]@ && t.out
                is None
            &&& !s.pool_cache.dom().contains(c) ==> t.state.pools.len() == 0 && t.out == Some(
                OutcomeView::Sync(c),
            )
        }),
        stepped(s, Message::Tick).state == (PoolModel { error: None, ..s }),
{
}

/// Pools that were discovered are kept for their chain, and shown where it is on screen;
/// the relayers come with them, and a relayer stays selected.
pub proof fn law_discovered_pools_are_kept(
    s: PoolModel,
    chain: Chain,
    pools: Vec<PoolInfo>,
    relayers: Seq<Relayer>,
)
    requires
        relayers.len() <= usize::MAX,
    ensures
        ({
            let t = with_pools(s, chain, pools, relayers);
            &&& t.pool_cache == s.pool_cache.insert(chain, pools)
            &&& chain == s.chain ==> t.pools == pools@
            &&& chain != s.chain ==> t.pools == s.pools && t.relayers == s.relayers
            &&& chain == s.chain && relayers.len() > 0 ==> t.relayers == relayers && t.relayer_sel
                < relayers.len()
            &&& chain == s.chain && s.relayer_sel < relayers.len() ==> t.relayer_sel
                == s.relayer_sel
            &&& relayers.len() == 0 ==> t.relayers == s.relayers && t.relayer_sel == s.relayer_sel
        }),
{
}

/// A sync's clock starts with the sync and stops with it.
pub proof fn law_a_sync_is_timed(s: PoolModel, now: u64)
    ensures
        with_syncing(s, true, now).syncing,
        !with_syncing(s, false, now).syncing,
        with_syncing(s, false, now).syncing_started is None,
        s.syncing_started is None ==> with_syncing(s, true, now).syncing_started == Some(now),
        s.syncing_started is Some ==> with_syncing(s, true, now).syncing_started
            == s.syncing_started,
{
}

/// What is synced of a pool is kept for that pool alone.
pub proof fn law_synced_pools_are_kept(
    s: PoolModel,
    pool: Address,
    state: PoolState,
    other: Address,
)
    ensures
        with_state(s, pool, state).states[pool] == state,
        with_state(s, pool, state).states.dom().contains(pool),
        other != pool && s.states.dom().contains(other) ==> with_state(s, pool, state).states[other]
            == s.states[other],
{
}

/// With an identity the pane leaves its setup; without one it goes back to it and forgets
/// the approvals and the deposits under way.
pub proof fn law_the_identity_opens_the_pane(s: PoolModel)
    ensures
        with_identity(s, true).has_identity,
        s.screen == Screen::Setup || s.screen == Screen::Restore ==> with_identity(s, true).screen
            == Screen::Overview,
        s.screen != Screen::Setup && s.screen != Screen::Restore ==> with_identity(s, true).screen
            == s.screen,
        !with_identity(s, false).has_identity,
        with_identity(s, false).screen == Screen::Setup,
        with_identity(s, false).approvals == Map::<Address, Vec<Hash32>>::empty(),
        with_identity(s, false).depositing == Map::<Address, ()>::empty(),
        with_identity(s, false).deposit_started is None,
{
}

/// From the quote over the proof to the confirmation: each has its screen, the quote is
/// used up, and the confirmation shows the transaction.
pub proof fn law_withdrawals_go_through_their_screens(
    s: PoolModel,
    quote: QuoteResponse,
    label: Seq<char>,
    now: u64,
    kind: PoolTxKind,
    tx: Option<Seq<char>>,
)
    ensures
        with_quote(s, quote).quote == Some(quote),
        with_quote(s, quote).screen == Screen::Review,
        with_proving(s, label, now).screen == Screen::Proving,
        with_proving(s, label, now).proving_label == label,
        with_proving(s, label, now).proving_started == Some(now),
        with_submitted(s, kind, tx).screen == Screen::Success,
        with_submitted(s, kind, tx).submitted == Some((kind, tx)),
        with_submitted(s, kind, tx).quote is None,
        with_submitted(s, kind, tx).proving_started is None,
        ({
            let t = stepped(with_submitted(s, kind, tx), Message::SubmittedDone);
            &&& t.state.screen == Screen::Overview
            &&& t.state.submitted is None
            &&& t.out == Some(OutcomeView::Sync(s.chain))
        }),
{
}

/// Back, and Escape, lead one screen back, and nowhere from the screens that cannot be
/// left.
pub proof fn law_back_leads_one_screen_back(s: PoolModel, shift: bool)
    ensures
        s.screen == Screen::Deposit || s.screen == Screen::Withdraw || s.screen == Screen::Backup
            ==> stepped(s, Message::Back).state.screen == Screen::Overview,
        s.screen == Screen::Review ==> stepped(s, Message::Back).state.screen == Screen::Withdraw,
        s.screen == Screen::Setup || s.screen == Screen::Restore || s.screen == Screen::Overview
            || s.screen == Screen::Proving ==> stepped(s, Message::Back).state.screen == s.screen,
        s.screen == Screen::Success ==> stepped(s, Message::Back).state.screen == Screen::Overview,
        stepped(s, Message::Key(Event::KeyPressed { key: Key::Escape, shift })) == stepped(
            s,
            Message::Back,
        ),
        s.screen != Screen::Success ==> stepped(s, Message::Back).out is None,
{
}

/// The feed of approvals is asked once it is switched on, and its answers are forgotten
/// once it is switched off.
pub proof fn law_the_feed_can_be_switched(s: PoolModel, url: String)
    ensures
        stepped(s, Message::ToggleAsp(true)).state.asp_enabled,
        stepped(s, Message::ToggleAsp(true)).out == Some(OutcomeView::Sync(s.chain)),
        !stepped(s, Message::ToggleAsp(false)).state.asp_enabled,
        stepped(s, Message::ToggleAsp(false)).state.approvals == Map::<
            Address,
            Vec<Hash32>,
        >::empty(),
        stepped(s, Message::ToggleAsp(false)).out is None,
        stepped(s, Message::AspUrlInput(url)).state.asp_url == url@,
{
}

/// A new pane has no identity, no pools and nothing filled in; its feed is the usual
/// one, switched on.
pub proof fn law_a_new_pane_is_empty(relayers: Seq<Relayer>)
    ensures
        ({
            let s = fresh_pool(relayers);
            &&& s.screen == Screen::Setup
            &&& !s.has_identity
            &&& s.chain == Chain::Mainnet
            &&& s.pools.len() == 0
            &&& s.relayers == relayers
            &&& s.relayer_sel == 0
            &&& s.resolution == Target::Empty
            &&& s.quote is None
            &&& s.submitted is None
            &&& s.backup_phrase is None
            &&& s.asp_enabled
            &&& s.asp_url == "https://api.0xbow.io"@
        }),
{
}

} // verus!
