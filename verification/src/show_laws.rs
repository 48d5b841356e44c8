//! What is written and shown, in figures and in words.

use vstd::arithmetic::power::{lemma_pow0, pow};
use vstd::prelude::*;

use crate::activity::{
    called, counterparty, relative_text, row_text, token_symbol, IndexedTx, TokenTransfer,
};
use crate::account_dropdown::{account_active, chain_name, safe_active};
use crate::amounts::{
    amount_of_text, fraction_part, lemma_dec, lemma_first_dot_is, max_sendable, whole_part,
    without_commas, Holding,
};
use crate::apps::{open_count, order_sub};
use crate::contacts::{contact_position, lemma_contact_position, ContactView};
use crate::cow_flow::{
    mentions_allowance, PlaceAction, PlaceEvent, PlaceFailure, PlaceStage, Placement,
};
use crate::function_panel::{
    arg_view, call_title, panel_of, type_text, value_text, warning_text, ArgDisplay, DecodeResult,
    DecodedArg, DecodedCall, Panel, ResolutionState, SolType, Warning,
};
use crate::home::{
    badge_text, custom_name, network_name, pending_shown, symbol_text, usd_text, CustomNetwork,
    SafeTxState,
};
use crate::identity::{AccountDescriptor, SafeDescriptor};
use crate::lists::lemma_filter_contains;
use crate::names::{ends_in, known_name, name_shaped, service_label, service_of, NameService};
use crate::networks::{
    chain_written, endpoint_valid, hash_of_hex, seeded, text_opt, valid, writes, Draft, Settings,
};
use crate::orders::{OrderStatus, TrackedOrder};
use crate::safe_tx::{point_from, signable_version};
use crate::sanitize::{all_safe, is_safe, sanitized, stripped};
use crate::screen::ScreenModel;
use crate::screen_listen::{account_names, local_names, with_safe_names};
use crate::text::{all_digits, dec, dec_value, is_digit, is_white, trimmed, zero_padded};
use crate::types::{pow10, short_address_of, Address, Amount, Chain, NetworkId};

verus! {

// ── chains ──────────────────────────────────────────────────────────────────

/// The chains have the numbers and the names that they have everywhere.
pub proof fn law_chains_have_their_numbers_and_names()
    ensures
        Chain::Mainnet.id() == 1,
        Chain::Optimism.id() == 10,
        Chain::Base.id() == 8453,
        Chain::Mainnet.short_name() == "Mainnet"@,
        Chain::Optimism.short_name() == "Optimism"@,
        Chain::Base.short_name() == "Base"@,
        Chain::Mainnet.long_name() == "Ethereum Mainnet"@,
        Chain::Optimism.long_name() == "OP Mainnet"@,
        Chain::Base.long_name() == "Base"@,
        chain_name(1) == "Ethereum Mainnet"@,
        chain_name(10) == "OP Mainnet"@,
        chain_name(8453) == "Base"@,
        forall|id: u64|
            id != 1 && id != 10 && id != 8453 ==> #[trigger] Chain::of_id(id) is None && chain_name(
                id,
            ) == "?"@,
        forall|id: u64| #[trigger] NetworkId::Custom(id).id() == id,
{
}

/// An address is the number of its twenty bytes.
pub proof fn law_addresses_are_their_numbers(a: Address, b: Address)
    ensures
        a@ == a.head * 0x1_0000_0000_0000_0000_0000_0000_0000_0000 + a.tail,
        a@ == b@ ==> a == b,
{
}

/// An amount is the number of its two halves.
pub proof fn law_amounts_are_their_numbers(a: Amount, b: Amount)
    ensures
        a@ == a.hi * 0x1_0000_0000_0000_0000_0000_0000_0000_0000 + a.lo,
        a@ == b@ ==> a == b,
{
}

// ── amounts ─────────────────────────────────────────────────────────────────

/// A power of ten is one.
pub proof fn law_powers_of_ten(d: nat)
    ensures
        pow10(d) == pow(10, d),
    decreases d,
{
    reveal(pow);
    if d > 0 {
        law_powers_of_ten((d - 1) as nat);
    } else {
        lemma_pow0(10);
    }
}

proof fn lemma_untrimmed(s: Seq<char>)
    requires
        s.len() > 0,
        !is_white(s[0]),
        !is_white(s.last()),
    ensures
        trimmed(s) == s,
{
}

/// A whole number that is typed is that many whole units: as many base units as the
/// token's decimals make of it.
pub proof fn law_whole_amounts_are_scaled(n: nat, d: nat)
    requires
        n * pow(10, d)
            < 0x1_0000_0000_0000_0000_0000_0000_0000_0000_0000_0000_0000_0000_0000_0000_0000_0000,
    ensures
        amount_of_text(dec(n), d) is Some,
        amount_of_text(dec(n), d)->0 == n * pow(10, d),
{
    let s = dec(n);
    lemma_dec(n);
    law_powers_of_ten(d);
    assert(is_digit(s[0]) && is_digit(s.last()));
    lemma_untrimmed(s);
    assert forall|j: int| 0 <= j < s.len() implies s[j] != '.' by {
        assert(is_digit(s[j]));
    }
    lemma_first_dot_is(s, s.len() as int);
    assert(whole_part(s) =~= s);
    assert(fraction_part(s) =~= Seq::<char>::empty());
    assert(whole_part(s) + fraction_part(s) =~= s);
}

/// A fraction that is typed counts in the base units of its last place.
pub proof fn law_fractions_are_scaled(w: Seq<char>, f: Seq<char>, d: nat)
    requires
        w.len() > 0,
        f.len() > 0,
        all_digits(w),
        all_digits(f),
        f.len() <= d,
        dec_value(w + f) * pow(10, (d - f.len()) as nat)
            < 0x1_0000_0000_0000_0000_0000_0000_0000_0000_0000_0000_0000_0000_0000_0000_0000_0000,
    ensures
        amount_of_text(w + seq!['.'] + f, d) is Some,
        amount_of_text(w + seq!['.'] + f, d)->0 == dec_value(w + f) * pow(
            10,
            (d - f.len()) as nat,
        ),
{
    let s = w + seq!['.'] + f;
    law_powers_of_ten((d - f.len()) as nat);
    assert(s[0] == w[0] && is_digit(w[0]));
    assert(s.last() == f.last() && is_digit(f[f.len() - 1]));
    lemma_untrimmed(s);
    assert(s[w.len() as int] == '.');
    assert forall|j: int| 0 <= j < w.len() implies s[j] != '.' by {
        assert(s[j] == w[j] && is_digit(w[j]));
    }
    lemma_first_dot_is(s, w.len() as int);
    assert(whole_part(s) =~= w);
    assert(fraction_part(s) =~= f);
}

/// What is not a number, and what has more places than the token, is no amount.
pub proof fn law_other_texts_are_no_amounts(s: Seq<char>, d: nat, i: int)
    ensures
        trimmed(s).len() == 0 ==> amount_of_text(s, d) is None,
        fraction_part(trimmed(s)).len() > d ==> amount_of_text(s, d) is None,
        0 <= i < whole_part(trimmed(s)).len() && !is_digit(whole_part(trimmed(s))[i])
            ==> amount_of_text(s, d) is None,
        0 <= i < fraction_part(trimmed(s)).len() && !is_digit(fraction_part(trimmed(s))[i])
            ==> amount_of_text(s, d) is None,
{
}

/// The most that can be sent of a token is its balance; of the native coin, the balance
/// less the gas, where it covers that.
pub proof fn law_the_most_leaves_the_gas(h: Holding, gas: Amount)
    ensures
        h.contract is Some ==> max_sendable(h, Some(gas)) == h.balance_raw@,
        max_sendable(h, None) == h.balance_raw@,
        h.contract is None && h.balance_raw@ > gas@ ==> max_sendable(h, Some(gas)) + gas@
            == h.balance_raw@,
        h.contract is None && h.balance_raw@ <= gas@ ==> max_sendable(h, Some(gas))
            == h.balance_raw@,
{
}

/// Commas, and nothing else, are taken out of a shown balance.
pub proof fn law_only_commas_are_taken_out(s: Seq<char>, c: char)
    ensures
        without_commas(s).contains(c) <==> s.contains(c) && c != ',',
{
    lemma_filter_contains(s, |c: char| c != ',', c);
}

/// Dollars are written with their cents.
pub proof fn law_dollars_are_written_with_cents(dollars: nat, cents: nat)
    requires
        dollars < 1000,
        cents < 100,
    ensures
        usd_text((dollars * 100 + cents) as int) == dec(dollars) + seq!['.'] + zero_padded(
            dec(cents),
            2,
        ),
        dollars > 0 ==> usd_text(-((dollars * 100 + cents) as int)) == seq!['-'] + (dec(dollars)
            + seq!['.'] + zero_padded(dec(cents), 2)),
{
    let n = dollars * 100 + cents;
    assert(n / 100 == dollars && n % 100 == cents);
}

// ── text ────────────────────────────────────────────────────────────────────

/// A text that is safe to show and short enough is shown as it is; a longer one is cut
/// and marked.
pub proof fn law_safe_text_is_shown_as_it_is(s: Seq<char>, max: nat)
    requires
        all_safe(s),
    ensures
        stripped(s) == s,
        s.len() <= max ==> sanitized(s, max) == s,
        s.len() > max ==> sanitized(s, max) == s.take(max as int).push('…'),
    decreases s.len(),
{
    lemma_all_kept(s);
}

proof fn lemma_all_kept(s: Seq<char>)
    requires
        all_safe(s),
    ensures
        stripped(s) == s,
    decreases s.len(),
{
    reveal(Seq::filter);
    if s.len() > 0 {
        let rest = s.drop_last();
        assert forall|i: int| 0 <= i < rest.len() implies is_safe(#[trigger] rest[i]) by {
            assert(rest[i] == s[i]);
        }
        lemma_all_kept(rest);
        assert(is_safe(s[s.len() - 1]));
        assert(rest.push(s.last()) =~= s);
    }
}

/// Names end as their service has it; what does not is no name, and neither is what has
/// white space in it or a point at an end.
pub proof fn law_names_end_as_their_service(s: Seq<char>)
    ensures
        service_of(s) == Some(NameService::Ens) <==> s.len() > 4 && ends_in(s, ".eth"@),
        service_of(s) == Some(NameService::Gns) <==> s.len() > 5 && ends_in(s, ".gwei"@),
        service_of(s) == Some(NameService::Wns) <==> s.len() > 4 && ends_in(s, ".wei"@),
        service_of(s) == Some(NameService::Xns) <==> s.len() > 4 && ends_in(s, ".xns"@),
        service_of(s) == Some(NameService::Gns) ==> service_label(s) == "GNS"@,
        service_of(s) == Some(NameService::Wns) ==> service_label(s) == "WNS"@,
        service_of(s) == Some(NameService::Xns) ==> service_label(s) == "XNS"@,
        service_of(s) == Some(NameService::Ens) ==> service_label(s) == "ENS"@,
        known_name(s) ==> s.contains('.') && s[0] != '.' && s.last() != '.',
        known_name(s) <==> name_shaped(s) && service_of(s) is Some,
        forall|i: int| 0 <= i < s.len() && is_white(#[trigger] s[i]) ==> !known_name(s),
{
    reveal_strlit(".eth");
    reveal_strlit(".gwei");
    reveal_strlit(".wei");
    reveal_strlit(".xns");
    let n = s.len() as int;
    if ends_in(s, ".eth"@) {
        assert(s.subrange(n - 4, n)[3] == 'h' && s.subrange(n - 4, n)[1] == 'e');
        assert(s[n - 1] == 'h');
    }
    if ends_in(s, ".gwei"@) {
        assert(s.subrange(n - 5, n)[4] == 'i' && s.subrange(n - 5, n)[1] == 'g');
        assert(s[n - 1] == 'i' && s[n - 4] == 'g');
    }
    if ends_in(s, ".wei"@) {
        assert(s.subrange(n - 4, n)[3] == 'i' && s.subrange(n - 4, n)[0] == '.');
        assert(s[n - 1] == 'i' && s[n - 4] == '.');
    }
    if ends_in(s, ".xns"@) {
        assert(s.subrange(n - 4, n)[3] == 's');
        assert(s[n - 1] == 's');
    }
}

/// Owners can sign for a Safe of version 1.3 or later of the first generation, and for no
/// other.
pub proof fn law_versions_that_can_be_signed_for(minor: nat, patch: Seq<char>)
    requires
        patch.len() > 0,
        is_digit(patch[0]),
    ensures
        signable_version(seq!['1', '.'] + dec(minor) + seq!['.'] + patch) <==> minor >= 3,
        forall|s: Seq<char>| #[trigger] signable_version(s) ==> s[0] == '1' && s[1] == '.',
{
    let m = dec(minor);
    let s = seq!['1', '.'] + m + seq!['.'] + patch;
    lemma_dec(minor);
    let k = 2 + m.len() as int;
    assert(s[0] == '1' && s[1] == '.' && s[k] == '.' && s[k + 1] == patch[0]);
    assert forall|j: int| 2 <= j < k implies s[j] != '.' by {
        assert(s[j] == m[j - 2] && is_digit(m[j - 2]));
    }
    lemma_point(s, 2, k);
    assert(s.subrange(2, k) =~= m);
}

proof fn lemma_point(s: Seq<char>, from: int, k: int)
    requires
        0 <= from <= k < s.len(),
        s[k] == '.',
        forall|j: int| from <= j < k ==> s[j] != '.',
    ensures
        point_from(s, from) == k,
    decreases k - from,
{
    if from < k {
        lemma_point(s, from + 1, k);
    }
}

// ── rows ────────────────────────────────────────────────────────────────────

/// How long ago something was, in the largest unit that fits.
pub proof fn law_times_are_told_in_the_largest_unit(now: u64, at: u64, n: nat)
    requires
        0 < at <= now,
        n > 0,
    ensures
        now - at < 60 ==> relative_text(now, at) == "just now"@,
        n < 60 && n * 60 <= now - at < (n + 1) * 60 ==> relative_text(now, at) == dec(n)
            + " min ago"@,
        2 <= n < 24 && n * 3600 <= now - at < (n + 1) * 3600 ==> relative_text(now, at) == dec(n)
            + " hr"@ + "s"@ + " ago"@,
        3600 <= now - at < 7200 ==> relative_text(now, at) == dec(1) + " hr"@ + ""@ + " ago"@,
        86400 <= now - at < 172800 ==> relative_text(now, at) == "Yesterday"@,
        2 <= n && n * 86400 <= now - at < (n + 1) * 86400 ==> relative_text(now, at) == dec(n)
            + " days ago"@,
{
    let diff = now - at;
    if n * 60 <= diff < (n + 1) * 60 {
        assert(diff / 60 == n);
    }
    if n * 3600 <= diff < (n + 1) * 3600 {
        assert(diff / 3600 == n);
    }
    if n * 86400 <= diff < (n + 1) * 86400 {
        assert(diff / 86400 == n);
    }
}

/// The other side of a transaction is its sender where it came in, its recipient where it
/// went out, and the owner where it went nowhere else; it is called by its contact's name
/// where it is one.
pub proof fn law_rows_name_the_other_side(
    tx: IndexedTx,
    owner: Address,
    book: Seq<ContactView>,
    to: Address,
    k: int,
    a: Address,
)
    ensures
        tx.direction is In ==> counterparty(tx, owner) == tx.from && row_text(tx, owner, book)
            == "From "@ + called(tx.from, book),
        tx.direction is Out && tx.to == Some(to) ==> counterparty(tx, owner) == to && row_text(
            tx,
            owner,
            book,
        ) == "To "@ + called(to, book),
        tx.direction is Out && tx.to is None ==> row_text(tx, owner, book) == "To "@
            + "contract creation"@,
        tx.direction is SelfTransfer ==> row_text(tx, owner, book) == "Self "@ + called(
            owner,
            book,
        ),
        0 <= k < book.len() && book[k].address == a && (forall|i: int|
            0 <= i < k ==> (#[trigger] book[i]).address != a) ==> called(a, book) == book[k].name,
        (forall|i: int| 0 <= i < book.len() ==> (#[trigger] book[i]).address != a) ==> called(
            a,
            book,
        ) == short_address_of(a),
{
    lemma_contact_position(book, a);
    if 0 <= k < book.len() && book[k].address == a && (forall|i: int|
        0 <= i < k ==> (#[trigger] book[i]).address != a) {
        assert(contact_position(book, a) <= k);
        if contact_position(book, a) < k {
            assert(book[contact_position(book, a)].address != a);
        }
    }
}

/// A token without a symbol is shown as tokens.
pub proof fn law_tokens_have_a_symbol(t: TokenTransfer)
    ensures
        t.symbol@.len() > 0 ==> token_symbol(t) == t.symbol@,
        t.symbol@.len() == 0 ==> token_symbol(t) == "tokens"@,
{
}

/// A balance is shown with its network, unless that is Mainnet; a network of the user's
/// own by the name that the user gave it, else by its number.
pub proof fn law_holdings_name_their_network(
    symbol: Seq<char>,
    networks: Seq<CustomNetwork>,
    c: Chain,
    id: u64,
    k: int,
)
    ensures
        symbol_text(symbol, NetworkId::Builtin(Chain::Mainnet), networks) == symbol,
        c != Chain::Mainnet ==> symbol_text(symbol, NetworkId::Builtin(c), networks) == symbol
            + " ("@ + c.short_name() + ")"@,
        network_name(NetworkId::Builtin(c), networks) == c.short_name(),
        (forall|i: int| 0 <= i < networks.len() ==> (#[trigger] networks[i]).chain_id != id)
            ==> network_name(NetworkId::Custom(id), networks) == "chain "@ + dec(id as nat),
        0 <= k < networks.len() && networks[k].chain_id == id && (forall|i: int|
            0 <= i < k ==> (#[trigger] networks[i]).chain_id != id) ==> network_name(
            NetworkId::Custom(id),
            networks,
        ) == sanitized(networks[k].name@, 64),
{
    if forall|i: int| 0 <= i < networks.len() ==> (#[trigger] networks[i]).chain_id != id {
        lemma_unnamed(networks, id);
    }
    if 0 <= k < networks.len() && networks[k].chain_id == id && (forall|i: int|
        0 <= i < k ==> (#[trigger] networks[i]).chain_id != id) {
        lemma_named(networks, id, k);
    }
}

proof fn lemma_unnamed(networks: Seq<CustomNetwork>, id: u64)
    requires
        forall|i: int| 0 <= i < networks.len() ==> (#[trigger] networks[i]).chain_id != id,
    ensures
        custom_name(networks, id) is None,
    decreases networks.len(),
{
    if networks.len() > 0 {
        let rest = networks.drop_first();
        assert(networks[0].chain_id != id);
        assert forall|i: int| 0 <= i < rest.len() implies (#[trigger] rest[i]).chain_id != id by {
            assert(rest[i] == networks[i + 1]);
        }
        lemma_unnamed(rest, id);
    }
}

proof fn lemma_named(networks: Seq<CustomNetwork>, id: u64, k: int)
    requires
        0 <= k < networks.len(),
        networks[k].chain_id == id,
        forall|i: int| 0 <= i < k ==> (#[trigger] networks[i]).chain_id != id,
    ensures
        custom_name(networks, id) == Some(networks[k].name@),
    decreases networks.len(),
{
    if k > 0 {
        let rest = networks.drop_first();
        assert(networks[0].chain_id != id);
        assert forall|i: int| 0 <= i < k - 1 implies (#[trigger] rest[i]).chain_id != id by {
            assert(rest[i] == networks[i + 1]);
        }
        assert(rest[k - 1] == networks[k]);
        lemma_named(rest, id, k - 1);
    }
}

/// A queued transaction tells how far it is: its signatures of those it needs, whether it
/// can be executed, and how it ended.
pub proof fn law_queued_transactions_tell_their_state(have: u32, required: u32)
    ensures
        badge_text(SafeTxState::AwaitingConfirmations { have, required }) == dec(have as nat)
            + "/"@ + dec(required as nat) + " signatures"@,
        badge_text(SafeTxState::AwaitingExecution { is_next: true }) == "Ready to execute"@,
        badge_text(SafeTxState::AwaitingExecution { is_next: false }) == "Queued"@,
        badge_text(SafeTxState::Replaced) == "Replaced"@,
        badge_text(SafeTxState::Executed { success: true }) == "Executed"@,
        badge_text(SafeTxState::Executed { success: false }) == "Failed"@,
        forall|n: nat, l: bool, f: bool| n > 0 ==> #[trigger] pending_shown(n, l, f) is Rows,
        forall|f: bool| #[trigger] pending_shown(0, true, f) is Loading,
        pending_shown(0, false, true) is Failed,
        pending_shown(0, false, false) is Hidden,
{
}

/// An order tells what it got once it is filled, and before that what it gets at least.
pub proof fn law_orders_tell_what_they_get(o: TrackedOrder, buys: Seq<char>, got: Seq<char>)
    ensures
        o.status == OrderStatus::Fulfilled && o.executed is Some ==> order_sub(o, buys, got)
            == "received "@ + got + " "@ + o.buy_symbol@,
        o.status != OrderStatus::Fulfilled && o.is_ethflow ==> order_sub(o, buys, got) == "min "@
            + buys + " "@ + o.buy_symbol@ + " · "@ + "ETH order"@,
        o.status != OrderStatus::Fulfilled && !o.is_ethflow ==> order_sub(o, buys, got) == "min "@
            + buys + " "@ + o.buy_symbol@ + " · "@ + "limit-protected"@,
{
}

/// An order counts as open until it is filled, cancelled or lapsed.
pub proof fn law_open_orders_are_counted(s: Seq<TrackedOrder>, o: TrackedOrder)
    ensures
        open_count(Seq::empty()) == 0,
        o.status == OrderStatus::Open || o.status == OrderStatus::PresignaturePending
            ==> open_count(s.push(o)) == open_count(s) + 1,
        o.status == OrderStatus::Fulfilled || o.status == OrderStatus::Cancelled || o.status
            == OrderStatus::Expired ==> open_count(s.push(o)) == open_count(s),
{
    assert(s.push(o).drop_last() =~= s);
}

/// The row that is marked in the picker is that of the identity on screen.
pub proof fn law_the_identity_on_screen_is_marked(i: usize, active: usize, linked: usize, k: usize)
    ensures
        account_active(i, active, None) <==> i == active,
        !account_active(i, active, Some(k)),
        !safe_active(i, linked, None),
        linked > 0 ==> (safe_active(i, linked, Some(k)) <==> i == k),
        linked == 0 ==> !safe_active(i, linked, Some(k)),
{
}

// ── networks ────────────────────────────────────────────────────────────────

/// The networks form needs both endpoints of Mainnet; another chain's may be left blank.
pub proof fn law_mainnet_needs_its_endpoints(d: Draft, s: Seq<char>)
    ensures
        trimmed(d.execution.mainnet@).len() == 0 ==> !valid(d),
        trimmed(d.consensus.mainnet@).len() == 0 ==> !valid(d),
        trimmed(d.checkpoint_override@).len() > 0 && hash_of_hex(
            trimmed(d.checkpoint_override@),
        ) is None ==> !valid(d),
        trimmed(s).len() == 0 ==> endpoint_valid(s, false),
{
    if trimmed(d.execution.mainnet@).len() == 0 {
        lemma_blank(trimmed(d.execution.mainnet@));
    }
    if trimmed(d.consensus.mainnet@).len() == 0 {
        lemma_blank(trimmed(d.consensus.mainnet@));
    }
}

proof fn lemma_blank(s: Seq<char>)
    requires
        s.len() == 0,
    ensures
        trimmed(s).len() == 0,
{
}

/// What the networks form holds is what is written, chain by chain, without the white
/// space around it; what is blank is not written.
pub proof fn law_the_networks_form_is_written(w: Settings, d: Draft)
    requires
        writes(w, d),
    ensures
        trimmed(d.execution.mainnet@).len() > 0 ==> text_opt(w.execution.mainnet) == Some(
            trimmed(d.execution.mainnet@),
        ),
        trimmed(d.consensus.mainnet@).len() > 0 ==> text_opt(w.consensus.mainnet) == Some(
            trimmed(d.consensus.mainnet@),
        ),
        trimmed(d.execution.optimism@).len() > 0 ==> text_opt(w.execution.optimism) == Some(
            trimmed(d.execution.optimism@),
        ),
        trimmed(d.consensus.optimism@).len() > 0 ==> text_opt(w.consensus.optimism) == Some(
            trimmed(d.consensus.optimism@),
        ),
        trimmed(d.execution.base@).len() > 0 ==> text_opt(w.execution.base) == Some(
            trimmed(d.execution.base@),
        ),
        trimmed(d.consensus.base@).len() > 0 ==> text_opt(w.consensus.base) == Some(
            trimmed(d.consensus.base@),
        ),
        trimmed(d.execution.optimism@).len() == 0 ==> w.execution.optimism is None,
        trimmed(d.consensus.optimism@).len() == 0 ==> w.consensus.optimism is None,
        trimmed(d.execution.base@).len() == 0 ==> w.execution.base is None,
        trimmed(d.consensus.base@).len() == 0 ==> w.consensus.base is None,
        trimmed(d.checkpoint_override@).len() == 0 ==> w.checkpoint is None,
{
    assert(chain_written(w, d, Chain::Mainnet));
    assert(chain_written(w, d, Chain::Optimism));
    assert(chain_written(w, d, Chain::Base));
}

/// The form opens with the first endpoint that is set, else with the usual one.
pub proof fn law_the_networks_form_opens_with_what_is_set(
    configured: Seq<String>,
    default: Seq<char>,
)
    ensures
        configured.len() > 0 && configured[0]@.len() > 0 ==> seeded(configured, default)
            == configured[0]@,
        configured.len() == 0 ==> seeded(configured, default) == default,
{
}

// ── calls ───────────────────────────────────────────────────────────────────

/// Types are written as contracts write them.
pub proof fn law_types_are_written_as_contracts_do(n: u16, k: u64, t: SolType)
    ensures
        type_text(SolType::Address) == "address"@,
        type_text(SolType::Bool) == "bool"@,
        type_text(SolType::Str) == "string"@,
        type_text(SolType::Bytes) == "bytes"@,
        type_text(SolType::FixedBytes(n)) == "bytes"@ + dec(n as nat),
        type_text(SolType::Uint(n)) == "uint"@ + dec(n as nat),
        type_text(SolType::Int(n)) == "int"@ + dec(n as nat),
        type_text(SolType::Array(Box::new(t))) == type_text(t) + "[]"@,
        type_text(SolType::FixedArray(Box::new(t), k)) == type_text(t) + "["@ + dec(k as nat)
            + "]"@,
        type_text(SolType::Function) == "function"@,
{
}

/// Values are written out: an address in short with its name before it, a number as it
/// is, a text in quotes.
pub proof fn law_values_are_written_out(addr: Address, name: String, s: String, a: DecodedArg)
    ensures
        value_text(ArgDisplay::Address { addr, ens: None }) == short_address_of(addr),
        value_text(ArgDisplay::Address { addr, ens: Some(name) }) == name@ + "  "@
            + short_address_of(addr),
        value_text(ArgDisplay::Number(s)) == s@,
        value_text(ArgDisplay::Bool(true)) == "true"@,
        value_text(ArgDisplay::Bool(false)) == "false"@,
        value_text(ArgDisplay::Str(s)) == "\""@ + sanitized(s@, 48) + "\""@,
        value_text(ArgDisplay::Raw(s)) == sanitized(s@, 48),
        arg_view(a).value == value_text(a.display),
        arg_view(a).inline <==> value_text(a.display).len() <= 20,
        a.name is None ==> arg_view(a).label == "· "@ + type_text(a.ty),
        a.name matches Some(n) ==> (n@.len() > 0 ==> arg_view(a).label == "· "@ + n@ + ": "@
            + type_text(a.ty)),
{
}

/// Warnings name what they warn of.
pub proof fn law_warnings_name_what_they_warn_of(spender: Address)
    ensures
        warning_text(Warning::InfiniteApproval { spender }) == "⚠ infinite approval to "@
            + short_address_of(spender),
        warning_text(Warning::UnverifiedBytecode)
            == "⚠ bytecode read fell back to unverified RPC"@,
{
}

/// A call is titled by its function where that is known.
pub proof fn law_calls_are_titled_by_their_function(d: DecodedCall)
    ensures
        d.function_name matches Some(n) ==> call_title(d) == n@ + "(…)"@,
{
}

/// What is explained of a call: nothing where there is nothing, the descriptor's intent
/// where one matched, verified only where everything is, else the guess.
pub proof fn law_calls_are_explained(r: DecodeResult, loading: bool)
    ensures
        panel_of(Some(&r), true) is Loading,
        panel_of(None, true) is Loading,
        panel_of(None, false) is Nothing,
        r is Empty ==> panel_of(Some(&r), false) is Nothing,
        r matches DecodeResult::Heuristic(d) ==> (panel_of(Some(&r), false) is Nothing <==> d.state
            == ResolutionState::Empty) && (panel_of(Some(&r), false) is Heuristic <==> d.state
            != ResolutionState::Empty),
        r matches DecodeResult::ClearSigned { proxied, all_verified, .. } ==> panel_of(
            Some(&r),
            false,
        ) == (Panel::ClearSigned { partial: false, proxied, all_verified }),
        r matches DecodeResult::Fallback { all_verified, heuristic, .. } ==> panel_of(
            Some(&r),
            false,
        ) == (Panel::ClearSigned {
            partial: true,
            proxied: heuristic.proxied,
            all_verified: all_verified && heuristic.all_verified,
        }),
{
}

// ── what the dashboard listens to ───────────────────────────────────────────

/// The dashboard asks after orders while one of them is not over.
pub proof fn law_orders_are_asked_after_while_open(m: ScreenModel, k: int)
    requires
        0 <= k < m.orders.len(),
        m.orders[k].status == OrderStatus::Open || m.orders[k].status
            == OrderStatus::PresignaturePending,
    ensures
        m.follows_orders(),
{
    crate::list_laws::law_undecided_orders_are_asked_after(m.orders, m.orders[k]);
    assert(m.orders.contains(m.orders[k]));
}

/// A copied text, a message in passing and a moving dialog are redrawn frame by frame.
pub proof fn law_what_moves_is_redrawn(m: ScreenModel, toast: bool, now: u64)
    ensures
        m.clipboard.clear is Some ==> m.moves(toast, now),
        toast ==> m.moves(toast, now),
        m.chrome.open && m.chrome.closing ==> m.moves(toast, now),
        m.chrome.open && now >= m.chrome.start && now - m.chrome.start < 220 ==> m.moves(
            toast,
            now,
        ),
        !m.chrome.open && m.clipboard.clear is None && !toast ==> !m.moves(toast, now),
{
}

/// An address of the wallet's own is known by its account's name, or by its place in the
/// list; a Safe's name goes before it, and a contact's before both.
pub proof fn law_own_addresses_are_named(
    accounts: Seq<AccountDescriptor>,
    safes: Seq<SafeDescriptor>,
    book: Seq<ContactView>,
    i: int,
    a: Address,
    n: Seq<char>,
)
    requires
        accounts.len() == i + 1,
        i >= 0,
        accounts[i].owner() == Some(a),
        accounts[i].shown_name(i as nat) == n,
    ensures
        local_names(accounts, Seq::empty(), None).dom().contains(a),
        local_names(accounts, Seq::empty(), None)[a] == n,
        local_names(accounts, Seq::empty(), Some(Seq::empty())) == local_names(
            accounts,
            Seq::empty(),
            None,
        ),
        safes.len() > 0 ==> local_names(accounts, safes, None).dom().contains(
            safes.last().address,
        ) && local_names(accounts, safes, None)[safes.last().address] == safes.last().shown_name(
            (safes.len() - 1) as nat,
        ),
        book.len() > 0 ==> local_names(accounts, safes, Some(book)).dom().contains(
            book.last().address,
        ) && local_names(accounts, safes, Some(book))[book.last().address] == book.last().name,
        safes.len() == 1 && safes[0].address != a ==> local_names(
            accounts,
            safes,
            None,
        ).dom().contains(a) && local_names(accounts, safes, None)[a] == n,
        forall|x: Address|
            x != a && !account_names(accounts.drop_last()).dom().contains(x)
                ==> !#[trigger] account_names(accounts).dom().contains(x),
{
    reveal_with_fuel(with_safe_names, 2);
    if safes.len() == 1 {
        assert(safes.drop_last() =~= Seq::<SafeDescriptor>::empty());
    }
}

// ── posting again ───────────────────────────────────────────────────────────

/// An order that the order book refuses for its allowance is posted again where it comes
/// with an approval, five times at most; any other refusal is told.
pub proof fn law_refused_orders_are_posted_again(p: Placement, why: String)
    requires
        p.stage == PlaceStage::Post,
    ensures
        p.approves && p.retries < 5 && mentions_allowance(why@) ==> p.next(
            PlaceEvent::Posted(Err(why)),
        ).1 == PlaceAction::PostAgain,
        !p.approves || p.retries >= 5 || !mentions_allowance(why@) ==> p.next(
            PlaceEvent::Posted(Err(why)),
        ).1 == PlaceAction::Failed(PlaceFailure::Told(why)),
{
}

} // verus!
