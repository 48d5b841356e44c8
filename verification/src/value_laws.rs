//! What texts, lists and tables are made of.

use vstd::prelude::*;

use crate::contacts::{contact_position, lemma_contact_position, without, ContactView};
use crate::contacts_settings::{form_errors, stepped, Field, Message, Mode, PaneModel};
use crate::contacts_view::hint_line;
use crate::cow_flow::{scheme, Placer};
use crate::crew::{Crew, CrewStage};
use crate::function_panel::{
    diagnostic_texts, hex_of, lines_of, rides_above, type_text, type_texts, DisplayEntry,
    DisplayItem, FormatDiagnostic, SolType, Warning,
};
use crate::home::{grouped, usd_text};
use crate::identity::IdentityModel;
use crate::kaomoji::{could_be_drawn, face};
use crate::keys::{Event, Key};
use crate::lists::lemma_filter_contains;
use crate::names::name_shaped;
use crate::orders::uid_bytes;
use crate::pool_app::{PoolInfo, PoolModel, Screen};
use crate::pool_view::{
    ellipsis, is_pool_token, pool_hears_keys, pool_moves, same_ignoring_case, stage_name,
};
use crate::portfolio::{
    kept_for, rows_listed, rows_off, rows_on, rows_unlisted, rows_unnamed, LiveToken,
    PortfolioModel, Slot,
};
use crate::ranking::lemma_ranked_contains;
use crate::sanitize::{is_safe, sanitized, stripped};
use crate::text::{
    ascii_lower, dec, digit_char, is_white, joined, lowered, occurs_in, trim_end_of, trim_start_of,
    trimmed, words_of, zero_padded,
};
use crate::types::{
    address_hex, all_hex, hex_char, hex_digit_value, short_address_of, Address, Chain, NetworkId,
};

verus! {

// ── texts ───────────────────────────────────────────────────────────────────

proof fn lemma_trim_start(s: Seq<char>)
    ensures
        exists|i: int|
            0 <= i <= s.len() && trim_start_of(s) == #[trigger] s.skip(i) && (forall|j: int|
                0 <= j < i ==> is_white(#[trigger] s[j])) && (i < s.len() ==> !is_white(s[i])),
    decreases s.len(),
{
    if s.len() > 0 && is_white(s[0]) {
        let rest = s.drop_first();
        lemma_trim_start(rest);
        let i = choose|i: int|
            0 <= i <= rest.len() && trim_start_of(rest) == #[trigger] rest.skip(i) && (forall|j: int|
                0 <= j < i ==> is_white(#[trigger] rest[j])) && (i < rest.len() ==> !is_white(
                rest[i],
            ));
        assert(s.skip(i + 1) =~= rest.skip(i));
        assert forall|j: int| 0 <= j < i + 1 implies is_white(#[trigger] s[j]) by {
            if j > 0 {
                assert(s[j] == rest[j - 1]);
            }
        }
        if i + 1 < s.len() {
            assert(s[i + 1] == rest[i]);
        }
    } else {
        assert(s.skip(0) =~= s);
    }
}

proof fn lemma_trim_end(s: Seq<char>)
    ensures
        exists|i: int|
            0 <= i <= s.len() && trim_end_of(s) == #[trigger] s.take(i) && (forall|j: int|
                i <= j < s.len() ==> is_white(#[trigger] s[j])) && (i > 0 ==> !is_white(s[i - 1])),
    decreases s.len(),
{
    if s.len() > 0 && is_white(s.last()) {
        let rest = s.drop_last();
        lemma_trim_end(rest);
        let i = choose|i: int|
            0 <= i <= rest.len() && trim_end_of(rest) == #[trigger] rest.take(i) && (forall|j: int|
                i <= j < rest.len() ==> is_white(#[trigger] rest[j])) && (i > 0 ==> !is_white(
                rest[i - 1],
            ));
        assert(s.take(i) =~= rest.take(i));
        assert forall|j: int| i <= j < s.len() implies is_white(#[trigger] s[j]) by {
            if j < rest.len() {
                assert(s[j] == rest[j]);
            }
        }
        if i > 0 {
            assert(s[i - 1] == rest[i - 1]);
        }
    } else {
        assert(s.take(s.len() as int) =~= s);
    }
}

/// Trimming takes the white space at the ends of a text, all of it and nothing else.
pub proof fn law_trimming_takes_the_white_ends(s: Seq<char>)
    ensures
        exists|i: int, j: int|
            0 <= i <= j <= s.len() && trimmed(s) == #[trigger] s.subrange(i, j) && (forall|k: int|
                (0 <= k < i || j <= k < s.len()) ==> is_white(#[trigger] s[k])),
        trimmed(s).len() > 0 ==> !is_white(trimmed(s)[0]) && !is_white(trimmed(s).last()),
{
    lemma_trim_start(s);
    let i = choose|i: int|
        0 <= i <= s.len() && trim_start_of(s) == #[trigger] s.skip(i) && (forall|j: int|
            0 <= j < i ==> is_white(#[trigger] s[j])) && (i < s.len() ==> !is_white(s[i]));
    let t = s.skip(i);
    lemma_trim_end(t);
    let n = choose|n: int|
        0 <= n <= t.len() && trim_end_of(t) == #[trigger] t.take(n) && (forall|j: int|
            n <= j < t.len() ==> is_white(#[trigger] t[j])) && (n > 0 ==> !is_white(t[n - 1]));
    assert(s.subrange(i, i + n) =~= t.take(n));
    assert forall|k: int| (0 <= k < i || i + n <= k < s.len()) implies is_white(
        #[trigger] s[k],
    ) by {
        if k >= i {
            assert(s[k] == t[k - i]);
        }
    }
    if n > 0 {
        assert(t[0] == s[i]);
        assert(t.take(n)[0] == s[i]);
        assert(t.take(n).last() == t[n - 1]);
    }
}

/// White space is what it is: spaces, tabs and line ends among it, letters, digits and
/// points not.
pub proof fn law_white_space_is_what_it_is()
    ensures
        is_white(' ') && is_white('\t') && is_white('\n') && is_white('\r'),
        !is_white('.') && !is_white('0') && !is_white('9') && !is_white('a') && !is_white('z')
            && !is_white('A') && !is_white('Z') && !is_white(','),
        forall|c: char| #![trigger is_white(c)] 0x21 <= c as u32 <= 0x7e ==> !is_white(c),
{
}

/// Lower case changes the capital letters and nothing else.
pub proof fn law_lower_case_changes_capitals(s: Seq<char>, i: int)
    requires
        0 <= i < s.len(),
    ensures
        lowered(s).len() == s.len(),
        'A' as u32 <= s[i] as u32 <= 'Z' as u32 ==> lowered(s)[i] as u32 == s[i] as u32 + 32,
        !('A' as u32 <= s[i] as u32 <= 'Z' as u32) ==> lowered(s)[i] == s[i],
{
}

/// Two texts are the same but for their case where they are the same in lower case.
pub proof fn law_case_is_ignored(a: Seq<char>, b: Seq<char>)
    ensures
        same_ignoring_case(a, b) <==> lowered(a) == lowered(b),
{
    if same_ignoring_case(a, b) {
        assert(lowered(a) =~= lowered(b));
    }
    if lowered(a) == lowered(b) {
        assert(lowered(a).len() == a.len() && lowered(b).len() == b.len());
        assert forall|i: int| 0 <= i < a.len() implies ascii_lower(#[trigger] a[i]) == ascii_lower(
            b[i],
        ) by {
            assert(lowered(a)[i] == lowered(b)[i]);
        }
    }
}

/// A text occurs in any text that it is a piece of, and in no other.
pub proof fn law_texts_occur_in_what_holds_them(a: Seq<char>, t: Seq<char>, b: Seq<char>)
    ensures
        occurs_in(a + t + b, t),
        forall|s: Seq<char>| s.len() < t.len() ==> !#[trigger] occurs_in(s, t),
{
    let s = a + t + b;
    assert(s.subrange(a.len() as int, (a.len() + t.len()) as int) =~= t);
    assert(crate::text::occurs_at(s, t, a.len() as int));
}

/// Joined texts stand one behind the other with the separator between them.
pub proof fn law_joined_texts_are_separated(a: Seq<char>, b: Seq<char>, sep: Seq<char>)
    ensures
        joined(Seq::empty(), sep).len() == 0,
        joined(seq![a], sep) == a,
        joined(seq![a, b], sep) == a + sep + b,
{
    assert(seq![a, b].drop_last() =~= seq![a]);
    reveal_with_fuel(joined, 2);
}

/// Numbers are written in tens.
pub proof fn law_numbers_are_written_in_tens(n: nat, d: nat)
    requires
        d < 10,
    ensures
        dec(d) == seq![(48 + d) as char],
        n > 0 ==> dec(n * 10 + d) == dec(n).push((48 + d) as char),
        forall|s: Seq<char>, w: nat| s.len() >= w ==> #[trigger] zero_padded(s, w) == s,
        zero_padded(seq![(48 + d) as char], 2) == seq!['0', (48 + d) as char],
{
    assert((n * 10 + d) / 10 == n && (n * 10 + d) % 10 == d);
    assert(zero_padded(seq![digit_char(d)], 2) =~= seq!['0', digit_char(d)]);
}

/// Thousands are set apart by commas.
pub proof fn law_thousands_are_set_apart(thousands: nat, rest: nat)
    requires
        0 < thousands < 1000,
        rest < 1000,
    ensures
        grouped(rest) == dec(rest),
        grouped(thousands * 1000 + rest) == dec(thousands) + seq![','] + zero_padded(dec(rest), 3),
{
    let n = thousands * 1000 + rest;
    assert(n / 1000 == thousands && n % 1000 == rest);
    reveal_with_fuel(grouped, 2);
}

/// What is shown of a foreign text has no control characters, nothing that turns the
/// writing round and nothing that cannot be seen.
pub proof fn law_foreign_text_is_tame(s: Seq<char>, max: nat, i: int)
    requires
        0 <= i < stripped(s).len(),
    ensures
        ({
            let n = stripped(s)[i] as u32;
            &&& n > 0x1f
            &&& !(0x7f <= n <= 0x9f)
            &&& !(0x202a <= n <= 0x202e)
            &&& !(0x2066 <= n <= 0x2069)
            &&& n != 0x200e && n != 0x200f && n != 0x61c
            &&& !(0x200b <= n <= 0x200d)
            &&& !(0x2060 <= n <= 0x2064)
            &&& n != 0xfeff && n != 0xad
        }),
        s.contains(stripped(s)[i]),
        sanitized(s, max).len() <= max + 1,
{
    let c = stripped(s)[i];
    assert(stripped(s).contains(c));
    lemma_filter_contains(s, |c: char| is_safe(c), c);
}

// ── digits ──────────────────────────────────────────────────────────────────

/// Hexadecimal digits are worth what they are, in either case.
pub proof fn law_hexadecimal_digits(d: nat)
    requires
        d < 16,
    ensures
        hex_digit_value(hex_char(d)) == Some(d),
        hex_digit_value('0') == Some(0nat),
        hex_digit_value('9') == Some(9nat),
        hex_digit_value('a') == Some(10nat),
        hex_digit_value('f') == Some(15nat),
        hex_digit_value('A') == Some(10nat),
        hex_digit_value('F') == Some(15nat),
        hex_digit_value('g') is None,
        hex_digit_value('G') is None,
        hex_digit_value('x') is None,
        hex_digit_value(' ') is None,
{
}

/// An address in short is its first four digits and its last four, behind `0x`.
pub proof fn law_short_addresses_are_the_ends(a: Address)
    ensures
        ({
            let s = short_address_of(a);
            let h = address_hex(a);
            &&& s.len() == 11
            &&& s[0] == '0' && s[1] == 'x'
            &&& s[2] == h[2] && s[3] == h[3] && s[4] == h[4] && s[5] == h[5]
            &&& s[6] == '…'
            &&& s[7] == h[38] && s[8] == h[39] && s[9] == h[40] && s[10] == h[41]
        }),
{
    crate::types::lemma_address_hex_len(a);
}

/// An order's identifier is 56 bytes, written as digits behind `0x`; each two digits
/// make a byte.
pub proof fn law_order_identifiers_are_56_bytes(d: Seq<char>, i: int)
    requires
        d.len() == 112,
        all_hex(d),
        0 <= i < 56,
    ensures
        uid_bytes(seq!['0', 'x'] + d) is Ok,
        uid_bytes(seq!['0', 'x'] + d)->Ok_0.len() == 56,
        uid_bytes(seq!['0', 'x'] + d)->Ok_0[i] == 16 * hex_digit_value(d[2 * i])->0
            + hex_digit_value(d[2 * i + 1])->0,
{
    let s = seq!['0', 'x'] + d;
    assert(s.skip(2) =~= d);
    assert(hex_digit_value(d[0]) is Some && hex_digit_value(d[1]) is Some);
    assert(hex_digit_value(d[2 * i]) is Some && hex_digit_value(d[2 * i + 1]) is Some);
}

/// A text of another length is no order identifier.
pub proof fn law_other_texts_are_no_order_identifiers(d: Seq<char>)
    requires
        d.len() != 112,
        d.len() % 2 == 0,
        d.len() > 0,
        all_hex(d),
    ensures
        uid_bytes(seq!['0', 'x'] + d) == Err::<Seq<u8>, Seq<char>>("order uid must be 56 bytes"@),
{
    let s = seq!['0', 'x'] + d;
    assert(s.skip(2) =~= d);
    assert(hex_digit_value(d[0]) is Some && hex_digit_value(d[1]) is Some);
}

/// An account's signature is checked by its key, a Safe's by the Safe.
pub proof fn law_signatures_are_checked_by_their_owner()
    ensures
        scheme(Placer::Account) == "eip712"@,
        scheme(Placer::Safe) == "eip1271"@,
{
}

// ── rows ────────────────────────────────────────────────────────────────────

/// Fetched balances of the identity on screen take the place of those that were shown of
/// their network; those of other networks stay.
pub proof fn law_fetched_balances_are_shown(
    m: PortfolioModel,
    network: NetworkId,
    tokens: Seq<LiveToken>,
    shown: Address,
    allowed: Seq<NetworkId>,
    t: LiveToken,
)
    requires
        allowed.contains(network),
    ensures
        m.fetched(shown, network, Some(tokens), shown, allowed).rows.contains(t) <==> if t.chain
            == network {
            tokens.contains(t)
        } else {
            m.rows.contains(t)
        },
{
    let a = rows_off(m.rows, network);
    let b = rows_on(tokens, network);
    lemma_filter_contains(m.rows, |t: LiveToken| t.chain != network, t);
    lemma_filter_contains(tokens, |t: LiveToken| t.chain == network, t);
    lemma_ranked_contains(a + b, t);
    lemma_sum_contains(a, b, t);
}

proof fn lemma_sum_contains<T>(a: Seq<T>, b: Seq<T>, x: T)
    ensures
        (a + b).contains(x) <==> a.contains(x) || b.contains(x),
{
    if a.contains(x) {
        let i = choose|i: int| 0 <= i < a.len() && a[i] == x;
        assert((a + b)[i] == x);
    }
    if b.contains(x) {
        let i = choose|i: int| 0 <= i < b.len() && b[i] == x;
        assert((a + b)[a.len() + i] == x);
    }
}

/// Balances that were read again take the place of those of the same tokens on the same
/// network; every other row stays.
pub proof fn law_balances_read_again_are_shown(
    m: PortfolioModel,
    network: NetworkId,
    slots: Seq<Option<Address>>,
    tokens: Seq<LiveToken>,
    shown: Address,
    allowed: Seq<NetworkId>,
    t: LiveToken,
)
    requires
        allowed.contains(network),
    ensures
        m.swapped(shown, network, slots, tokens, shown, allowed).rows.contains(t) <==> if t.chain
            == network && slots.contains(t.contract) {
            tokens.contains(t)
        } else {
            m.rows.contains(t)
        },
        m.swapped(shown, network, slots, tokens, shown, allowed).loading == m.loading,
{
    let a = rows_unlisted(m.rows, network, slots);
    let b = rows_listed(tokens, network, slots);
    lemma_filter_contains(
        m.rows,
        |t: LiveToken| !(t.chain == network && slots.contains(t.contract)),
        t,
    );
    lemma_filter_contains(
        tokens,
        |t: LiveToken| t.chain == network && slots.contains(t.contract),
        t,
    );
    lemma_ranked_contains(a + b, t);
    lemma_sum_contains(a, b, t);
}

/// What is kept for an address and a network takes in balances that were read again in
/// place of those of the same tokens; where nothing is kept, nothing is begun.
pub proof fn law_balances_read_again_are_kept(
    m: PortfolioModel,
    address: Address,
    network: NetworkId,
    slots: Seq<Option<Address>>,
    tokens: Seq<LiveToken>,
    shown: Address,
    allowed: Seq<NetworkId>,
    t: LiveToken,
)
    ensures
        ({
            let slot = Slot { address, network };
            let after = m.swapped(address, network, slots, tokens, shown, allowed).cache;
            &&& !m.cache.contains_key(slot) ==> after == m.cache
            &&& m.cache.contains_key(slot) ==> {
                &&& after.contains_key(slot)
                &&& slots.contains(t.contract) && t.chain == network ==> (after[slot].contains(t)
                    <==> tokens.contains(t))
                &&& !slots.contains(t.contract) ==> (after[slot].contains(t)
                    <==> m.cache[slot].contains(t))
                &&& forall|o: Slot|
                    o != slot && m.cache.contains_key(o) ==> #[trigger] after[o] == m.cache[o]
            }
        }),
{
    let slot = Slot { address, network };
    if m.cache.contains_key(slot) {
        let a = rows_unnamed(m.cache[slot], slots);
        let b = rows_listed(tokens, network, slots);
        lemma_filter_contains(m.cache[slot], |t: LiveToken| !slots.contains(t.contract), t);
        lemma_filter_contains(
            tokens,
            |t: LiveToken| t.chain == network && slots.contains(t.contract),
            t,
        );
        lemma_ranked_contains(a + b, t);
        lemma_sum_contains(a, b, t);
    }
}

/// A refresh keeps the rows of the networks in scope, and no others.
pub proof fn law_a_refresh_keeps_what_is_in_scope(
    m: PortfolioModel,
    allowed: Seq<NetworkId>,
    t: LiveToken,
)
    ensures
        m.refreshed(allowed).rows.contains(t) <==> m.rows.contains(t) && allowed.contains(t.chain),
{
    lemma_filter_contains(m.rows, |t: LiveToken| allowed.contains(t.chain), t);
}

/// An account's balances are those of every chain and of every network of the user's; a
/// Safe's are those of its own chain.
pub proof fn law_an_account_is_in_every_scope(
    m: IdentityModel,
    custom: Seq<u64>,
    c: Chain,
    i: int,
)
    requires
        m.safe() is None,
        0 <= i < custom.len(),
    ensures
        m.networks(custom).contains(NetworkId::Builtin(c)),
        m.networks(custom).contains(NetworkId::Custom(custom[i])),
        m.networks(custom).len() == 3 + custom.len(),
{
    let n = m.networks(custom);
    assert(n[0] == NetworkId::Builtin(Chain::Mainnet));
    assert(n[1] == NetworkId::Builtin(Chain::Optimism));
    assert(n[2] == NetworkId::Builtin(Chain::Base));
    assert(n[3 + i] == NetworkId::Custom(custom[i]));
}

/// The token of a pool is the one of its chain and its contract; native coin has none.
pub proof fn law_a_pools_token_is_its_own(t: LiveToken, info: PoolInfo)
    ensures
        is_pool_token(t, info) ==> t.chain.id() == info.chain.id(),
        is_pool_token(t, info) && info.is_native ==> t.contract is None,
        is_pool_token(t, info) && !info.is_native ==> t.contract == Some(info.asset),
        t.chain.id() == info.chain.id() && !info.is_native && t.contract == Some(info.asset)
            ==> is_pool_token(t, info),
        t.chain.id() == info.chain.id() && info.is_native && t.contract is None ==> is_pool_token(
            t,
            info,
        ),
{
}

// ── the contact form ────────────────────────────────────────────────────────

/// In the form, Enter saves, Escape leaves and Tab goes on to the next field, or back
/// with Shift; in the list no key does anything.
pub proof fn law_the_form_is_worked_by_keys(
    s: PaneModel,
    book: Option<Seq<ContactView>>,
    roll: Seq<char>,
    shift: bool,
    key: Key,
)
    ensures
        s.mode is Edit ==> stepped(
            s,
            Message::Key(Event::KeyPressed { key: Key::Enter, shift }),
            book,
            roll,
        ) == stepped(s, Message::Save, book, roll),
        s.mode is Edit ==> stepped(
            s,
            Message::Key(Event::KeyPressed { key: Key::Escape, shift }),
            book,
            roll,
        ) == stepped(s, Message::CancelEdit, book, roll),
        s.mode is Edit ==> {
            let t = stepped(
                s,
                Message::Key(Event::KeyPressed { key: Key::Tab, shift }),
                book,
                roll,
            );
            &&& t.state == s && t.out is Nothing
            &&& shift ==> t.focus is Previous
            &&& !shift ==> t.focus is Next
        },
        s.mode is List ==> {
            let t = stepped(s, Message::Key(Event::KeyPressed { key, shift }), book, roll);
            t.state == s && t.out is Nothing && t.focus is Stay
        },
        s.mode is List ==> stepped(s, Message::Back, book, roll).out is Close,
{
}

/// A contact that is saved under another address leaves its old place: it is in the book
/// once, under the new one.
pub proof fn law_a_moved_contact_leaves_its_place(
    s: PaneModel,
    book: Seq<ContactView>,
    roll: Seq<char>,
    old_address: Address,
    a: Address,
    k: int,
)
    requires
        s.mode == (Mode::Edit { editing_addr: Some(old_address) }),
        a != old_address,
        trimmed(s.draft.name).len() > 0,
        s.resolution == Field::Hex(a),
        0 <= k < book.len(),
        book[k].address == old_address,
        forall|i: int| 0 <= i < book.len() && i != k ==> (#[trigger] book[i]).address
            != old_address,
        forall|i: int| 0 <= i < book.len() ==> (#[trigger] book[i]).address != a,
    ensures
        ({
            let t = stepped(s, Message::Save, Some(book), roll);
            &&& t.out is Save
            &&& t.out->Save_0.len() == book.len()
            &&& t.out->Save_0.drop_last() == book.remove(k)
            &&& t.out->Save_0.last().address == a
            &&& t.out->Save_0.last().name == trimmed(s.draft.name)
        }),
{
    lemma_contact_position(book, a);
    lemma_contact_position(book, old_address);
    let p = contact_position(book, old_address);
    if p < book.len() && p != k {
        assert(book[p].address != old_address);
    }
    let rest = book.remove(k);
    lemma_contact_position(rest, a);
    assert forall|i: int| 0 <= i < rest.len() implies (#[trigger] rest[i]).address != a by {
        if i < k {
            assert(rest[i] == book[i]);
        } else {
            assert(rest[i] == book[i + 1]);
        }
    }
    assert(form_errors(s, Some(book)) =~= Seq::<Seq<char>>::empty());
    let t = stepped(s, Message::Save, Some(book), roll);
    assert(t.out->Save_0.drop_last() =~= rest);
}

/// Deleting takes out the contact that was picked, and no other.
pub proof fn law_the_picked_contact_is_deleted(book: Seq<ContactView>, i: int)
    requires
        0 <= i < book.len(),
    ensures
        without(book, i) == book.take(i) + book.skip(i + 1),
        forall|j: int| j < 0 || j >= book.len() ==> #[trigger] without(book, j) == book,
{
    assert(without(book, i) =~= book.take(i) + book.skip(i + 1));
}

/// Below the address field stands what was made of it.
pub proof fn law_the_address_hint_tells(name: Seq<char>, addr: Address, msg: Seq<char>)
    ensures
        hint_line(Field::Empty) is None,
        hint_line(Field::Hex(addr)) == Some(("✓ valid address"@, true)),
        hint_line(Field::Resolved { name, addr }) == Some(
            ("✓ "@ + name + " →  "@ + short_address_of(addr), true),
        ),
        hint_line(Field::NotFound { name }) == Some(
            ("“"@ + name + "” has no address record"@, false),
        ),
        hint_line(Field::Error { name, msg }) == Some(
            ("Name lookup for “"@ + name + "” failed: "@ + msg, false),
        ),
        hint_line(Field::Invalid) == Some(("Not a valid 0x… address or name"@, false)),
{
}

/// A face that is drawn is one of the faces, and another than before unless it is the
/// first.
pub proof fn law_a_drawn_face_is_another(current: Seq<char>, s: Seq<char>)
    requires
        could_be_drawn(current, s),
    ensures
        exists|i: usize| i < 30 && s == #[trigger] face(i),
        s == current ==> s == "(◕‿◕)"@,
{
}

// ── calls ───────────────────────────────────────────────────────────────────

/// Bytes are written as two digits each.
pub proof fn law_bytes_are_written_as_two_digits(b: Seq<u8>, x: u8)
    ensures
        hex_of(Seq::empty()).len() == 0,
        hex_of(b.push(x)) == hex_of(b) + seq![
            hex_char((x / 16) as nat),
            hex_char((x % 16) as nat),
        ],
{
    assert(b.push(x).drop_last() =~= b);
    assert(hex_of(b.push(x)) =~= hex_of(b) + seq![
        hex_char((x / 16) as nat),
        hex_char((x % 16) as nat),
    ]);
}

/// A tuple is written with its types between brackets, in their order.
pub proof fn law_tuples_are_written_in_order(ts: Vec<SolType>)
    requires
        ts@.len() == 2,
    ensures
        type_text(SolType::Tuple(ts)) == "("@ + (type_text(ts@[0]) + ","@ + type_text(ts@[1]))
            + ")"@,
{
    let s = ts@;
    assert(s.drop_last().drop_last() =~= Seq::<SolType>::empty());
    reveal_with_fuel(type_texts, 3);
    assert(type_texts(s.drop_last().drop_last()) =~= Seq::<Seq<char>>::empty());
    assert(type_texts(s.drop_last()) =~= seq![type_text(s[0])]);
    assert(type_texts(s) =~= seq![type_text(s[0]), type_text(s[1])]);
    law_joined_texts_are_separated(type_text(s[0]), type_text(s[1]), ","@);
}

/// A line of a descriptor shows its label and its value, made safe to show.
pub proof fn law_descriptor_lines_show_label_and_value(i: DisplayItem, depth: nat)
    ensures
        ({
            let l = lines_of(DisplayEntry::Item(i), depth);
            &&& l.len() == 1
            &&& l[0].depth == depth
            &&& l[0].kind is Item
            &&& l[0].kind->Item_row.label == "· "@ + stripped(i.label@)
            &&& l[0].kind->Item_row.value == sanitized(i.value@, 48)
            &&& !l[0].kind->Item_grouped
        }),
{
}

/// Of what a descriptor's reading brought up, the warnings are shown, each of them.
pub proof fn law_diagnostic_warnings_are_shown(ds: Seq<FormatDiagnostic>, d: FormatDiagnostic)
    ensures
        diagnostic_texts(Seq::empty()).len() == 0,
        d.is_warning ==> diagnostic_texts(ds.push(d)) == diagnostic_texts(ds).push(
            "⚠ "@ + d.message@,
        ),
        !d.is_warning ==> diagnostic_texts(ds.push(d)) == diagnostic_texts(ds),
{
    assert(ds.push(d).drop_last() =~= ds);
}

/// Warnings that put the whole call in doubt stand above it, the others below.
pub proof fn law_doubts_stand_above(w: Warning)
    ensures
        w is AmbiguousSignature ==> rides_above(w),
        w is BytecodeMismatch ==> rides_above(w),
        w is InfiniteApproval ==> !rides_above(w),
        w is UnverifiedBytecode ==> !rides_above(w),
{
}

// ── what moves ──────────────────────────────────────────────────────────────

/// The dots behind a line that waits go from one to three and start again, two of them a
/// second.
pub proof fn law_waiting_dots_come_and_go(t: nat, n: nat)
    ensures
        t < 500 ==> ellipsis(t).len() == 1,
        500 <= t < 1000 ==> ellipsis(t).len() == 2,
        1000 <= t < 1500 ==> ellipsis(t).len() == 3,
        ellipsis(t + 1500) == ellipsis(t),
        0 <= n < ellipsis(t).len() ==> ellipsis(t)[n as int] == '.',
{
    assert((t + 1500) / 500 == t / 500 + 3);
    assert((t / 500 + 3) % 3 == (t / 500) % 3);
    assert(ellipsis(t + 1500) =~= ellipsis(t));
}

/// The steps of a proof are told by their names, in their order.
pub proof fn law_proof_steps_are_told()
    ensures
        stage_name(0) == "Loading the proving key"@,
        stage_name(1) == "Gathering Merkle-tree witnesses"@,
        stage_name(2) == "Synthesizing the circuit witness"@,
        stage_name(3) == "Committing witness polynomials"@,
        stage_name(4) == "Running multi-scalar multiplications"@,
        stage_name(5) == "Evaluating pairing constraints"@,
        stage_name(6) == "Assembling the Groth16 proof"@,
        stage_name(7) == "Verifying the proof locally"@,
{
}

/// The pools app is redrawn frame by frame while a proof is made, while its first pools
/// are on their way, and while a deposit is; it hears the keyboard then, and on every
/// screen but the first two.
pub proof fn law_the_pools_app_moves_while_it_works(s: PoolModel, pool: Address)
    ensures
        s.screen == Screen::Proving ==> pool_moves(s),
        s.screen == Screen::Overview && s.syncing && s.pools.len() == 0 ==> pool_moves(s),
        s.screen == Screen::Overview && s.depositing.dom().contains(pool) ==> pool_moves(s),
        s.screen != Screen::Proving && s.screen != Screen::Overview ==> !pool_moves(s),
        s.screen == Screen::Overview && !s.syncing && s.depositing == Map::<Address, ()>::empty()
            ==> !pool_moves(s),
        s.screen == Screen::Deposit || s.screen == Screen::Withdraw || s.screen == Screen::Review
            || s.screen == Screen::Success || s.screen == Screen::Backup || s.screen
            == Screen::Restore || s.screen == Screen::Proving ==> pool_hears_keys(s),
        s.screen == Screen::Setup ==> !pool_hears_keys(s),
{
}

// ── names, words and rows ───────────────────────────────────────────────────

/// A name has a point inside it, none at its ends, and no white space.
pub proof fn law_names_have_a_point_inside(s: Seq<char>, i: int)
    ensures
        name_shaped(s) ==> s.contains('.') && s[0] != '.' && s.last() != '.',
        name_shaped(s) && 0 <= i < s.len() ==> !is_white(s[i]),
        s.contains('.') && s[0] != '.' && s.last() != '.' && (forall|j: int|
            0 <= j < s.len() ==> !is_white(#[trigger] s[j])) ==> name_shaped(s),
{
}

/// Words are set apart by white space: a character goes on with the word before it, or
/// begins one behind white space; white space itself is in no word.
pub proof fn law_words_are_set_apart_by_white_space(s: Seq<char>, c: char)
    ensures
        words_of(Seq::empty()).len() == 0,
        is_white(c) ==> words_of(s.push(c)) == words_of(s),
        !is_white(c) && (s.len() == 0 || is_white(s.last())) ==> words_of(s.push(c)) == words_of(
            s,
        ).push(seq![c]),
        !is_white(c) && s.len() > 0 && !is_white(s.last()) ==> words_of(s.push(c)) == words_of(
            s,
        ).drop_last().push(words_of(s).last().push(c)),
{
    assert(s.push(c).drop_last() =~= s);
}

/// What is kept is shown network after network, in the order of the networks.
pub proof fn law_kept_rows_follow_their_networks(
    cache: Map<Slot, Seq<LiveToken>>,
    address: Address,
    networks: Seq<NetworkId>,
    n: NetworkId,
)
    ensures
        kept_for(cache, address, Seq::empty()).len() == 0,
        cache.contains_key(Slot { address, network: n }) ==> kept_for(
            cache,
            address,
            networks.push(n),
        ) == kept_for(cache, address, networks) + cache[Slot { address, network: n }],
        !cache.contains_key(Slot { address, network: n }) ==> kept_for(
            cache,
            address,
            networks.push(n),
        ) == kept_for(cache, address, networks),
{
    assert(networks.push(n).drop_last() =~= networks);
}

/// Losses under a dollar are written without a sign, larger ones with it.
pub proof fn law_small_losses_have_no_sign(cents: nat)
    requires
        0 < cents < 100,
    ensures
        usd_text(-(cents as int)) == dec(0) + seq!['.'] + zero_padded(dec(cents), 2),
        usd_text(cents as int) == dec(0) + seq!['.'] + zero_padded(dec(cents), 2),
{
    assert(cents / 100 == 0 && cents % 100 == cents);
}

/// A crew that is ready holds the lent signer where it is an account's, and a Safe's
/// owners have their own.
pub proof fn law_accounts_hold_the_lent_signer(c: Crew)
    ensures
        c.has_signer() ==> c.stage == CrewStage::Ready,
        c.kind is PlaceSafe || c.kind is CancelSafe || c.kind is NameSafe ==> !c.has_signer(),
        c.stage == CrewStage::Ready && (c.kind is SendAccount || c.kind is PlaceAccount
            || c.kind is CancelAccount || c.kind is NameAccount) ==> c.has_signer(),
{
}

} // verus!
