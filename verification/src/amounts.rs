//! Amounts as the user reads and types them: parsing a typed amount, trimming
//! the zeros of a fixed-point text, and the largest amount that can be sent.

use vstd::prelude::*;

use crate::text::{
    all_digits, dec, dec_value, digit_char, is_digit, trim_end_char_of, trim_end_of,
    trim_start_char_of, trim_start_of, trimmed, zero_padded,
};
use crate::text::{chars_of, digits_between, has_char, text_of, trim, trim_end_char, trim_start_char};
use crate::types::{format_units, parse_decimal};
use crate::types::{pow10, two256, units_text, Address, Amount, MAX_DECIMALS};

verus! {

// ── parsing ─────────────────────────────────────────────────────────────────

/// The position of the first point in `s`, or its length where there is none.
pub open spec fn first_dot(s: Seq<char>) -> int
    decreases s.len(),
{
    if s.len() == 0 || s[0] == '.' {
        0
    } else {
        1 + first_dot(s.drop_first())
    }
}

/// What stands before the first point.
pub open spec fn whole_part(s: Seq<char>) -> Seq<char> {
    s.take(first_dot(s))
}

/// What stands behind the first point.
pub open spec fn fraction_part(s: Seq<char>) -> Seq<char> {
    if first_dot(s) < s.len() {
        s.skip(first_dot(s) + 1)
    } else {
        Seq::empty()
    }
}

/// The base units that a typed amount stands for, where a unit has `d` decimals:
/// digits with at most one point among them, at most `d` of them behind it.
pub open spec fn amount_of_text(s: Seq<char>, d: nat) -> Option<nat> {
    let t = trimmed(s);
    let whole = whole_part(t);
    let fraction = fraction_part(t);
    let n = dec_value(whole + fraction) * pow10((d - fraction.len()) as nat);
    if t.len() > 0 && all_digits(whole) && all_digits(fraction) && fraction.len() <= d && n
        < two256() {
        Some(n)
    } else {
        None
    }
}

/// `first_dot` is where the first point stands.
pub proof fn lemma_first_dot(s: Seq<char>)
    ensures
        0 <= first_dot(s) <= s.len(),
        first_dot(s) < s.len() ==> s[first_dot(s)] == '.',
        forall|j: int| 0 <= j < first_dot(s) ==> s[j] != '.',
    decreases s.len(),
{
    if s.len() > 0 && s[0] != '.' {
        lemma_first_dot(s.drop_first());
        assert forall|j: int| 0 <= j < first_dot(s) implies s[j] != '.' by {
            if j > 0 {
                assert(s.drop_first()[j - 1] != '.');
            }
        }
    }
}

/// A point behind characters that are none is the first one.
pub proof fn lemma_first_dot_is(s: Seq<char>, p: int)
    requires
        0 <= p <= s.len(),
        p < s.len() ==> s[p] == '.',
        forall|j: int| 0 <= j < p ==> s[j] != '.',
    ensures
        first_dot(s) == p,
{
    lemma_first_dot(s);
}

/// Parses a typed amount into base units of a token with `decimals` decimals.
pub fn parse_amount(s: &str, decimals: u8) -> (r: Option<Amount>)
    ensures
        match r {
            Some(a) => amount_of_text(s@, decimals as nat) == Some(a@),
            None => amount_of_text(s@, decimals as nat) is None,
        },
{
    let t = trim(s);
    let v = chars_of(t.as_str());
    if v.len() == 0 {
        return None;
    }
    let mut p: usize = 0;
    while p < v.len() && v[p] != '.'
        invariant
            p <= v.len(),
            forall|j: int| 0 <= j < p ==> v@[j] != '.',
        decreases v.len() - p,
    {
        p += 1;
    }
    proof {
        lemma_first_dot_is(v@, p as int);
    }
    let start: usize = if p < v.len() {
        p + 1
    } else {
        p
    };
    assert(v@.subrange(0, p as int) == whole_part(v@));
    assert(v@.subrange(start as int, v@.len() as int) == fraction_part(v@));
    if !digits_between(&v, 0, p) || !digits_between(&v, start, v.len()) {
        return None;
    }
    let frac: usize = v.len() - start;
    if frac > decimals as usize {
        return None;
    }
    let ghost joined = whole_part(v@) + fraction_part(v@);
    let mut digits: Vec<char> = Vec::new();
    let mut i: usize = 0;
    while i < v.len()
        invariant
            i <= v.len(),
            p <= v.len(),
            p < v.len() ==> start == p + 1,
            p == v.len() ==> start == p,
            digits@ == v@.subrange(0, if i <= p {
                i as int
            } else {
                p as int
            }) + v@.subrange(start as int, if i <= start {
                start as int
            } else {
                i as int
            }),
        decreases v.len() - i,
    {
        let ghost was = digits@;
        if i != p {
            digits.push(v[i]);
        }
        i += 1;
        assert(digits@ =~= v@.subrange(0, if i <= p {
            i as int
        } else {
            p as int
        }) + v@.subrange(start as int, if i <= start {
            start as int
        } else {
            i as int
        }));
    }
    assert(digits@ == joined);
    let pad: usize = decimals as usize - frac;
    let mut k: usize = 0;
    while k < pad
        invariant
            k <= pad,
            digits@ == joined + Seq::new(k as nat, |i: int| '0'),
        decreases pad - k,
    {
        digits.push('0');
        k += 1;
        assert(digits@ =~= joined + Seq::new(k as nat, |i: int| '0'));
    }
    proof {
        lemma_append_zeros(joined, pad as nat);
        assert forall|i: int| 0 <= i < digits@.len() implies is_digit(#[trigger] digits@[i]) by {
            if i < p {
                assert(whole_part(v@)[i] == digits@[i]);
            } else if i < joined.len() {
                assert(fraction_part(v@)[i - p] == digits@[i]);
            }
        }
        lemma_leading_zeros(digits@);
    }
    let all = text_of(&digits);
    let lean = trim_start_char(all.as_str(), '0');
    if lean.as_str().is_empty() {
        assert(dec_value(lean@) == 0);
        return Some(Amount::zero());
    }
    parse_decimal(lean.as_str())
}

/// Zeros behind a numeral multiply its value.
pub proof fn lemma_append_zeros(s: Seq<char>, k: nat)
    ensures
        dec_value(s + Seq::new(k, |i: int| '0')) == dec_value(s) * pow10(k),
    decreases k,
{
    let z = Seq::new(k, |i: int| '0');
    if k == 0 {
        assert(s + z =~= s);
        assert(dec_value(s) * pow10(0) == dec_value(s)) by (nonlinear_arith)
            requires
                pow10(0) == 1,
        ;
    } else {
        let y = Seq::new((k - 1) as nat, |i: int| '0');
        assert((s + z).drop_last() =~= s + y);
        assert((s + z).last() == '0');
        lemma_append_zeros(s, (k - 1) as nat);
        assert(dec_value(s) * pow10((k - 1) as nat) * 10 == dec_value(s) * pow10(k))
            by (nonlinear_arith)
            requires
                pow10(k) == 10 * pow10((k - 1) as nat),
        ;
    }
}

/// Leading zeros of a numeral do not count.
pub proof fn lemma_leading_zeros(s: Seq<char>)
    requires
        all_digits(s),
    ensures
        dec_value(trim_start_char_of(s, '0')) == dec_value(s),
        all_digits(trim_start_char_of(s, '0')),
    decreases s.len(),
{
    if s.len() > 0 && s[0] == '0' {
        let t = s.drop_first();
        assert forall|i: int| 0 <= i < t.len() implies is_digit(#[trigger] t[i]) by {
            assert(t[i] == s[i + 1]);
        }
        lemma_leading_zeros(t);
        lemma_zero_in_front(t);
        assert(s =~= seq!['0'] + t);
    }
}

/// One zero in front of a numeral does not count.
proof fn lemma_zero_in_front(s: Seq<char>)
    ensures
        dec_value(seq!['0'] + s) == dec_value(s),
    decreases s.len(),
{
    let t = seq!['0'] + s;
    if s.len() == 0 {
        assert(t.drop_last() =~= Seq::<char>::empty());
        assert(t.last() == '0');
        reveal_with_fuel(dec_value, 2);
    } else {
        assert(t.drop_last() =~= seq!['0'] + s.drop_last());
        assert(t.last() == s.last());
        lemma_zero_in_front(s.drop_last());
    }
}

/// Any number of zeros in front of a numeral does not count.
proof fn lemma_zeros_in_front(k: nat, s: Seq<char>)
    ensures
        dec_value(Seq::new(k, |i: int| '0') + s) == dec_value(s),
    decreases k,
{
    let z = Seq::new(k, |i: int| '0');
    if k == 0 {
        assert(z + s =~= s);
    } else {
        let y = Seq::new((k - 1) as nat, |i: int| '0');
        assert(z + s =~= seq!['0'] + (y + s));
        lemma_zero_in_front(y + s);
        lemma_zeros_in_front((k - 1) as nat, s);
    }
}

// ── trimming a fixed-point text ─────────────────────────────────────────────

/// A fixed-point text without the zeros at its end, and without the point where
/// nothing is left behind it. A text without a point stays as it is.
pub open spec fn zeros_trimmed(s: Seq<char>) -> Seq<char> {
    if s.contains('.') {
        trim_end_char_of(trim_end_char_of(s, '0'), '.')
    } else {
        s
    }
}

/// Trims trailing fractional zeros, and a dangling point, from a fixed-point
/// text. Texts without a point pass through untouched.
pub fn trim_zeros(s: &str) -> (r: String)
    ensures
        r@ == zeros_trimmed(s@),
{
    if has_char(s, '.') {
        let t = trim_end_char(s, '0');
        trim_end_char(t.as_str(), '.')
    } else {
        s.to_owned()
    }
}

/// Trims trailing fractional zeros, and a dangling point, from a fixed-point
/// text; where nothing is left, that is zero.
pub fn trim_trailing_decimal_zeros(s: &str) -> (r: String)
    ensures
        r@ == decimal_zeros_trimmed(s@),
{
    if !has_char(s, '.') {
        return s.to_owned();
    }
    let t = trim_end_char(s, '0');
    let u = trim_end_char(t.as_str(), '.');
    if u.as_str().is_empty() {
        proof {
            reveal_strlit("0");
            assert("0"@ =~= seq!['0']);
        }
        "0".to_owned()
    } else {
        u
    }
}

/// What `trim_trailing_decimal_zeros` returns.
pub open spec fn decimal_zeros_trimmed(s: Seq<char>) -> Seq<char> {
    if s.contains('.') && zeros_trimmed(s).len() == 0 {
        seq!['0']
    } else {
        zeros_trimmed(s)
    }
}

/// Trimming stops at a character that is not trimmed.
pub proof fn lemma_trim_end_stops(p: Seq<char>, f: Seq<char>, c: char)
    requires
        p.len() > 0,
        p.last() != c,
    ensures
        trim_end_char_of(p + f, c) == p + trim_end_char_of(f, c),
    decreases f.len(),
{
    let s = p + f;
    if f.len() == 0 {
        assert(s =~= p);
    } else {
        assert(s.last() == f.last());
        assert(s.drop_last() =~= p + f.drop_last());
        if f.last() == c {
            lemma_trim_end_stops(p, f.drop_last(), c);
        }
    }
}

/// Trimming takes a run of `c` off the end and nothing else.
pub proof fn lemma_trim_end_run(s: Seq<char>, c: char)
    ensures
        ({
            let t = trim_end_char_of(s, c);
            &&& t.len() <= s.len()
            &&& s == t + Seq::new((s.len() - t.len()) as nat, |i: int| c)
            &&& t.len() > 0 ==> t.last() != c
        }),
    decreases s.len(),
{
    let t = trim_end_char_of(s, c);
    if s.len() > 0 && s.last() == c {
        let u = s.drop_last();
        lemma_trim_end_run(u, c);
        let run = Seq::new((s.len() - t.len()) as nat, |i: int| c);
        let shorter = Seq::new((u.len() - t.len()) as nat, |i: int| c);
        assert forall|i: int| 0 <= i < s.len() implies s[i] == (t + run)[i] by {
            if i < u.len() {
                assert(s[i] == u[i]);
                assert(u[i] == (t + shorter)[i]);
            }
        }
        assert(s =~= t + run);
    } else {
        assert(s =~= t + Seq::new(0, |i: int| c));
    }
}

/// Trimming the zeros of a text with at most one point a second time changes
/// nothing.
pub proof fn law_trim_zeros_idempotent(s: Seq<char>)
    requires
        forall|i: int, j: int| 0 <= i < j < s.len() && s[i] == '.' ==> s[j] != '.',
    ensures
        zeros_trimmed(zeros_trimmed(s)) == zeros_trimmed(s),
{
    if s.contains('.') {
        let once = trim_end_char_of(s, '0');
        let t = trim_end_char_of(once, '.');
        lemma_trim_end_run(s, '0');
        lemma_trim_end_run(once, '.');
        assert forall|i: int| 0 <= i < once.len() implies once[i] == s[i] by {
            assert(s[i] == (once + Seq::new((s.len() - once.len()) as nat, |i: int| '0'))[i]);
        }
        assert forall|i: int| 0 <= i < t.len() implies t[i] == once[i] by {
            assert(once[i] == (t + Seq::new((once.len() - t.len()) as nat, |i: int| '.'))[i]);
        }
        if t.len() < once.len() {
            assert(once[t.len() as int] == '.') by {
                assert(once[t.len() as int] == (t + Seq::new(
                    (once.len() - t.len()) as nat,
                    |i: int| '.',
                ))[t.len() as int]);
            }
            if t.contains('.') {
                let i = choose|i: int| 0 <= i < t.len() && t[i] == '.';
                assert(s[i] == '.' && s[t.len() as int] == '.');
            }
        } else {
            assert(t =~= once);
        }
    }
}

// ── what a number's text is worth ───────────────────────────────────────────

/// The numeral of `n` is made of digits and is worth `n`.
pub proof fn lemma_dec(n: nat)
    ensures
        dec(n).len() > 0,
        all_digits(dec(n)),
        dec_value(dec(n)) == n,
    decreases n,
{
    if n < 10 {
        assert(dec(n).drop_last() =~= Seq::<char>::empty());
        assert(dec(n).last() == digit_char(n));
        reveal_with_fuel(dec_value, 2);
    } else {
        lemma_dec(n / 10);
        assert(dec(n).drop_last() =~= dec(n / 10));
        assert(dec(n).last() == digit_char(n % 10));
        assert forall|i: int| 0 <= i < dec(n).len() implies is_digit(#[trigger] dec(n)[i]) by {
            if i < dec(n / 10).len() {
                assert(dec(n)[i] == dec(n / 10)[i]);
            }
        }
    }
}

/// A number below `10^d` has at most `d` digits (one, where `d` is zero).
proof fn lemma_dec_len(n: nat, d: nat)
    requires
        n < pow10(d),
    ensures
        dec(n).len() <= d || (d == 0 && dec(n).len() == 1),
    decreases d,
{
    if d > 0 && n >= 10 {
        assert(n / 10 < pow10((d - 1) as nat));
        lemma_dec_len(n / 10, (d - 1) as nat);
        if d == 1 {
            assert(pow10(0) == 1);
        }
    }
}

/// The value of two numerals written one behind the other.
proof fn lemma_value_concat(a: Seq<char>, b: Seq<char>)
    requires
        all_digits(b),
    ensures
        dec_value(a + b) == dec_value(a) * pow10(b.len()) + dec_value(b),
    decreases b.len(),
{
    if b.len() == 0 {
        assert(a + b =~= a);
        assert(dec_value(a) * pow10(0) == dec_value(a)) by (nonlinear_arith)
            requires
                pow10(0) == 1,
        ;
    } else {
        let c = b.drop_last();
        assert((a + b).drop_last() =~= a + c);
        assert((a + b).last() == b.last());
        assert(is_digit(b[b.len() - 1]));
        assert forall|i: int| 0 <= i < c.len() implies is_digit(#[trigger] c[i]) by {
            assert(c[i] == b[i]);
        }
        lemma_value_concat(a, c);
        let last = b.last() as u32 - 48;
        assert((dec_value(a) * pow10(c.len()) + dec_value(c)) * 10 + last == dec_value(a) * pow10(
            b.len(),
        ) + (dec_value(c) * 10 + last)) by (nonlinear_arith)
            requires
                pow10(b.len()) == 10 * pow10(c.len()),
        ;
    }
}

/// Powers of ten are positive.
pub proof fn lemma_pow10_positive(d: nat)
    ensures
        pow10(d) > 0,
    decreases d,
{
    if d > 0 {
        lemma_pow10_positive((d - 1) as nat);
    }
}

/// Powers of ten multiply.
pub proof fn lemma_pow10_sum(a: nat, b: nat)
    ensures
        pow10(a + b) == pow10(a) * pow10(b),
    decreases a,
{
    if a > 0 {
        lemma_pow10_sum((a - 1) as nat, b);
        assert(10 * (pow10((a - 1) as nat) * pow10(b)) == (10 * pow10((a - 1) as nat)) * pow10(b))
            by (nonlinear_arith);
        assert((a - 1) as nat + b == (a + b - 1) as nat);
    } else {
        assert(pow10(0) * pow10(b) == pow10(b)) by (nonlinear_arith)
            requires
                pow10(0) == 1,
        ;
    }
}

/// The amount that is written into an input field for the user stands for
/// exactly the base units it was made from: writing an amount out with all its
/// decimals, trimming the zeros and parsing the text gives the amount back.
pub proof fn law_written_amount_parses_back(amount: nat, d: nat)
    requires
        amount < two256(),
    ensures
        amount_of_text(decimal_zeros_trimmed(units_text(amount, d)), d) == Some(amount),
        amount_of_text(zeros_trimmed(units_text(amount, d)), d) == Some(amount),
{
    let scale = pow10(d);
    lemma_pow10_positive(d);
    let q = amount / scale;
    let r = amount % scale;
    assert(amount == q * scale + r && r < scale) by (nonlinear_arith)
        requires
            scale > 0,
            q == amount / scale,
            r == amount % scale,
    ;
    let whole = dec(q);
    let low = dec(r);
    let f = zero_padded(low, d);
    lemma_dec(q);
    lemma_dec(r);
    lemma_dec_len(r, d);
    let zeros = (f.len() - low.len()) as nat;
    assert(f =~= Seq::new(zeros, |i: int| '0') + low);
    lemma_zeros_in_front(zeros, low);
    assert(dec_value(f) == r);
    assert forall|i: int| 0 <= i < f.len() implies is_digit(#[trigger] f[i]) by {
        if i >= zeros {
            assert(f[i] == low[i - zeros]);
        }
    }
    let text = units_text(amount, d);
    let p = whole + seq!['.'];
    assert(text =~= p + f);
    assert(text[whole.len() as int] == '.');
    assert(text.contains('.'));
    lemma_trim_end_stops(p, f, '0');
    let g = trim_end_char_of(f, '0');
    lemma_trim_end_run(f, '0');
    let tail = (f.len() - g.len()) as nat;
    assert forall|i: int| 0 <= i < g.len() implies is_digit(#[trigger] g[i]) by {
        assert(g[i] == f[i]);
    }
    let once = p + g;
    let t = zeros_trimmed(text);
    assert(is_digit(whole[whole.len() - 1]));
    assert(is_digit(whole[0]));
    if g.len() == 0 {
        assert(once =~= whole + seq!['.']);
        lemma_trim_end_stops(whole, seq!['.'], '.');
        reveal_with_fuel(trim_end_char_of, 2);
        assert(seq!['.'].drop_last() =~= Seq::<char>::empty());
        assert(t =~= whole);
    } else {
        assert(is_digit(g[g.len() - 1]));
        assert(once.last() == g[g.len() - 1]);
        assert(t =~= once);
    }
    assert(t.len() > 0);
    assert(t[0] == whole[0]);
    assert(is_digit(t.last()));
    assert(trim_start_of(t) == t);
    assert(trim_end_of(t) == t);
    assert forall|j: int| 0 <= j < whole.len() implies t[j] != '.' by {
        assert(is_digit(whole[j]));
        assert(t[j] == whole[j]);
    }
    lemma_first_dot_is(t, whole.len() as int);
    assert(whole_part(t) =~= whole);
    assert(fraction_part(t) =~= g);
    // The value: the trimmed fraction, scaled up again, is the whole fraction.
    lemma_value_concat(whole, f);
    lemma_value_concat(whole, g);
    lemma_append_zeros(g, tail);
    if d > 0 {
        assert(f.len() == d);
        let up = pow10((d - g.len()) as nat);
        lemma_pow10_sum(g.len(), (d - g.len()) as nat);
        assert(g.len() + (d - g.len()) as nat == d);
        assert((q * pow10(g.len()) + dec_value(g)) * up == q * scale + dec_value(g) * up)
            by (nonlinear_arith)
            requires
                scale == pow10(g.len()) * up,
        ;
        assert(tail == (d - g.len()) as nat);
        assert(dec_value(whole + g) * up == amount);
    } else {
        assert(scale == 1);
        assert(r == 0);
        assert(low =~= seq!['0']);
        assert(f =~= low);
        assert(f.drop_last() =~= Seq::<char>::empty());
        assert(trim_end_char_of(f, '0') == trim_end_char_of(f.drop_last(), '0'));
        assert(g.len() == 0);
        assert(whole + fraction_part(t) =~= whole);
        assert(amount == q) by (nonlinear_arith)
            requires
                amount == q * scale + r,
                scale == 1,
                r == 0,
        ;
    }
}

// ── the largest amount ──────────────────────────────────────────────────────

/// A token the account holds, as far as sending it is concerned.
#[derive(Debug)]
pub struct Holding {
    /// The balance in base units.
    pub balance_raw: Amount,
    pub decimals: u8,
    /// The token's contract; native coin has none.
    pub contract: Option<Address>,
    /// The balance as it is displayed, with thousands separators.
    pub balance: String,
}

/// The most base units that can be sent: the whole balance, less the gas that a
/// known quote sets aside where the token pays for its own gas.
pub open spec fn max_sendable(h: Holding, gas: Option<Amount>) -> nat {
    if h.contract is None && gas is Some && h.balance_raw@ > gas->0@ {
        (h.balance_raw@ - gas->0@) as nat
    } else {
        h.balance_raw@
    }
}

/// `s` without its commas.
pub open spec fn without_commas(s: Seq<char>) -> Seq<char> {
    s.filter(|c: char| c != ',')
}

/// `s` without its commas.
pub fn drop_commas(s: &str) -> (r: String)
    ensures
        r@ == without_commas(s@),
{
    let v = chars_of(s);
    let mut out = String::new();
    let mut i: usize = 0;
    let ghost keep = |c: char| c != ',';
    assert(v@.take(0).filter(keep) =~= Seq::<char>::empty()) by {
        reveal(Seq::filter);
    }
    while i < v.len()
        invariant
            i <= v.len(),
            keep == (|c: char| c != ','),
            out@ == v@.take(i as int).filter(keep),
        decreases v.len() - i,
    {
        let c = v[i];
        proof {
            assert(v@.take(i + 1).drop_last() =~= v@.take(i as int));
            reveal(Seq::filter);
        }
        if c != ',' {
            out.push(c);
        }
        i += 1;
    }
    assert(v@.take(v@.len() as int) =~= v@);
    out
}

/// The largest amount of `h` that can be sent, as text for the amount field.
/// `gas` is what a loaded quote costs in the native coin.
pub fn compute_max_amount(h: &Holding, gas: Option<Amount>) -> (r: String)
    ensures
        r@ == decimal_zeros_trimmed(
            if h.decimals <= MAX_DECIMALS {
                units_text(max_sendable(*h, gas), h.decimals as nat)
            } else {
                without_commas(h.balance@)
            },
        ),
{
    let raw = h.balance_raw;
    let max_raw = if h.contract.is_none() {
        match gas {
            Some(cost) => if cost.less(&raw) {
                raw.saturating_sub(&cost)
            } else {
                raw
            },
            None => raw,
        }
    } else {
        raw
    };
    let text = match format_units(max_raw, h.decimals) {
        Some(s) => s,
        None => drop_commas(h.balance.as_str()),
    };
    trim_trailing_decimal_zeros(text.as_str())
}

} // verus!
