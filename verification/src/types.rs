//! The values the whole dashboard speaks of: addresses, token amounts, hashes,
//! chains and networks.

use vstd::prelude::*;

use crate::text::{chars_of, join2};
use crate::text::{dec, zero_padded};

verus! {

// ── addresses ───────────────────────────────────────────────────────────────

/// A 20-byte account address: its first four bytes and its last sixteen, each
/// read as a big-endian number.
#[derive(Debug, Clone, Copy, PartialEq, Eq, Structural)]
pub struct Address {
    pub head: u32,
    pub tail: u128,
}

/// Two to the power of 128.
pub open spec fn two128() -> nat {
    0x1_0000_0000_0000_0000_0000_0000_0000_0000nat
}

impl View for Address {
    type V = nat;

    /// The address as one 160-bit number.
    open spec fn view(&self) -> nat {
        self.head as nat * two128() + self.tail as nat
    }
}

/// The number that `s` writes in base 256, most significant byte first.
pub open spec fn be_value(s: Seq<u8>) -> nat
    decreases s.len(),
{
    if s.len() == 0 {
        0
    } else {
        be_value(s.drop_last()) * 256 + s.last() as nat
    }
}

/// Reads up to sixteen bytes as a big-endian number.
fn be_u128(bytes: &[u8; 20], from: usize, to: usize) -> (r: u128)
    requires
        from <= to <= 20,
        to - from <= 16,
    ensures
        r as nat == be_value(bytes@.subrange(from as int, to as int)),
        to - from <= 4 ==> r <= u32::MAX,
{
    let mut r: u128 = 0;
    let mut i: usize = from;
    while i < to
        invariant
            from <= i <= to <= 20,
            to - from <= 16,
            r as nat == be_value(bytes@.subrange(from as int, i as int)),
            i - from == 0 ==> r <= 0,
            i - from == 1 ==> r <= 0xff,
            i - from == 2 ==> r <= 0xffff,
            i - from == 3 ==> r <= 0xff_ffff,
            i - from == 4 ==> r <= 0xffff_ffff,
            i - from == 5 ==> r <= 0xff_ffff_ffff,
            i - from == 6 ==> r <= 0xffff_ffff_ffff,
            i - from == 7 ==> r <= 0xff_ffff_ffff_ffff,
            i - from == 8 ==> r <= 0xffff_ffff_ffff_ffff,
            i - from == 9 ==> r <= 0xff_ffff_ffff_ffff_ffff,
            i - from == 10 ==> r <= 0xffff_ffff_ffff_ffff_ffff,
            i - from == 11 ==> r <= 0xff_ffff_ffff_ffff_ffff_ffff,
            i - from == 12 ==> r <= 0xffff_ffff_ffff_ffff_ffff_ffff,
            i - from == 13 ==> r <= 0xff_ffff_ffff_ffff_ffff_ffff_ffff,
            i - from == 14 ==> r <= 0xffff_ffff_ffff_ffff_ffff_ffff_ffff,
            i - from == 15 ==> r <= 0xff_ffff_ffff_ffff_ffff_ffff_ffff_ffff,
        decreases to - i,
    {
        assert(bytes@.subrange(from as int, i + 1).drop_last() == bytes@.subrange(
            from as int,
            i as int,
        ));
        r = r * 256 + bytes[i] as u128;
        i += 1;
    }
    r
}

impl Address {
    /// The address whose bytes are `bytes`.
    pub fn from_bytes(bytes: [u8; 20]) -> (r: Address)
        ensures
            r.head as nat == be_value(bytes@.subrange(0, 4)),
            r.tail as nat == be_value(bytes@.subrange(4, 20)),
    {
        let head: u128 = be_u128(&bytes, 0, 4);
        let tail: u128 = be_u128(&bytes, 4, 20);
        Address { head: head as u32, tail }
    }

    /// The zero address.
    pub fn zero() -> (r: Address)
        ensures
            r@ == 0,
    {
        Address { head: 0, tail: 0 }
    }

    /// Tells whether this is the zero address.
    pub fn is_zero(&self) -> (b: bool)
        ensures
            b == (self@ == 0),
    {
        self.head == 0 && self.tail == 0
    }
}

// ── hexadecimal ─────────────────────────────────────────────────────────────

/// The value of a hexadecimal digit of either case.
pub open spec fn hex_digit_value(c: char) -> Option<nat> {
    let n = c as u32;
    if 48 <= n <= 57 {
        Some((n - 48) as nat)
    } else if 97 <= n <= 102 {
        Some((n - 87) as nat)
    } else if 65 <= n <= 70 {
        Some((n - 55) as nat)
    } else {
        None
    }
}

/// Every character of `s` is a hexadecimal digit.
pub open spec fn all_hex(s: Seq<char>) -> bool {
    forall|i: int| 0 <= i < s.len() ==> hex_digit_value(#[trigger] s[i]) is Some
}

/// The number that the hexadecimal digits `s` write.
pub open spec fn hex_value(s: Seq<char>) -> nat
    decreases s.len(),
{
    if s.len() == 0 {
        0
    } else {
        hex_value(s.drop_last()) * 16 + hex_digit_value(s.last())->0
    }
}

/// `s` without a leading `0x` or `0X`.
pub open spec fn unprefixed(s: Seq<char>) -> Seq<char> {
    if s.len() >= 2 && s[0] == '0' && (s[1] == 'x' || s[1] == 'X') {
        s.skip(2)
    } else {
        s
    }
}

/// The lower-case hexadecimal digit with value `d`.
pub open spec fn hex_char(d: nat) -> char {
    if d < 10 {
        (48 + d) as char
    } else {
        (87 + d) as char
    }
}

/// The last `width` lower-case hexadecimal digits of `n`.
pub open spec fn hex_digits(n: nat, width: nat) -> Seq<char>
    decreases width,
{
    if width == 0 {
        Seq::empty()
    } else {
        hex_digits(n / 16, (width - 1) as nat).push(hex_char(n % 16))
    }
}

/// The lower-case hexadecimal digit with value `d`.
pub fn hex_char_of(d: u8) -> (c: char)
    requires
        d < 16,
    ensures
        c == hex_char(d as nat),
{
    if d < 10 {
        (48 + d) as char
    } else {
        (87 + d) as char
    }
}

/// Appends the last `width` hexadecimal digits of `n` to `out`.
fn push_hex(out: &mut String, n: u128, width: usize)
    ensures
        final(out)@ == old(out)@ + hex_digits(n as nat, width as nat),
    decreases width,
{
    if width > 0 {
        push_hex(out, n / 16, width - 1);
        out.push(hex_char_of((n % 16) as u8));
        assert(out@ =~= old(out)@ + hex_digits(n as nat, width as nat));
    } else {
        assert(out@ =~= old(out)@ + hex_digits(n as nat, width as nat));
    }
}

/// The text of a hash: `0x` and its 64 lower-case hexadecimal digits.
pub open spec fn hash_hex(h: Hash32) -> Seq<char> {
    seq!['0', 'x'] + hex_digits(h.hi as nat, 32) + hex_digits(h.lo as nat, 32)
}

/// Appends the text of a hash to `out`.
pub fn push_hash(out: &mut String, h: Hash32)
    ensures
        final(out)@ == old(out)@ + hash_hex(h),
{
    out.push('0');
    out.push('x');
    push_hex(out, h.hi, 32);
    push_hex(out, h.lo, 32);
    assert(out@ =~= old(out)@ + hash_hex(h));
}

/// The text of an address: `0x` and its forty lower-case hexadecimal digits.
pub open spec fn address_hex(a: Address) -> Seq<char> {
    seq!['0', 'x'] + hex_digits(a.head as nat, 8) + hex_digits(a.tail as nat, 32)
}

/// The text of an address: `0x` and its forty lower-case hexadecimal digits.
pub fn hex_text(a: Address) -> (s: String)
    ensures
        s@ == address_hex(a),
{
    let mut s = String::new();
    s.push('0');
    s.push('x');
    assert(s@ =~= seq!['0', 'x']);
    push_hex(&mut s, a.head as u128, 8);
    push_hex(&mut s, a.tail, 32);
    s
}

/// The text of an address is 42 characters long.
pub proof fn lemma_address_hex_len(a: Address)
    ensures
        address_hex(a).len() == 42,
{
    lemma_hex_digits_len(a.head as nat, 8);
    lemma_hex_digits_len(a.tail as nat, 32);
}

/// `hex_digits` writes as many digits as it is asked for.
pub proof fn lemma_hex_digits_len(n: nat, width: nat)
    ensures
        hex_digits(n, width).len() == width,
    decreases width,
{
    if width > 0 {
        lemma_hex_digits_len(n / 16, (width - 1) as nat);
    }
}

/// An address with its middle left out: the first six characters of its text,
/// an ellipsis and the last four.
pub open spec fn short_address_of(a: Address) -> Seq<char> {
    address_hex(a).subrange(0, 6) + seq!['…'] + address_hex(a).subrange(38, 42)
}

/// An address with its middle left out.
pub fn short_address(a: Address) -> (s: String)
    ensures
        s@ == short_address_of(a),
{
    let t = hex_text(a);
    proof {
        lemma_address_hex_len(a);
    }
    let v = chars_of(t.as_str());
    let mut s = crate::text::piece(&v, 0, 6);
    s.push('…');
    let tail = crate::text::piece(&v, 38, 42);
    let r = join2(s.as_str(), tail.as_str());
    assert(r@ =~= short_address_of(a));
    r
}

/// The address that a text of forty hexadecimal digits writes, with or without
/// a `0x` in front; no other text writes one.
pub open spec fn address_of_hex(s: Seq<char>) -> Option<Address> {
    let t = unprefixed(s);
    if t.len() == 40 && all_hex(t) {
        Some(
            Address {
                head: hex_value(t.subrange(0, 8)) as u32,
                tail: hex_value(t.subrange(8, 40)) as u128,
            },
        )
    } else {
        None
    }
}

/// How many numbers `width` hexadecimal digits can write.
pub open spec fn pow16(width: nat) -> nat
    decreases width,
{
    if width == 0 {
        1
    } else {
        16 * pow16((width - 1) as nat)
    }
}

/// Digits that are written for a number are read as that number.
pub proof fn lemma_hex_digits_read_back(n: nat, width: nat)
    requires
        n < pow16(width),
    ensures
        hex_digits(n, width).len() == width,
        all_hex(hex_digits(n, width)),
        hex_value(hex_digits(n, width)) == n,
    decreases width,
{
    if width > 0 {
        lemma_hex_digits_read_back(n / 16, (width - 1) as nat);
        let s = hex_digits(n, width);
        assert(s.drop_last() =~= hex_digits(n / 16, (width - 1) as nat));
        assert(hex_digit_value(hex_char(n % 16)) == Some(n % 16));
        assert(s.last() == hex_char(n % 16));
    }
}

/// What is written for an address is read as that address.
pub proof fn law_written_addresses_read_back(a: Address)
    ensures
        address_of_hex(address_hex(a)) == Some(a),
{
    assert(pow16(8) == 0x1_0000_0000) by {
        reveal_with_fuel(pow16, 9);
    }
    assert(pow16(32) == two128()) by {
        reveal_with_fuel(pow16, 33);
    }
    lemma_hex_digits_read_back(a.head as nat, 8);
    lemma_hex_digits_read_back(a.tail as nat, 32);
    let t = unprefixed(address_hex(a));
    assert(t =~= hex_digits(a.head as nat, 8) + hex_digits(a.tail as nat, 32));
    assert(t.subrange(0, 8) =~= hex_digits(a.head as nat, 8));
    assert(t.subrange(8, 40) =~= hex_digits(a.tail as nat, 32));
}

/// `alloy`'s `Address::from_str` reads forty hexadecimal digits of either case,
/// with or without a leading `0x` or `0X`, as the address they write, and
/// refuses everything else. The case of the digits is not checked.
#[verifier::external_body]
pub(crate) fn parse_address(s: &str) -> (r: Option<Address>)
    ensures
        r == address_of_hex(s@),
{
    let a: alloy::primitives::Address = s.parse().ok()?;
    let b = a.into_array();
    let head = u32::from_be_bytes([b[0], b[1], b[2], b[3]]);
    let tail = u128::from_be_bytes(b[4..].try_into().ok()?);
    Some(Address { head, tail })
}

/// The EIP-55 text of an address, by its 160-bit number.
pub uninterp spec fn checksum_of(a: nat) -> Seq<char>;

/// `alloy`'s `Address::to_checksum`, without a chain id. Its result is the
/// EIP-55 text of the address: the same forty digits behind `0x`, some of them
/// in upper case, so that reading it gives the address back.
#[verifier::external_body]
pub(crate) fn checksum(a: Address) -> (s: String)
    ensures
        s@ == checksum_of(a@),
        address_of_hex(s@) == Some(a),
{
    let mut b = [0u8; 20];
    b[..4].copy_from_slice(&a.head.to_be_bytes());
    b[4..].copy_from_slice(&a.tail.to_be_bytes());
    alloy::primitives::Address::from(b).to_checksum(None)
}

// ── amounts ─────────────────────────────────────────────────────────────────

/// A 256-bit token amount in base units: its high and its low half.
#[derive(Debug, Clone, Copy, PartialEq, Eq, Structural)]
pub struct Amount {
    pub hi: u128,
    pub lo: u128,
}

/// Two to the power of 256.
pub open spec fn two256() -> nat {
    0x1_0000_0000_0000_0000_0000_0000_0000_0000_0000_0000_0000_0000_0000_0000_0000_0000nat
}

impl View for Amount {
    type V = nat;

    open spec fn view(&self) -> nat {
        self.hi as nat * two128() + self.lo as nat
    }
}

/// An amount is below two to the power of 256, and the number determines it.
pub proof fn lemma_amount_view(a: Amount, b: Amount)
    ensures
        a@ < two256(),
        a@ == b@ ==> a == b,
{
    assert(a@ < two256()) by (nonlinear_arith)
        requires
            a@ == a.hi as nat * two128() + a.lo as nat,
            a.hi as nat <= u128::MAX,
            a.lo as nat <= u128::MAX,
    ;
    if a@ == b@ {
        assert(a.hi == b.hi) by (nonlinear_arith)
            requires
                a.hi as nat * two128() + a.lo as nat == b.hi as nat * two128() + b.lo as nat,
                (a.lo as nat) < two128(),
                (b.lo as nat) < two128(),
        ;
    }
}

impl Amount {
    /// No tokens.
    pub fn zero() -> (r: Amount)
        ensures
            r@ == 0,
    {
        Amount { hi: 0, lo: 0 }
    }

    /// The amount of `n` base units.
    pub fn of(n: u128) -> (r: Amount)
        ensures
            r@ == n,
    {
        Amount { hi: 0, lo: n }
    }

    /// Tells whether the amount is zero.
    pub fn is_zero(&self) -> (b: bool)
        ensures
            b == (self@ == 0),
    {
        self.hi == 0 && self.lo == 0
    }

    /// Tells whether this amount is smaller than `other`.
    pub fn less(&self, other: &Amount) -> (b: bool)
        ensures
            b == (self@ < other@),
    {
        proof {
            lemma_halves_order(*self, *other);
        }
        self.hi < other.hi || (self.hi == other.hi && self.lo < other.lo)
    }

    /// The sum, or the largest amount where the sum does not fit.
    pub fn saturating_add(&self, other: &Amount) -> (r: Amount)
        ensures
            r@ == if self@ + other@ < two256() {
                self@ + other@
            } else {
                (two256() - 1) as nat
            },
    {
        let (lo, carry) = if self.lo <= u128::MAX - other.lo {
            (self.lo + other.lo, 0u128)
        } else {
            (self.lo - (u128::MAX - other.lo) - 1, 1u128)
        };
        assert(lo as nat + carry as nat * two128() == self.lo as nat + other.lo as nat);
        let ghost hi = self.hi as nat + other.hi as nat + carry as nat;
        assert(self@ + other@ == hi * two128() + lo as nat) by (nonlinear_arith)
            requires
                hi == self.hi as nat + other.hi as nat + carry as nat,
                lo as nat + carry as nat * two128() == self.lo as nat + other.lo as nat,
                self@ == self.hi as nat * two128() + self.lo as nat,
                other@ == other.hi as nat * two128() + other.lo as nat,
        ;
        assert(two256() == two128() * two128());
        if self.hi <= u128::MAX - other.hi && self.hi + other.hi <= u128::MAX - carry {
            assert(hi * two128() + lo as nat <= (two128() - 1) * two128() + two128() - 1)
                by (nonlinear_arith)
                requires
                    hi <= two128() - 1,
                    lo as nat <= two128() - 1,
            ;
            assert((two128() - 1) * two128() + two128() - 1 == two128() * two128() - 1)
                by (nonlinear_arith);
            Amount { hi: self.hi + other.hi + carry, lo }
        } else {
            assert(hi * two128() >= two128() * two128()) by (nonlinear_arith)
                requires
                    hi >= two128(),
            ;
            let r = Amount { hi: u128::MAX, lo: u128::MAX };
            assert(r@ == two256() - 1) by (nonlinear_arith)
                requires
                    r@ == r.hi as nat * two128() + r.lo as nat,
                    r.hi as nat == two128() - 1,
                    r.lo as nat == two128() - 1,
                    two256() == two128() * two128(),
            ;
            r
        }
    }

    /// The difference, or zero where `other` is the larger.
    pub fn saturating_sub(&self, other: &Amount) -> (r: Amount)
        ensures
            r@ == if self@ >= other@ {
                (self@ - other@) as nat
            } else {
                0
            },
    {
        proof {
            lemma_halves_order(*self, *other);
        }
        if self.less(other) {
            Amount::zero()
        } else if self.lo >= other.lo {
            let r = Amount { hi: self.hi - other.hi, lo: self.lo - other.lo };
            assert(r@ == self@ - other@) by (nonlinear_arith)
                requires
                    r.hi == self.hi - other.hi,
                    r.lo == self.lo - other.lo,
                    r@ == r.hi as nat * two128() + r.lo as nat,
                    self@ == self.hi as nat * two128() + self.lo as nat,
                    other@ == other.hi as nat * two128() + other.lo as nat,
            ;
            r
        } else {
            let lo: u128 = u128::MAX - (other.lo - self.lo) + 1;
            let r = Amount { hi: self.hi - other.hi - 1, lo };
            assert(r@ == self@ - other@) by (nonlinear_arith)
                requires
                    r.hi == self.hi - other.hi - 1,
                    r.lo == self.lo - other.lo + two128(),
                    r@ == r.hi as nat * two128() + r.lo as nat,
                    self@ == self.hi as nat * two128() + self.lo as nat,
                    other@ == other.hi as nat * two128() + other.lo as nat,
            ;
            r
        }
    }
}

/// Amounts are ordered by their high halves, and by their low halves where
/// those are equal.
pub proof fn lemma_halves_order(a: Amount, b: Amount)
    ensures
        a.hi < b.hi ==> a@ < b@,
        a.hi == b.hi ==> (a@ < b@ <==> a.lo < b.lo),
{
    if a.hi < b.hi {
        assert(a@ < b@) by (nonlinear_arith)
            requires
                a.hi as nat + 1 <= b.hi as nat,
                a@ == a.hi as nat * two128() + a.lo as nat,
                b@ == b.hi as nat * two128() + b.lo as nat,
                (a.lo as nat) < two128(),
        ;
    }
}

/// Ten to the power of `d`.
pub open spec fn pow10(d: nat) -> nat
    decreases d,
{
    if d == 0 {
        1
    } else {
        10 * pow10((d - 1) as nat)
    }
}

/// A number of base units written out in units of `10^d`: the whole part, a
/// point, and at least `d` digits of fraction.
pub open spec fn units_text(amount: nat, d: nat) -> Seq<char> {
    dec(amount / pow10(d)) + seq!['.'] + zero_padded(dec(amount % pow10(d)), d)
}

/// The most decimals that an amount can be written with.
pub const MAX_DECIMALS: u8 = 77;

/// `alloy`'s `format_units` on a 256-bit number: the whole part, a point and
/// the fraction padded with zeros to `decimals` digits (one digit where there
/// are none). It fails for more than 77 decimals and only then.
#[verifier::external_body]
pub(crate) fn format_units(amount: Amount, decimals: u8) -> (r: Option<String>)
    ensures
        r is Some <==> decimals <= MAX_DECIMALS,
        r matches Some(s) ==> s@ == units_text(amount@, decimals as nat),
{
    let u = alloy::primitives::U256::from_limbs([
        amount.lo as u64, (amount.lo >> 64) as u64, amount.hi as u64, (amount.hi >> 64) as u64,
    ]);
    alloy::primitives::utils::format_units(u, decimals).ok()
}

/// `alloy`'s `U256::from_str_radix` in base ten, on a text of decimal digits:
/// the number they write, or nothing where it does not fit in 256 bits.
#[verifier::external_body]
pub(crate) fn parse_decimal(s: &str) -> (r: Option<Amount>)
    requires
        crate::text::all_digits(s@),
    ensures
        r is Some <==> crate::text::dec_value(s@) < two256(),
        r matches Some(a) ==> a@ == crate::text::dec_value(s@),
{
    let u = alloy::primitives::U256::from_str_radix(s, 10).ok()?;
    let l = u.into_limbs();
    let lo = l[0] as u128 | ((l[1] as u128) << 64);
    let hi = l[2] as u128 | ((l[3] as u128) << 64);
    Some(Amount { hi, lo })
}

/// `alloy`'s `*` on 256-bit numbers, which drops what does not fit.
#[verifier::external_body]
pub(crate) fn wrapping_mul(a: Amount, n: u64) -> (r: Amount)
    ensures
        r@ == (a@ * n as nat) % two256(),
{
    let u = alloy::primitives::U256::from_limbs([
        a.lo as u64, (a.lo >> 64) as u64, a.hi as u64, (a.hi >> 64) as u64,
    ]) * alloy::primitives::U256::from(n);
    let l = u.into_limbs();
    let lo = l[0] as u128 | ((l[1] as u128) << 64);
    let hi = l[2] as u128 | ((l[3] as u128) << 64);
    Amount { hi, lo }
}

/// `alloy`'s `/` on 256-bit numbers, rounding down.
#[verifier::external_body]
pub(crate) fn div(a: Amount, n: u64) -> (r: Amount)
    requires
        n > 0,
    ensures
        r@ == a@ / n as nat,
{
    let u = alloy::primitives::U256::from_limbs([
        a.lo as u64, (a.lo >> 64) as u64, a.hi as u64, (a.hi >> 64) as u64,
    ]) / alloy::primitives::U256::from(n);
    let l = u.into_limbs();
    let lo = l[0] as u128 | ((l[1] as u128) << 64);
    let hi = l[2] as u128 | ((l[3] as u128) << 64);
    Amount { hi, lo }
}

/// A 32-byte hash: its first and its last sixteen bytes.
#[derive(Debug, Clone, Copy, PartialEq, Eq, Structural)]
pub struct Hash32 {
    pub hi: u128,
    pub lo: u128,
}

// ── chains ──────────────────────────────────────────────────────────────────

/// The chains the wallet knows by itself.
#[derive(Debug, Clone, Copy, PartialEq, Eq, Structural)]
pub enum Chain {
    Mainnet,
    Optimism,
    Base,
}

/// A network: one of the built-in chains, or one the user added by chain id.
#[derive(Debug, Clone, Copy, PartialEq, Eq, Structural)]
pub enum NetworkId {
    Builtin(Chain),
    Custom(u64),
}

/// The built-in chains in display order.
pub open spec fn all_chains() -> Seq<Chain> {
    seq![Chain::Mainnet, Chain::Optimism, Chain::Base]
}

impl Chain {
    pub open spec fn id(self) -> u64 {
        match self {
            Chain::Mainnet => 1,
            Chain::Optimism => 10,
            Chain::Base => 8453,
        }
    }

    /// The chain's EIP-155 id.
    pub fn chain_id(self) -> (r: u64)
        ensures
            r == self.id(),
    {
        match self {
            Chain::Mainnet => 1,
            Chain::Optimism => 10,
            Chain::Base => 8453,
        }
    }

    /// The built-in chains in display order.
    pub fn all() -> (r: Vec<Chain>)
        ensures
            r@ == all_chains(),
    {
        let mut v: Vec<Chain> = Vec::new();
        v.push(Chain::Mainnet);
        v.push(Chain::Optimism);
        v.push(Chain::Base);
        assert(v@ =~= all_chains());
        v
    }

    pub open spec fn of_id(id: u64) -> Option<Chain> {
        if id == 1 {
            Some(Chain::Mainnet)
        } else if id == 10 {
            Some(Chain::Optimism)
        } else if id == 8453 {
            Some(Chain::Base)
        } else {
            None
        }
    }

    /// The built-in chain with the given id.
    pub fn from_chain_id(id: u64) -> (r: Option<Chain>)
        ensures
            r == Chain::of_id(id),
    {
        if id == 1 {
            Some(Chain::Mainnet)
        } else if id == 10 {
            Some(Chain::Optimism)
        } else if id == 8453 {
            Some(Chain::Base)
        } else {
            None
        }
    }

    pub open spec fn short_name(self) -> Seq<char> {
        match self {
            Chain::Mainnet => "Mainnet"@,
            Chain::Optimism => "Optimism"@,
            Chain::Base => "Base"@,
        }
    }

    /// The chain's short name.
    pub fn label(self) -> (s: &'static str)
        ensures
            s@ == self.short_name(),
    {
        match self {
            Chain::Mainnet => "Mainnet",
            Chain::Optimism => "Optimism",
            Chain::Base => "Base",
        }
    }

    pub open spec fn long_name(self) -> Seq<char> {
        match self {
            Chain::Mainnet => "Ethereum Mainnet"@,
            Chain::Optimism => "OP Mainnet"@,
            Chain::Base => "Base"@,
        }
    }

    /// The chain's full name.
    pub fn display_name(self) -> (s: &'static str)
        ensures
            s@ == self.long_name(),
    {
        match self {
            Chain::Mainnet => "Ethereum Mainnet",
            Chain::Optimism => "OP Mainnet",
            Chain::Base => "Base",
        }
    }
}

/// A chain is found again by its id.
pub proof fn law_chains_are_found_by_id(c: Chain)
    ensures
        Chain::of_id(c.id()) == Some(c),
{
}

impl NetworkId {
    pub open spec fn id(self) -> u64 {
        match self {
            NetworkId::Builtin(c) => c.id(),
            NetworkId::Custom(id) => id,
        }
    }

    /// The network's EIP-155 chain id.
    pub fn chain_id(self) -> (r: u64)
        ensures
            r == self.id(),
    {
        match self {
            NetworkId::Builtin(c) => c.chain_id(),
            NetworkId::Custom(id) => id,
        }
    }

    /// The built-in chain, where it is one.
    pub fn builtin(self) -> (r: Option<Chain>)
        ensures
            r == match self {
                NetworkId::Builtin(c) => Some(c),
                NetworkId::Custom(_) => None,
            },
    {
        match self {
            NetworkId::Builtin(c) => Some(c),
            NetworkId::Custom(_) => None,
        }
    }
}

} // verus!
