//! The home pane: network and symbol names, the list of pending Safe
//! transactions, and the texts of the balance rows.

use vstd::prelude::*;

use crate::activity::{format_relative, relative_text};
use crate::portfolio::LiveToken;
use crate::sanitize::{sanitize_display, sanitized, MAX_TOKEN_NAME_CHARS};
use crate::text::{dec, decimal, join2, join3, join4, zero_padded};
use crate::types::{short_address, short_address_of, Address, Amount, Chain, Hash32, NetworkId};

verus! {

// ── network names ───────────────────────────────────────────────────────────

/// A network that the user added.
#[derive(Debug)]
pub struct CustomNetwork {
    pub chain_id: u64,
    pub name: String,
}

/// The name that the user gave to a network, where it is still configured.
pub open spec fn custom_name(networks: Seq<CustomNetwork>, id: u64) -> Option<Seq<char>>
    decreases networks.len(),
{
    if networks.len() == 0 {
        None
    } else if networks[0].chain_id == id {
        Some(networks[0].name@)
    } else {
        custom_name(networks.drop_first(), id)
    }
}

/// The name that the user gave to a network, where it is still configured.
fn find_custom(networks: &Vec<CustomNetwork>, id: u64) -> (r: Option<String>)
    ensures
        match r {
            Some(n) => custom_name(networks@, id) == Some(n@),
            None => custom_name(networks@, id) is None,
        },
{
    let mut i: usize = 0;
    assert(networks@.skip(0) =~= networks@);
    while i < networks.len()
        invariant
            i <= networks.len(),
            custom_name(networks@.skip(i as int), id) == custom_name(networks@, id),
        decreases networks.len() - i,
    {
        assert(networks@.skip(i as int).drop_first() =~= networks@.skip(i + 1));
        if networks[i].chain_id == id {
            return Some(networks[i].name.clone());
        }
        i += 1;
    }
    None
}

/// A network's name as the user typed it, made safe to show.
pub fn sanitize_network_name(name: &str) -> (r: String)
    ensures
        r@ == sanitized(name@, MAX_TOKEN_NAME_CHARS as nat),
{
    sanitize_display(name, MAX_TOKEN_NAME_CHARS)
}

/// The short name of a network: a chain's label, the name that the user gave,
/// or the chain id where the network is no longer configured.
pub open spec fn network_name(network: NetworkId, networks: Seq<CustomNetwork>) -> Seq<char> {
    match network {
        NetworkId::Builtin(c) => c.short_name(),
        NetworkId::Custom(id) => match custom_name(networks, id) {
            Some(n) => sanitized(n, MAX_TOKEN_NAME_CHARS as nat),
            None => "chain "@ + dec(id as nat),
        },
    }
}

/// The short name of a network.
pub fn network_label(network: NetworkId, networks: &Vec<CustomNetwork>) -> (r: String)
    ensures
        r@ == network_name(network, networks@),
{
    match network {
        NetworkId::Builtin(c) => c.label().to_owned(),
        NetworkId::Custom(id) => match find_custom(networks, id) {
            Some(n) => sanitize_network_name(n.as_str()),
            None => {
                let digits = decimal(id);
                join2("chain ", digits.as_str())
            },
        },
    }
}

/// The long name of a network. A network that the user added has no other name
/// than its short one.
pub fn network_display_name(network: NetworkId, networks: &Vec<CustomNetwork>) -> (r: String)
    ensures
        r@ == match network {
            NetworkId::Builtin(c) => c.long_name(),
            NetworkId::Custom(_) => network_name(network, networks@),
        },
{
    match network {
        NetworkId::Builtin(c) => c.display_name().to_owned(),
        NetworkId::Custom(_) => network_label(network, networks),
    }
}

/// A token's symbol, followed by its network where that is not Mainnet.
pub open spec fn symbol_text(
    symbol: Seq<char>,
    network: NetworkId,
    networks: Seq<CustomNetwork>,
) -> Seq<char> {
    if network == NetworkId::Builtin(Chain::Mainnet) {
        symbol
    } else {
        symbol + " ("@ + network_name(network, networks) + ")"@
    }
}

/// A token's symbol, followed by its network where that is not Mainnet.
pub fn format_symbol(symbol: &str, network: NetworkId, networks: &Vec<CustomNetwork>) -> (r: String)
    ensures
        r@ == symbol_text(symbol@, network, networks@),
{
    match network {
        NetworkId::Builtin(Chain::Mainnet) => symbol.to_owned(),
        _ => {
            let name = network_label(network, networks);
            join4(symbol, " (", name.as_str(), ")")
        },
    }
}

// ── balances ────────────────────────────────────────────────────────────────

/// A number with a comma between each three digits.
pub open spec fn grouped(n: nat) -> Seq<char>
    decreases n,
{
    if n < 1000 {
        dec(n)
    } else {
        grouped(n / 1000) + seq![','] + zero_padded(dec(n % 1000), 3)
    }
}

/// An amount of dollars, with thousands grouped and two decimals. A debt of at
/// least a dollar has a sign.
pub open spec fn usd_text(cents: int) -> Seq<char> {
    let size: nat = if cents < 0 {
        (-cents) as nat
    } else {
        cents as nat
    };
    let amount = grouped(size / 100) + seq!['.'] + zero_padded(dec(size % 100), 2);
    if cents <= -100 {
        seq!['-'] + amount
    } else {
        amount
    }
}

/// The numeral of a number below a thousand, padded with zeros to `width`.
fn padded(n: u64, width: usize) -> (r: String)
    requires
        n < 1000,
        width <= 3,
    ensures
        r@ == zero_padded(dec(n as nat), width as nat),
{
    let digits = decimal(n);
    let len: usize = if n < 10 {
        1
    } else if n < 100 {
        2
    } else {
        3
    };
    proof {
        reveal_with_fuel(dec, 3);
        assert(digits@.len() == len);
    }
    let mut out = String::new();
    let mut i: usize = len;
    assert(out@ =~= Seq::new(0, |i: int| '0'));
    while i < width
        invariant
            width <= 3,
            len <= i,
            i <= width || i == len,
            out@ == Seq::new((i - len) as nat, |i: int| '0'),
        decreases width - i,
    {
        out.push('0');
        i += 1;
        assert(out@ =~= Seq::new((i - len) as nat, |i: int| '0'));
    }
    let r = join2(out.as_str(), digits.as_str());
    assert(r@ =~= zero_padded(dec(n as nat), width as nat));
    r
}

/// A number with a comma between each three digits.
fn group(n: u64) -> (r: String)
    ensures
        r@ == grouped(n as nat),
    decreases n,
{
    if n < 1000 {
        decimal(n)
    } else {
        let front = group(n / 1000);
        let back = padded(n % 1000, 3);
        proof {
            reveal_strlit(",");
            assert(","@ =~= seq![',']);
        }
        join3(front.as_str(), ",", back.as_str())
    }
}

/// An amount of dollars, given in cents, with thousands grouped and two
/// decimals.
pub fn format_usd(cents: i64) -> (r: String)
    ensures
        r@ == usd_text(cents as int),
{
    let size: u64 = if cents < 0 {
        (-(cents + 1)) as u64 + 1
    } else {
        cents as u64
    };
    let whole = group(size / 100);
    let part = padded(size % 100, 2);
    proof {
        reveal_strlit(".");
        reveal_strlit("-");
        assert("."@ =~= seq!['.']);
        assert("-"@ =~= seq!['-']);
    }
    let amount = join3(whole.as_str(), ".", part.as_str());
    if cents <= -100 {
        join2("-", amount.as_str())
    } else {
        amount
    }
}

/// The texts of a balance row.
#[derive(Debug)]
pub struct TokenRow {
    /// The balance with its symbol and network.
    pub holding: String,
    /// The value in dollars, or a dash where there is no price.
    pub value: String,
}

/// The texts of a balance row; `cents` is the balance's value.
pub fn token_row(t: &LiveToken, cents: i64, networks: &Vec<CustomNetwork>) -> (r: TokenRow)
    ensures
        r.holding@ == t.balance@ + " "@ + symbol_text(t.symbol@, t.chain, networks@),
        r.value@ == if t.priced {
            "$"@ + usd_text(cents as int)
        } else {
            "—"@
        },
{
    let symbol = format_symbol(t.symbol.as_str(), t.chain, networks);
    let holding = join3(t.balance.as_str(), " ", symbol.as_str());
    let value = if t.priced {
        let usd = format_usd(cents);
        join2("$", usd.as_str())
    } else {
        "—".to_owned()
    };
    TokenRow { holding, value }
}

/// The refresh button: what it says, and whether it can be pressed. While a
/// refresh is running it cannot, so that none is queued behind it.
pub fn refresh_button(refreshing: bool) -> (r: (&'static str, bool))
    ensures
        r.0@ == if refreshing {
            "(；・∀・) refreshing"@
        } else {
            "↻ refresh"@
        },
        r.1 == !refreshing,
{
    if refreshing {
        ("(；・∀・) refreshing", false)
    } else {
        ("↻ refresh", true)
    }
}

// ── pending Safe transactions ───────────────────────────────────────────────

/// Where a Safe transaction stands.
#[derive(Debug, Clone, Copy, PartialEq, Eq, Structural)]
pub enum SafeTxState {
    AwaitingConfirmations { have: u32, required: u32 },
    AwaitingExecution { is_next: bool },
    Replaced,
    Executed { success: bool },
}

/// A transaction in a Safe's queue.
#[derive(Debug)]
pub struct PendingSafeTx {
    pub safe_tx_hash: Hash32,
    pub to: Address,
    pub value: Amount,
    pub data: Vec<u8>,
    /// Zero for a call, anything else for a delegatecall.
    pub operation: u8,
    pub nonce: u64,
    pub state: SafeTxState,
    /// When it was proposed, in seconds; zero where that is not known.
    pub submission_ts: u64,
}

/// What the section of pending transactions shows.
#[derive(Debug, Clone, Copy, PartialEq, Eq, Structural)]
pub enum PendingSection {
    /// Nothing to say: the section is left out.
    Hidden,
    Loading,
    Failed,
    Rows,
}

/// What the section of pending transactions shows. A queue that is there is
/// shown whatever else is going on.
pub open spec fn pending_shown(count: nat, loading: bool, failed: bool) -> PendingSection {
    if count > 0 {
        PendingSection::Rows
    } else if loading {
        PendingSection::Loading
    } else if failed {
        PendingSection::Failed
    } else {
        PendingSection::Hidden
    }
}

/// What the section of pending transactions shows.
pub fn pending_section(count: usize, loading: bool, failed: bool) -> (r: PendingSection)
    ensures
        r == pending_shown(count as nat, loading, failed),
{
    if count > 0 {
        PendingSection::Rows
    } else if loading {
        PendingSection::Loading
    } else if failed {
        PendingSection::Failed
    } else {
        PendingSection::Hidden
    }
}

/// The texts of a pending transaction's row.
#[derive(Debug)]
pub struct PendingRow {
    pub title: String,
    pub meta: String,
    /// A delegatecall is never shown as a plain transfer.
    pub warning: Option<&'static str>,
    pub badge: String,
}

/// The badge of a pending transaction.
pub open spec fn badge_text(state: SafeTxState) -> Seq<char> {
    match state {
        SafeTxState::AwaitingConfirmations { have, required } => dec(have as nat) + "/"@ + dec(
            required as nat,
        ) + " signatures"@,
        SafeTxState::AwaitingExecution { is_next } => if is_next {
            "Ready to execute"@
        } else {
            "Queued"@
        },
        SafeTxState::Replaced => "Replaced"@,
        SafeTxState::Executed { success } => if success {
            "Executed"@
        } else {
            "Failed"@
        },
    }
}

/// The badge of a pending transaction.
pub fn status_badge(state: SafeTxState) -> (r: String)
    ensures
        r@ == badge_text(state),
{
    match state {
        SafeTxState::AwaitingConfirmations { have, required } => {
            let a = decimal(have as u64);
            let b = decimal(required as u64);
            join4(a.as_str(), "/", b.as_str(), " signatures")
        },
        SafeTxState::AwaitingExecution { is_next } => if is_next {
            "Ready to execute".to_owned()
        } else {
            "Queued".to_owned()
        },
        SafeTxState::Replaced => "Replaced".to_owned(),
        SafeTxState::Executed { success } => if success {
            "Executed".to_owned()
        } else {
            "Failed".to_owned()
        },
    }
}

/// The texts of a pending transaction's row, as of `now`.
pub fn pending_row(tx: &PendingSafeTx, now: u64) -> (r: PendingRow)
    ensures
        r.title@ == "To "@ + short_address_of(tx.to),
        r.meta@ == if tx.submission_ts > 0 {
            "nonce "@ + dec(tx.nonce as nat) + " · "@ + relative_text(now, tx.submission_ts)
        } else {
            "nonce "@ + dec(tx.nonce as nat)
        },
        tx.operation == 0 ==> r.warning is None,
        tx.operation != 0 ==> (r.warning matches Some(w) && w@ == "⚠ delegatecall"@),
        r.badge@ == badge_text(tx.state),
{
    let short = short_address(tx.to);
    let title = join2("To ", short.as_str());
    let n = decimal(tx.nonce);
    let meta = if tx.submission_ts > 0 {
        let ago = format_relative(now, tx.submission_ts);
        join4("nonce ", n.as_str(), " · ", ago.as_str())
    } else {
        join2("nonce ", n.as_str())
    };
    let warning = if tx.operation != 0 {
        Some("⚠ delegatecall")
    } else {
        None
    };
    PendingRow { title, meta, warning, badge: status_badge(tx.state) }
}

} // verus!
