//! The activity pane: the texts of a transaction's row.

use vstd::prelude::*;

use crate::contacts::{contact_position, has_contact, ContactView, ContactsBook};
use crate::text::{dec, decimal, join2, join3, join4};
use crate::types::{short_address, short_address_of, Address, Amount, Chain, Hash32};

verus! {

/// Which way the tokens went, as seen from the account.
#[derive(Debug, Clone, Copy, PartialEq, Eq, Structural)]
pub enum TxDirection {
    In,
    Out,
    SelfTransfer,
}

/// A token transfer inside a transaction.
#[derive(Debug)]
pub struct TokenTransfer {
    pub symbol: String,
    pub decimals: u8,
    pub amount_raw: Amount,
    pub contract: Address,
}

/// A transaction of the account's history.
#[derive(Debug)]
pub struct IndexedTx {
    pub hash: Hash32,
    pub block_number: u64,
    /// In seconds.
    pub timestamp: u64,
    pub from: Address,
    /// The recipient; none where the transaction created a contract.
    pub to: Option<Address>,
    pub value: Amount,
    /// Whether it succeeded.
    pub success: bool,
    pub direction: TxDirection,
    pub method: Option<String>,
    pub token: Option<TokenTransfer>,
    /// The gas that it took, where it is known.
    pub gas_used: Option<u64>,
    /// The price of a unit of gas, where it is known.
    pub gas_price: Option<Amount>,
    pub chain: Chain,
}

impl Clone for TokenTransfer {
    fn clone(&self) -> (r: Self)
        ensures
            r == *self,
    {
        TokenTransfer {
            symbol: self.symbol.clone(),
            decimals: self.decimals,
            amount_raw: self.amount_raw,
            contract: self.contract,
        }
    }
}

impl Clone for IndexedTx {
    fn clone(&self) -> (r: Self)
        ensures
            r == *self,
    {
        IndexedTx {
            hash: self.hash,
            block_number: self.block_number,
            timestamp: self.timestamp,
            from: self.from,
            to: self.to,
            value: self.value,
            success: self.success,
            direction: self.direction,
            method: match &self.method {
                Some(m) => Some(m.clone()),
                None => None,
            },
            token: match &self.token {
                Some(t) => Some(t.clone()),
                None => None,
            },
            gas_used: self.gas_used,
            gas_price: self.gas_price,
            chain: self.chain,
        }
    }
}

// ── times ───────────────────────────────────────────────────────────────────

/// How long ago something was, in words.
pub open spec fn relative_text(now: u64, at: u64) -> Seq<char> {
    let diff = now - at;
    if at == 0 || diff < 60 {
        "just now"@
    } else if diff < 3600 {
        dec((diff / 60) as nat) + " min ago"@
    } else if diff < 7200 {
        dec(1) + " hr"@ + ""@ + " ago"@
    } else if diff < 86400 {
        dec((diff / 3600) as nat) + " hr"@ + "s"@ + " ago"@
    } else if diff < 172800 {
        "Yesterday"@
    } else {
        dec((diff / 86400) as nat) + " days ago"@
    }
}

/// How long ago something was, in words: minutes, hours, yesterday, days. What
/// lies ahead, or is not known, is "just now".
pub fn format_relative(now: u64, at: u64) -> (r: String)
    ensures
        r@ == relative_text(now, at),
{
    if at == 0 || at > now {
        return "just now".to_owned();
    }
    let diff: u64 = now - at;
    if diff < 60 {
        return "just now".to_owned();
    }
    let mins: u64 = diff / 60;
    if mins < 60 {
        let n = decimal(mins);
        return join2(n.as_str(), " min ago");
    }
    let hrs: u64 = mins / 60;
    assert(hrs == diff / 3600);
    if hrs < 24 {
        let n = decimal(hrs);
        let plural = if hrs == 1 {
            ""
        } else {
            "s"
        };
        return join4(n.as_str(), " hr", plural, " ago");
    }
    let days: u64 = hrs / 24;
    assert(days == diff / 86400);
    if days == 1 {
        return "Yesterday".to_owned();
    }
    let n = decimal(days);
    join2(n.as_str(), " days ago")
}

// ── amounts ─────────────────────────────────────────────────────────────────

/// The sign of an amount: what came in is added, what went out taken away.
pub open spec fn sign(recv: bool) -> Seq<char> {
    if recv {
        "+"@
    } else {
        "−"@
    }
}

/// The symbol of a token, or a stand-in where it has none.
pub open spec fn token_symbol(t: TokenTransfer) -> Seq<char> {
    if t.symbol@.len() == 0 {
        "tokens"@
    } else {
        t.symbol@
    }
}

/// The amount column for a token transfer; `shown` is the amount's display
/// text.
pub fn format_token_amount(tok: &TokenTransfer, recv: bool, shown: &str) -> (r: String)
    ensures
        r@ == if tok.amount_raw@ == 0 {
            "0 "@ + token_symbol(*tok)
        } else {
            sign(recv) + shown@ + " "@ + token_symbol(*tok)
        },
{
    let symbol = if tok.symbol.as_str().is_empty() {
        "tokens".to_owned()
    } else {
        tok.symbol.clone()
    };
    if tok.amount_raw.is_zero() {
        return join2("0 ", symbol.as_str());
    }
    let s = if recv {
        "+"
    } else {
        "−"
    };
    join4(s, shown, " ", symbol.as_str())
}

/// The amount column: the token transfer where there is one, else the native
/// coin. A transaction that moves no coin shows no sign, so that a contract call
/// does not look like a transfer.
pub fn format_amount(tx: &IndexedTx, recv: bool, shown: &str) -> (r: String)
    ensures
        r@ == match tx.token {
            Some(tok) => if tok.amount_raw@ == 0 {
                "0 "@ + token_symbol(tok)
            } else {
                sign(recv) + shown@ + " "@ + token_symbol(tok)
            },
            None => if tx.value@ == 0 {
                "0 ETH"@
            } else {
                sign(recv) + shown@ + " ETH"@
            },
        },
{
    match &tx.token {
        Some(tok) => format_token_amount(tok, recv, shown),
        None => {
            if tx.value.is_zero() {
                return "0 ETH".to_owned();
            }
            let s = if recv {
                "+"
            } else {
                "−"
            };
            join3(s, shown, " ETH")
        },
    }
}

// ── rows ────────────────────────────────────────────────────────────────────

/// The other side of a transaction.
pub open spec fn counterparty(tx: IndexedTx, owner: Address) -> Address {
    match tx.direction {
        TxDirection::In => tx.from,
        TxDirection::Out => match tx.to {
            Some(a) => a,
            None => owner,
        },
        TxDirection::SelfTransfer => owner,
    }
}

/// How an address is called: by its contact's name, else by its short text.
pub open spec fn called(a: Address, book: Seq<ContactView>) -> Seq<char> {
    if has_contact(book, a) {
        book[contact_position(book, a)].name
    } else {
        short_address_of(a)
    }
}

/// The label of a transaction's row.
pub open spec fn row_text(tx: IndexedTx, owner: Address, book: Seq<ContactView>) -> Seq<char> {
    let who = if tx.to is None && tx.direction == TxDirection::Out {
        "contract creation"@
    } else {
        called(counterparty(tx, owner), book)
    };
    match tx.direction {
        TxDirection::In => "From "@ + who,
        TxDirection::Out => "To "@ + who,
        TxDirection::SelfTransfer => "Self "@ + who,
    }
}

/// What a transaction's row shows.
#[derive(Debug)]
pub struct TxRow {
    pub label: String,
    pub method: String,
    /// Tokens came in: the amount is marked as a gain.
    pub gain: bool,
    pub kaomoji: &'static str,
}

/// What a transaction's row shows.
pub fn tx_row(tx: &IndexedTx, owner: Address, contacts: &ContactsBook) -> (r: TxRow)
    ensures
        r.label@ == row_text(*tx, owner, contacts@),
        r.method@ == match tx.method {
            Some(m) => m@,
            None => "transfer"@,
        },
        r.gain == (tx.direction != TxDirection::Out && (match tx.token {
            Some(tok) => tok.amount_raw@ != 0,
            None => tx.value@ != 0,
        })),
        r.kaomoji@ == match tx.direction {
            TxDirection::In => "(っ◕‿◕)っ"@,
            TxDirection::Out => "ᕕ( ᐛ )ᕗ"@,
            TxDirection::SelfTransfer => "(･ω･)ﾉ"@,
        },
{
    let addr = match tx.direction {
        TxDirection::In => tx.from,
        TxDirection::Out => match tx.to {
            Some(a) => a,
            None => owner,
        },
        TxDirection::SelfTransfer => owner,
    };
    let who = if tx.to.is_none() && tx.direction == TxDirection::Out {
        "contract creation".to_owned()
    } else {
        match contacts.name_for(addr) {
            Some(n) => n,
            None => short_address(addr),
        }
    };
    let label = match tx.direction {
        TxDirection::In => join2("From ", who.as_str()),
        TxDirection::Out => join2("To ", who.as_str()),
        TxDirection::SelfTransfer => join2("Self ", who.as_str()),
    };
    let method = match &tx.method {
        Some(m) => m.clone(),
        None => "transfer".to_owned(),
    };
    let moved = match &tx.token {
        Some(tok) => !tok.amount_raw.is_zero(),
        None => !tx.value.is_zero(),
    };
    let gain = tx.direction != TxDirection::Out && moved;
    let kaomoji = match tx.direction {
        TxDirection::In => "(っ◕‿◕)っ",
        TxDirection::Out => "ᕕ( ᐛ )ᕗ",
        TxDirection::SelfTransfer => "(･ω･)ﾉ",
    };
    TxRow { label, method, gain, kaomoji }
}

/// What the activity pane shows.
#[derive(Debug, Clone, Copy, PartialEq, Eq, Structural)]
pub enum ActivityBody {
    Loading,
    Empty,
    Rows,
}

/// What the activity pane shows.
pub fn activity_body(loading: bool, count: usize) -> (r: ActivityBody)
    ensures
        r == if loading {
            ActivityBody::Loading
        } else if count == 0 {
            ActivityBody::Empty
        } else {
            ActivityBody::Rows
        },
{
    if loading {
        ActivityBody::Loading
    } else if count == 0 {
        ActivityBody::Empty
    } else {
        ActivityBody::Rows
    }
}

} // verus!
