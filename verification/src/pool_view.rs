//! What the Privacy Pools app shows: the rows, texts and presets of its screens.

use vstd::prelude::*;

use crate::amounts::{amount_of_text, parse_amount, trim_zeros, zeros_trimmed};
use crate::keys::Listening;
use crate::pool_app::{
    opt_text, PoolAccount, PoolApp, PoolInfo, PoolModel, Screen, Target, TargetResolution,
};
use crate::portfolio::LiveToken;
use crate::text::{ascii_lower, can_cut, dec, lower, middle_cut, texts, trimmed, words_of};
use crate::text::{chars_of, cut_middle, decimal, join2, join3, join4, trim, words};
use crate::types::{checksum, div, format_units, short_address, wrapping_mul};
use crate::types::{
    checksum_of, short_address_of, two256, units_text, Address, Amount, Chain, Hash32, MAX_DECIMALS,
};

verus! {

// ── when to animate ─────────────────────────────────────────────────────────

/// The overview is waiting for its first pools.
pub open spec fn loading_pools(s: PoolModel) -> bool {
    s.screen == Screen::Overview && s.syncing && s.pools.len() == 0
}

/// The overview shows a deposit under way.
pub open spec fn animating_deposit(s: PoolModel) -> bool {
    s.screen == Screen::Overview && s.depositing != Map::<Address, ()>::empty()
}

/// Something on the pane's screen moves.
pub open spec fn pool_moves(s: PoolModel) -> bool {
    s.screen == Screen::Proving || loading_pools(s) || animating_deposit(s)
}

/// The pane's screen wants the keyboard: it can be left with a key, or it moves.
pub open spec fn pool_hears_keys(s: PoolModel) -> bool {
    pool_moves(s) || (s.screen != Screen::Setup && s.screen != Screen::Overview)
}

impl PoolApp {
    /// Whether the overview is waiting for its first pools.
    pub fn is_loading_pools(&self) -> (b: bool)
        ensures
            b == loading_pools(self@),
    {
        self.screen == Screen::Overview && self.syncing && self.pools.len() == 0
    }

    /// Whether the overview shows a deposit under way.
    pub fn is_animating_deposit(&self) -> (b: bool)
        ensures
            b == animating_deposit(self@),
    {
        self.screen == Screen::Overview && !self.depositing_pools.is_empty()
    }

    /// What the pane listens to: keys on every screen that can be left with one,
    /// and frames while something moves.
    pub fn subscription(&self) -> (r: Listening)
        ensures
            r.frames == pool_moves(self@),
            r.keys == pool_hears_keys(self@),
    {
        let frames = self.screen == Screen::Proving || self.is_loading_pools()
            || self.is_animating_deposit();
        let keys = frames || (self.screen != Screen::Setup && self.screen != Screen::Overview);
        Listening { keys, frames }
    }
}

/// What the overview has below its tabs.
#[derive(Debug, Clone, Copy, PartialEq, Eq, Structural)]
pub enum OverviewBody {
    /// Placeholders, while the first pools are on their way.
    Loading,
    /// There are no pools on the chain.
    Empty,
    Cards,
}

impl PoolApp {
    /// What the overview has below its tabs.
    pub fn overview_body(&self) -> (r: OverviewBody)
        ensures
            r == if self@.pools.len() > 0 {
                OverviewBody::Cards
            } else if self@.syncing {
                OverviewBody::Loading
            } else {
                OverviewBody::Empty
            },
    {
        if self.pools.len() > 0 {
            OverviewBody::Cards
        } else if self.syncing {
            OverviewBody::Loading
        } else {
            OverviewBody::Empty
        }
    }

    /// Whether the restore form looks ready to be submitted.
    pub fn can_restore(&self) -> (b: bool)
        ensures
            b == (trimmed(self@.restore_input).len() > 0),
    {
        let t = trim(self.restore_input.as_str());
        !t.as_str().is_empty()
    }

    /// Whether the deposit form looks ready to be reviewed.
    pub fn can_review_deposit(&self) -> (b: bool)
        ensures
            b == (trimmed(self@.deposit_amount).len() > 0),
    {
        let t = trim(self.deposit_amount.as_str());
        !t.as_str().is_empty()
    }
}

/// The chains that have pools, in display order.
pub fn pool_chains() -> (r: Vec<Chain>)
    ensures
        r@ == seq![Chain::Mainnet, Chain::Optimism],
{
    let mut v: Vec<Chain> = Vec::new();
    v.push(Chain::Mainnet);
    v.push(Chain::Optimism);
    assert(v@ =~= seq![Chain::Mainnet, Chain::Optimism]);
    v
}

// ── pool cards ──────────────────────────────────────────────────────────────

/// A pool account with something to spend.
#[derive(Debug, Clone, Copy)]
pub struct AccountRow {
    /// The account's index in the pool.
    pub index: usize,
    pub balance: Amount,
    /// Whether its deposit is approved; nothing where the feed was not asked.
    pub approved: Option<bool>,
}

/// Whether a label is approved, where the pool has been checked.
pub open spec fn approval(approvals: Option<Seq<Hash32>>, label: Hash32) -> Option<bool> {
    match approvals {
        Some(labels) => Some(labels.contains(label)),
        None => None,
    }
}

/// The rows of a pool's accounts: those with something to spend, in order.
pub open spec fn rows_of(accounts: Seq<PoolAccount>, approvals: Option<Seq<Hash32>>) -> Seq<
    AccountRow,
>
    decreases accounts.len(),
{
    if accounts.len() == 0 {
        Seq::empty()
    } else {
        let before = rows_of(accounts.drop_last(), approvals);
        match accounts.last().spendable {
            Some(balance) => before.push(
                AccountRow {
                    index: (accounts.len() - 1) as usize,
                    balance,
                    approved: approval(approvals, accounts.last().label),
                },
            ),
            None => before,
        }
    }
}

/// Tells whether a label is in a list.
fn has_label(labels: &Vec<Hash32>, label: Hash32) -> (b: bool)
    ensures
        b == labels@.contains(label),
{
    let mut i: usize = 0;
    while i < labels.len()
        invariant
            i <= labels.len(),
            forall|j: int| 0 <= j < i ==> labels@[j] != label,
        decreases labels.len() - i,
    {
        if labels[i] == label {
            return true;
        }
        i += 1;
    }
    false
}

impl AccountRow {
    /// Whether a withdrawal can be started: not while the deposit is known to
    /// be under review. Without an answer from the feed it can.
    pub fn can_withdraw(&self) -> (b: bool)
        ensures
            b == (self.approved != Some(false)),
    {
        match self.approved {
            Some(ok) => ok,
            None => true,
        }
    }

    /// The account's name on the card.
    pub fn label(&self) -> (r: String)
        requires
            self.index < usize::MAX,
        ensures
            r@ == "PA-"@ + dec((self.index + 1) as nat),
    {
        let n = decimal((self.index + 1) as u64);
        join2("PA-", n.as_str())
    }

    /// What the card says about the approval, where the feed was asked.
    pub fn badge(&self) -> (r: Option<&'static str>)
        ensures
            match (self.approved, r) {
                (Some(true), Some(s)) => s@ == "✓ approved"@,
                (Some(false), Some(s)) => s@ == "⏱ pending review"@,
                (None, None) => true,
                _ => false,
            },
    {
        match self.approved {
            Some(true) => Some("✓ approved"),
            Some(false) => Some("⏱ pending review"),
            None => None,
        }
    }
}

/// A withdrawal can be started from a row unless the pool was checked and the
/// row's deposit is not among the approved ones.
pub proof fn law_unknown_approval_never_blocks(accounts: Seq<PoolAccount>, i: int)
    requires
        0 <= i < rows_of(accounts, None).len(),
    ensures
        rows_of(accounts, None)[i].approved is None,
    decreases accounts.len(),
{
    let before = rows_of(accounts.drop_last(), None);
    if i < before.len() {
        law_unknown_approval_never_blocks(accounts.drop_last(), i);
    }
}

impl PoolApp {
    /// The rows of a pool's accounts.
    pub fn account_rows(&self, info: &PoolInfo) -> (r: Vec<AccountRow>)
        ensures
            r@ == if self@.states.dom().contains(info.pool) {
                rows_of(
                    self@.states[info.pool].accounts@,
                    if self@.approvals.dom().contains(info.pool) {
                        Some(self@.approvals[info.pool]@)
                    } else {
                        None
                    },
                )
            } else {
                Seq::empty()
            },
    {
        let mut out: Vec<AccountRow> = Vec::new();
        let approvals = self.approvals.get(&info.pool);
        let ghost labels: Option<Seq<Hash32>> = match approvals {
            Some(v) => Some(v@),
            None => None,
        };
        match self.states.get(&info.pool) {
            Some(state) => {
                let mut i: usize = 0;
                while i < state.accounts.len()
                    invariant
                        i <= state.accounts.len(),
                        labels == match approvals {
                            Some(v) => Some(v@),
                            None => None,
                        },
                        out@ == rows_of(state.accounts@.take(i as int), labels),
                    decreases state.accounts.len() - i,
                {
                    let a = state.accounts[i];
                    assert(state.accounts@.take(i + 1).drop_last() =~= state.accounts@.take(
                        i as int,
                    ));
                    if let Some(balance) = a.spendable {
                        let approved = match approvals {
                            Some(v) => Some(has_label(v, a.label)),
                            None => None,
                        };
                        out.push(AccountRow { index: i, balance, approved });
                    }
                    i += 1;
                }
                assert(state.accounts@.take(state.accounts@.len() as int) =~= state.accounts@);
            },
            None => {},
        }
        out
    }

    /// Whether a deposit into the pool is under way.
    pub fn is_depositing(&self, info: &PoolInfo) -> (b: bool)
        ensures
            b == self@.depositing.dom().contains(info.pool),
    {
        self.depositing_pools.contains(&info.pool)
    }
}

impl PoolInfo {
    /// The size of the anonymity set, as the card shows it.
    pub fn anonymity_line(&self) -> (r: String)
        ensures
            r@ == "anon set "@ + dec(self.anonymity_set as nat),
    {
        let n = decimal(self.anonymity_set);
        join2("anon set ", n.as_str())
    }

    /// Whether the pool's contracts are verified, as the card shows it.
    pub fn verified_line(&self) -> (r: &'static str)
        ensures
            r@ == if self.verified {
                "verified"@
            } else {
                "unverified"@
            },
    {
        if self.verified {
            "verified"
        } else {
            "unverified"
        }
    }

    /// The smallest deposit, as the card shows it; `shown` is the amount's
    /// display text.
    pub fn min_line(&self, shown: &str) -> (r: String)
        ensures
            r@ == "min "@ + zeros_trimmed(shown@) + " "@ + self.symbol@,
    {
        let n = trim_zeros(shown);
        join4("min ", n.as_str(), " ", self.symbol.as_str())
    }
}

// ── deposit ─────────────────────────────────────────────────────────────────

/// A token is the one that the pool takes.
pub open spec fn is_pool_token(t: LiveToken, info: PoolInfo) -> bool {
    &&& t.chain.id() == info.chain.id()
    &&& if info.is_native {
        t.contract is None
    } else {
        t.contract == Some(info.asset)
    }
}

/// The balance of the first token that the pool takes.
pub open spec fn pool_token_balance(portfolio: Seq<LiveToken>, info: PoolInfo) -> Option<Amount>
    decreases portfolio.len(),
{
    if portfolio.len() == 0 {
        None
    } else if is_pool_token(portfolio[0], info) {
        Some(portfolio[0].balance_raw)
    } else {
        pool_token_balance(portfolio.drop_first(), info)
    }
}

/// What the depositor holds of the pool's token; nothing where it is not held,
/// or where the chain's balances are not loaded.
pub fn deposit_balance(info: &PoolInfo, portfolio: &Vec<LiveToken>) -> (r: Option<Amount>)
    ensures
        r == pool_token_balance(portfolio@, *info),
{
    let mut i: usize = 0;
    assert(portfolio@.skip(0) =~= portfolio@);
    while i < portfolio.len()
        invariant
            i <= portfolio.len(),
            pool_token_balance(portfolio@.skip(i as int), *info) == pool_token_balance(
                portfolio@,
                *info,
            ),
        decreases portfolio.len() - i,
    {
        let t = &portfolio[i];
        let fits = t.chain.chain_id() == info.chain.chain_id() && (if info.is_native {
            t.contract.is_none()
        } else {
            match t.contract {
                Some(c) => c == info.asset,
                None => false,
            }
        });
        assert(portfolio@.skip(i as int).drop_first() =~= portfolio@.skip(i + 1));
        if fits {
            return Some(t.balance_raw);
        }
        i += 1;
    }
    None
}

/// The text of the "Min" preset: the pool's smallest deposit, exactly.
pub fn min_preset(info: &PoolInfo) -> (r: String)
    ensures
        r@ == if info.decimals <= MAX_DECIMALS {
            zeros_trimmed(units_text(info.min_deposit@, info.decimals as nat))
        } else {
            Seq::empty()
        },
{
    match format_units(info.min_deposit, info.decimals) {
        Some(s) => trim_zeros(s.as_str()),
        None => String::new(),
    }
}

/// The text of the "Max" preset: all that is held of the pool's token, exactly.
pub fn max_preset(info: &PoolInfo, portfolio: &Vec<LiveToken>) -> (r: Option<String>)
    ensures
        opt_text(r) == match pool_token_balance(portfolio@, *info) {
            Some(bal) => if info.decimals <= MAX_DECIMALS {
                Some(zeros_trimmed(units_text(bal@, info.decimals as nat)))
            } else {
                None
            },
            None => None,
        },
{
    match deposit_balance(info, portfolio) {
        Some(bal) => match format_units(bal, info.decimals) {
            Some(s) => Some(trim_zeros(s.as_str())),
            None => None,
        },
        None => None,
    }
}

/// What a preset puts into the amount field is parsed back to exactly the
/// amount it stands for.
pub proof fn law_presets_are_exact(info: PoolInfo, amount: Amount)
    ensures
        amount_of_text(
            zeros_trimmed(units_text(amount@, info.decimals as nat)),
            info.decimals as nat,
        ) == Some(amount@),
{
    crate::types::lemma_amount_view(amount, amount);
    crate::amounts::law_written_amount_parses_back(amount@, info.decimals as nat);
}

// ── withdraw ────────────────────────────────────────────────────────────────

/// The line, or lines, below the target field.
#[derive(Debug)]
pub enum TargetHint {
    Nothing,
    Good(String),
    Waiting(String),
    Bad(String),
    /// A usable address whose name is being checked again.
    Checking { line: String, note: String },
    /// A name that points elsewhere than before.
    Diverged { title: String, pinned: String, now: String },
}

/// A hint, with texts as character sequences.
pub enum HintView {
    Nothing,
    Good(Seq<char>),
    Waiting(Seq<char>),
    Bad(Seq<char>),
    Checking { line: Seq<char>, note: Seq<char> },
    Diverged { title: Seq<char>, pinned: Seq<char>, now: Seq<char> },
}

impl View for TargetHint {
    type V = HintView;

    open spec fn view(&self) -> HintView {
        match self {
            TargetHint::Nothing => HintView::Nothing,
            TargetHint::Good(s) => HintView::Good(s@),
            TargetHint::Waiting(s) => HintView::Waiting(s@),
            TargetHint::Bad(s) => HintView::Bad(s@),
            TargetHint::Checking { line, note } => HintView::Checking { line: line@, note: note@ },
            TargetHint::Diverged { title, pinned, now } => HintView::Diverged {
                title: title@,
                pinned: pinned@,
                now: now@,
            },
        }
    }
}

/// The hint below the target field. `known` is the name that an address has in
/// the address book.
pub open spec fn hint_of(t: Target, known: Option<Seq<char>>) -> HintView {
    match t {
        Target::Empty => HintView::Nothing,
        Target::Address(a) => HintView::Good(
            "✓ "@ + (match known {
                Some(name) => name,
                None => "valid address"@,
            }) + "  ·  "@ + short_address_of(a),
        ),
        Target::AddressVerifying { pinned, name } => HintView::Checking {
            line: "✓ "@ + name + "  ·  "@ + short_address_of(pinned),
            note: "(verifying name…)"@,
        },
        Target::Resolved { name, addr } => HintView::Good(
            "✓ "@ + name + "  →  "@ + short_address_of(addr),
        ),
        Target::Resolving { name } => HintView::Waiting("(；・∀・) resolving "@ + name + "…"@),
        Target::NotFound { name } => HintView::Bad("“"@ + name + "” has no address record"@),
        Target::Error { name, .. } => HintView::Bad("Name lookup for “"@ + name + "” failed"@),
        Target::EnsDivergence { name, pinned, fresh } => HintView::Diverged {
            title: "⚠ “"@ + name + "” now resolves to a different address"@,
            pinned: "pinned: "@ + short_address_of(pinned),
            now: "now:    "@ + short_address_of(fresh),
        },
        Target::Invalid => HintView::Bad("Not a valid 0x… address or name"@),
    }
}

impl PoolApp {
    /// The hint below the target field. `known` is the name that the recipient
    /// has in the address book.
    pub fn target_hint(&self, known: Option<String>) -> (r: TargetHint)
        ensures
            r@ == hint_of(self@.resolution, opt_text(known)),
    {
        match &self.withdraw_resolution {
            TargetResolution::Empty => TargetHint::Nothing,
            TargetResolution::Address(a) => {
                let short = short_address(*a);
                match known {
                    Some(name) => TargetHint::Good(
                        join4("✓ ", name.as_str(), "  ·  ", short.as_str()),
                    ),
                    None => TargetHint::Good(
                        join4("✓ ", "valid address", "  ·  ", short.as_str()),
                    ),
                }
            },
            TargetResolution::AddressVerifying { pinned, name } => {
                let short = short_address(*pinned);
                TargetHint::Checking {
                    line: join4("✓ ", name.as_str(), "  ·  ", short.as_str()),
                    note: "(verifying name…)".to_owned(),
                }
            },
            TargetResolution::Resolved { name, addr } => {
                let short = short_address(*addr);
                TargetHint::Good(join4("✓ ", name.as_str(), "  →  ", short.as_str()))
            },
            TargetResolution::Resolving { name } => TargetHint::Waiting(
                join3("(；・∀・) resolving ", name.as_str(), "…"),
            ),
            TargetResolution::NotFound { name } => TargetHint::Bad(
                join3("“", name.as_str(), "” has no address record"),
            ),
            TargetResolution::Error { name, .. } => TargetHint::Bad(
                join3("Name lookup for “", name.as_str(), "” failed"),
            ),
            TargetResolution::EnsDivergence { name, pinned, fresh } => {
                let old_short = short_address(*pinned);
                let new_short = short_address(*fresh);
                TargetHint::Diverged {
                    title: join3("⚠ “", name.as_str(), "” now resolves to a different address"),
                    pinned: join2("pinned: ", old_short.as_str()),
                    now: join2("now:    ", new_short.as_str()),
                }
            },
            TargetResolution::Invalid => TargetHint::Bad(
                "Not a valid 0x… address or name".to_owned(),
            ),
        }
    }
}

/// Two texts are equal but for the case of ASCII letters.
pub open spec fn same_ignoring_case(a: Seq<char>, b: Seq<char>) -> bool {
    a.len() == b.len() && forall|i: int|
        0 <= i < a.len() ==> ascii_lower(#[trigger] a[i]) == ascii_lower(b[i])
}

/// Tells whether two texts are equal but for the case of ASCII letters.
pub fn eq_ignore_case(a: &str, b: &str) -> (r: bool)
    ensures
        r == same_ignoring_case(a@, b@),
{
    let v = chars_of(a);
    let w = chars_of(b);
    if v.len() != w.len() {
        return false;
    }
    let mut i: usize = 0;
    while i < v.len()
        invariant
            i <= v.len() == w.len(),
            v@ == a@,
            w@ == b@,
            forall|j: int| 0 <= j < i ==> ascii_lower(#[trigger] v@[j]) == ascii_lower(w@[j]),
        decreases v.len() - i,
    {
        if lower(v[i]) != lower(w[i]) {
            assert(ascii_lower(a@[i as int]) != ascii_lower(b@[i as int]));
            return false;
        }
        i += 1;
    }
    true
}

/// A row of the recipient picker is marked where the field holds its address.
pub fn picker_selected(address: Address, input: &str) -> (b: bool)
    ensures
        b == same_ignoring_case(input@, checksum_of(address@)),
{
    let c = checksum(address);
    eq_ignore_case(input, c.as_str())
}

// ── review, backup, confirmation ────────────────────────────────────────────

/// A text with its white space trimmed and its middle left out where it is
/// longer than twelve bytes.
pub open spec fn shortened(s: Seq<char>) -> Seq<char> {
    middle_cut(trimmed(s), 12, 6, 4)
}

/// Shortens an address or a hash: its first six bytes, an ellipsis and its last
/// four.
pub fn shorten(addr: &str) -> (r: String)
    requires
        can_cut(trimmed(addr@), 12, 6, 4),
    ensures
        r@ == shortened(addr@),
{
    let a = trim(addr);
    cut_middle(a.as_str(), 12, 6, 4)
}

/// The figures of the review screen.
#[derive(Debug)]
pub struct ReviewFigures {
    pub fee_line: String,
    pub amount: Amount,
    /// What arrives once the fee is off.
    pub received: Amount,
}

/// The fee of the quote under review, in hundredths of a percent.
pub open spec fn quoted_fee(s: PoolModel) -> nat {
    match s.quote {
        Some(q) => match q.fee_bps {
            Some(n) => n as nat,
            None => 0,
        },
        None => 0,
    }
}

/// What the form's amount stands for on the review screen.
pub open spec fn reviewed_amount(s: PoolModel) -> nat {
    match amount_of_text(
        s.withdraw_amount,
        s.pools[s.withdraw_pool as int].decimals as nat,
    ) {
        Some(n) => n,
        None => 0,
    }
}

/// What arrives of an amount once the fee is off.
pub open spec fn after_fee(amount: nat, bps: nat) -> nat {
    let fee = ((amount * bps) % two256()) / 10_000;
    if amount >= fee {
        (amount - fee) as nat
    } else {
        0
    }
}

impl PoolApp {
    /// The fee of the quote under review, in hundredths of a percent.
    pub fn fee_bps(&self) -> (r: u64)
        ensures
            r == match self@.quote {
                Some(q) => match q.fee_bps {
                    Some(n) => n,
                    None => 0,
                },
                None => 0,
            },
    {
        match &self.quote {
            Some(q) => match q.fee_bps {
                Some(n) => n,
                None => 0,
            },
            None => 0,
        }
    }

    /// The figures of the review screen; nothing where the pool is gone.
    pub fn review_figures(&self) -> (r: Option<ReviewFigures>)
        ensures
            r is Some <==> self@.withdraw_pool < self@.pools.len(),
            r matches Some(f) ==> ({
                let d = self@.pools[self@.withdraw_pool as int].decimals as nat;
                let amount = match amount_of_text(self@.withdraw_amount, d) {
                    Some(n) => n,
                    None => 0,
                };
                let bps = match self@.quote {
                    Some(q) => match q.fee_bps {
                        Some(n) => n as nat,
                        None => 0,
                    },
                    None => 0,
                };
                let fee = ((amount * bps) % two256()) / 10_000;
                &&& f.amount@ == amount
                &&& f.received@ == if amount >= fee {
                    (amount - fee) as nat
                } else {
                    0
                }
                &&& f.fee_line@ == if self@.quote is Some {
                    "Relay fee: "@ + dec(bps) + " bps"@
                } else {
                    "Fetching quote…"@
                }
            }),
            r matches Some(f) ==> {
                &&& f.amount@ == reviewed_amount(self@)
                &&& f.received@ == after_fee(reviewed_amount(self@), quoted_fee(self@))
            },
    {
        if self.withdraw_pool >= self.pools.len() {
            return None;
        }
        let bps: u64 = self.fee_bps();
        let fee_line = if self.quote.is_some() {
            let n = decimal(bps);
            join3("Relay fee: ", n.as_str(), " bps")
        } else {
            "Fetching quote…".to_owned()
        };
        let decimals: u8 = self.pools[self.withdraw_pool].decimals;
        let amount = match parse_amount(self.withdraw_amount.as_str(), decimals) {
            Some(a) => a,
            None => Amount::zero(),
        };
        let fee = div(wrapping_mul(amount, bps), 10_000);
        let received = amount.saturating_sub(&fee);
        Some(ReviewFigures { fee_line, amount, received })
    }

    /// The cells of the backup grid: the words, or a mask in place of each.
    pub fn backup_cells(&self) -> (r: Vec<String>)
        ensures
            texts(r@) == ({
                let w = match self@.backup_phrase {
                    Some(p) => words_of(p),
                    None => Seq::empty(),
                };
                if self@.revealed {
                    w
                } else {
                    Seq::new(w.len(), |i: int| "••••••"@)
                }
            }),
    {
        let w = match &self.backup_phrase {
            Some(p) => words(p.expose()),
            None => Vec::new(),
        };
        assert(self.backup_phrase is None ==> texts(w@) =~= Seq::<Seq<char>>::empty());
        if self.revealed {
            return w;
        }
        let mut out: Vec<String> = Vec::new();
        let mut i: usize = 0;
        while i < w.len()
            invariant
                i <= w.len(),
                out@.len() == i,
                forall|j: int| 0 <= j < i ==> (#[trigger] out@[j])@ == "••••••"@,
            decreases w.len() - i,
        {
            out.push("••••••".to_owned());
            i += 1;
        }
        assert(texts(out@) =~= Seq::new(texts(w@).len(), |i: int| "••••••"@));
        out
    }

    /// The labels of the backup's two buttons.
    pub fn backup_labels(&self) -> (r: (&'static str, &'static str))
        ensures
            r.0@ == if self@.revealed {
                "Hide"@
            } else {
                "Tap to reveal"@
            },
            r.1@ == if self@.did_copy {
                "Copied ✓"@
            } else {
                "Copy"@
            },
    {
        let first = if self.revealed {
            "Hide"
        } else {
            "Tap to reveal"
        };
        let second = if self.did_copy {
            "Copied ✓"
        } else {
            "Copy"
        };
        (first, second)
    }

    /// The headline of the proving screen.
    pub fn proving_headline(&self) -> (r: String)
        ensures
            r@ == if self@.proving_label.len() == 0 {
                "Working"@
            } else {
                self@.proving_label
            },
    {
        if self.proving_label.as_str().is_empty() {
            "Working".to_owned()
        } else {
            self.proving_label.clone()
        }
    }
}

// ── what moves with time ────────────────────────────────────────────────────

/// An ellipsis that grows by a dot every half second, up to three.
pub open spec fn ellipsis(elapsed: nat) -> Seq<char> {
    Seq::new(1 + (elapsed / 500) % 3, |i: int| '.')
}

/// The ellipsis `elapsed_ms` milliseconds into the wait.
fn dots(elapsed_ms: u64) -> (r: &'static str)
    ensures
        r@ == ellipsis(elapsed_ms as nat),
{
    proof {
        reveal_strlit(".");
        reveal_strlit("..");
        reveal_strlit("...");
        assert("."@ =~= Seq::new(1, |i: int| '.'));
        assert(".."@ =~= Seq::new(2, |i: int| '.'));
        assert("..."@ =~= Seq::new(3, |i: int| '.'));
    }
    match (elapsed_ms / 500) % 3 {
        0 => ".",
        1 => "..",
        _ => "...",
    }
}

/// The stages that are named while a proof is made.
pub open spec fn stage_name(stage: nat) -> Seq<char> {
    if stage == 0 {
        "Loading the proving key"@
    } else if stage == 1 {
        "Gathering Merkle-tree witnesses"@
    } else if stage == 2 {
        "Synthesizing the circuit witness"@
    } else if stage == 3 {
        "Committing witness polynomials"@
    } else if stage == 4 {
        "Running multi-scalar multiplications"@
    } else if stage == 5 {
        "Evaluating pairing constraints"@
    } else if stage == 6 {
        "Assembling the Groth16 proof"@
    } else {
        "Verifying the proof locally"@
    }
}

/// The stage that is named `elapsed_ms` milliseconds into a proof: the next one
/// every 1.6 seconds, and the last from there on.
pub fn proving_stage(elapsed_ms: u64) -> (r: String)
    ensures
        r@ == stage_name(elapsed_ms as nat / 1600) + ellipsis(elapsed_ms as nat),
{
    let stage = match elapsed_ms / 1600 {
        0 => "Loading the proving key",
        1 => "Gathering Merkle-tree witnesses",
        2 => "Synthesizing the circuit witness",
        3 => "Committing witness polynomials",
        4 => "Running multi-scalar multiplications",
        5 => "Evaluating pairing constraints",
        6 => "Assembling the Groth16 proof",
        _ => "Verifying the proof locally",
    };
    join2(stage, dots(elapsed_ms))
}

/// What a card says `elapsed_ms` milliseconds into a deposit.
pub fn depositing_line(elapsed_ms: u64) -> (r: String)
    ensures
        r@ == "depositing"@ + ellipsis(elapsed_ms as nat),
{
    join2("depositing", dots(elapsed_ms))
}

/// What the overview says `elapsed_ms` milliseconds into its first sync.
pub fn loading_line(elapsed_ms: u64) -> (r: String)
    ensures
        r@ == "Loading pools from 0xbow"@ + ellipsis(elapsed_ms as nat),
{
    join2("Loading pools from 0xbow", dots(elapsed_ms))
}

} // verus!
