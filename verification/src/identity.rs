//! The wallet's identities: its accounts, its Safes, and the one that the
//! dashboard shows.

use vstd::prelude::*;

use crate::text::{dec, decimal, join2, join5};
use crate::types::{all_chains, Address, Chain, Hash32, NetworkId};

verus! {

// ── accounts ────────────────────────────────────────────────────────────────

/// An account of the wallet.
#[allow(inconsistent_fields)]
#[derive(Debug)]
pub enum AccountDescriptor {
    /// A key that the wallet holds. The address is missing where none can be
    /// derived from the key.
    Local { name: Option<String>, key: Hash32, address: Option<Address> },
    Ledger { name: Option<String>, path: String, address: Address },
    Trezor { name: Option<String>, path: String, address: Address },
    /// An address without any key.
    ViewOnly { name: Option<String>, address: Address },
}

/// Copies an optional text.
pub fn copy_opt(s: &Option<String>) -> (r: Option<String>)
    ensures
        r == *s,
{
    match s {
        Some(t) => Some(t.clone()),
        None => None,
    }
}

impl Clone for AccountDescriptor {
    fn clone(&self) -> (r: Self)
        ensures
            r == *self,
    {
        match self {
            AccountDescriptor::Local { name, key, address } => AccountDescriptor::Local {
                name: copy_opt(name),
                key: *key,
                address: *address,
            },
            AccountDescriptor::Ledger { name, path, address } => AccountDescriptor::Ledger {
                name: copy_opt(name),
                path: path.clone(),
                address: *address,
            },
            AccountDescriptor::Trezor { name, path, address } => AccountDescriptor::Trezor {
                name: copy_opt(name),
                path: path.clone(),
                address: *address,
            },
            AccountDescriptor::ViewOnly { name, address } => AccountDescriptor::ViewOnly {
                name: copy_opt(name),
                address: *address,
            },
        }
    }
}

impl AccountDescriptor {
    pub open spec fn owner(self) -> Option<Address> {
        match self {
            AccountDescriptor::Local { address, .. } => address,
            AccountDescriptor::Ledger { address, .. } => Some(address),
            AccountDescriptor::Trezor { address, .. } => Some(address),
            AccountDescriptor::ViewOnly { address, .. } => Some(address),
        }
    }

    /// The account's address.
    pub fn account_address(&self) -> (r: Option<Address>)
        ensures
            r == self.owner(),
    {
        match self {
            AccountDescriptor::Local { address, .. } => *address,
            AccountDescriptor::Ledger { address, .. } => Some(*address),
            AccountDescriptor::Trezor { address, .. } => Some(*address),
            AccountDescriptor::ViewOnly { address, .. } => Some(*address),
        }
    }

    pub open spec fn given_name(self) -> Option<String> {
        match self {
            AccountDescriptor::Local { name, .. } => name,
            AccountDescriptor::Ledger { name, .. } => name,
            AccountDescriptor::Trezor { name, .. } => name,
            AccountDescriptor::ViewOnly { name, .. } => name,
        }
    }

    /// The name that the user gave.
    pub fn name(&self) -> (r: Option<String>)
        ensures
            r == self.given_name(),
    {
        match self {
            AccountDescriptor::Local { name, .. } => copy_opt(name),
            AccountDescriptor::Ledger { name, .. } => copy_opt(name),
            AccountDescriptor::Trezor { name, .. } => copy_opt(name),
            AccountDescriptor::ViewOnly { name, .. } => copy_opt(name),
        }
    }

    pub open spec fn named(self, n: Option<String>) -> AccountDescriptor {
        match self {
            AccountDescriptor::Local { key, address, .. } => AccountDescriptor::Local {
                name: n,
                key,
                address,
            },
            AccountDescriptor::Ledger { path, address, .. } => AccountDescriptor::Ledger {
                name: n,
                path,
                address,
            },
            AccountDescriptor::Trezor { path, address, .. } => AccountDescriptor::Trezor {
                name: n,
                path,
                address,
            },
            AccountDescriptor::ViewOnly { address, .. } => AccountDescriptor::ViewOnly {
                name: n,
                address,
            },
        }
    }

    /// The account under another name.
    pub fn with_name(&self, n: Option<String>) -> (r: AccountDescriptor)
        ensures
            r == self.named(n),
    {
        match self {
            AccountDescriptor::Local { key, address, .. } => AccountDescriptor::Local {
                name: n,
                key: *key,
                address: *address,
            },
            AccountDescriptor::Ledger { path, address, .. } => AccountDescriptor::Ledger {
                name: n,
                path: path.clone(),
                address: *address,
            },
            AccountDescriptor::Trezor { path, address, .. } => AccountDescriptor::Trezor {
                name: n,
                path: path.clone(),
                address: *address,
            },
            AccountDescriptor::ViewOnly { address, .. } => AccountDescriptor::ViewOnly {
                name: n,
                address: *address,
            },
        }
    }

    pub open spec fn shown_name(self, index: nat) -> Seq<char> {
        match self.given_name() {
            Some(n) => n@,
            None => "Account "@ + dec(index + 1),
        }
    }

    /// The account's name, or a name after its place in the list.
    pub fn display_name(&self, index: usize) -> (r: String)
        requires
            index < u64::MAX,
        ensures
            r@ == self.shown_name(index as nat),
    {
        match self.name() {
            Some(n) => n,
            None => {
                let n = decimal(index as u64 + 1);
                join2("Account ", n.as_str())
            },
        }
    }

    pub open spec fn is_hardware(self) -> bool {
        self is Ledger || self is Trezor
    }

    /// Tells whether the key sits on a hardware device.
    pub fn hardware(&self) -> (b: bool)
        ensures
            b == self.is_hardware(),
    {
        match self {
            AccountDescriptor::Ledger { .. } => true,
            AccountDescriptor::Trezor { .. } => true,
            _ => false,
        }
    }
}

// ── Safes ───────────────────────────────────────────────────────────────────

/// How far the wallet trusts a Safe's contract.
#[derive(Debug, Clone, Copy, PartialEq, Eq, Structural)]
pub enum SafeTrust {
    Canonical,
    UnrecognizedImpl,
}

impl SafeTrust {
    pub open spec fn block_reason(self) -> Option<Seq<char>> {
        match self {
            SafeTrust::Canonical => None,
            SafeTrust::UnrecognizedImpl => Some(
                "This Safe's implementation is not recognized as canonical — signing is disabled."@,
            ),
        }
    }

    /// Why nothing is signed for such a Safe, if so.
    pub fn signing_block_reason(self) -> (r: Option<&'static str>)
        ensures
            match r {
                Some(t) => self.block_reason() == Some(t@),
                None => self.block_reason() is None,
            },
    {
        match self {
            SafeTrust::Canonical => None,
            SafeTrust::UnrecognizedImpl => Some(
                "This Safe's implementation is not recognized as canonical — signing is disabled.",
            ),
        }
    }

    /// Tells whether the wallet signs for such a Safe.
    pub fn permits_signing(self) -> (b: bool)
        ensures
            b == (self.block_reason() is None),
    {
        match self {
            SafeTrust::Canonical => true,
            SafeTrust::UnrecognizedImpl => false,
        }
    }
}

/// A Safe that the wallet follows.
#[derive(Debug)]
pub struct SafeDescriptor {
    pub name: Option<String>,
    pub chain_id: u64,
    pub address: Address,
    pub version: String,
    pub trust: SafeTrust,
    /// How many owners have to sign.
    pub threshold: u32,
    pub owners: Vec<Address>,
    /// The owners that are accounts of this wallet, by their place in its list.
    pub linked_signer_indices: Vec<u32>,
    /// The transaction service, where it is not the usual one.
    pub tx_service_url: Option<String>,
}

/// The usual transaction service.
pub const DEFAULT_TX_SERVICE_BASE: &'static str = "https://api.safe.global/tx-service";

/// The transaction service that is asked: the given one, or the usual one.
pub open spec fn service_text(url: Option<String>) -> Seq<char> {
    match url {
        Some(u) => u@,
        None => DEFAULT_TX_SERVICE_BASE@,
    }
}

/// The transaction service that is asked: the given one, or the usual one.
pub fn service_base(url: &Option<String>) -> (r: String)
    ensures
        r@ == service_text(*url),
{
    match url {
        Some(u) => u.clone(),
        None => DEFAULT_TX_SERVICE_BASE.to_string(),
    }
}

impl SafeDescriptor {
    pub open spec fn shown_name(self, index: nat) -> Seq<char> {
        match self.name {
            Some(n) => n@,
            None => "Safe "@ + dec(index + 1),
        }
    }

    /// The Safe's name, or a name after its place in the list.
    pub fn display_name(&self, index: usize) -> (r: String)
        requires
            index < u64::MAX,
        ensures
            r@ == self.shown_name(index as nat),
    {
        match &self.name {
            Some(n) => n.clone(),
            None => {
                let n = decimal(index as u64 + 1);
                join2("Safe ", n.as_str())
            },
        }
    }

    pub open spec fn service(self) -> Seq<char> {
        service_text(self.tx_service_url)
    }

    /// The transaction service that holds the Safe's queue.
    pub fn tx_service_base(&self) -> (r: String)
        ensures
            r@ == self.service(),
    {
        service_base(&self.tx_service_url)
    }
}

// ── who can sign for a Safe ─────────────────────────────────────────────────

/// The account at a place of the wallet's list, with its address, where it has
/// a key to sign with.
pub open spec fn signable_at(accounts: Seq<AccountDescriptor>, i: u32) -> Option<
    (Address, AccountDescriptor),
> {
    if i < accounts.len() && !(accounts[i as int] is ViewOnly) {
        match accounts[i as int].owner() {
            Some(a) => Some((a, accounts[i as int])),
            None => None,
        }
    } else {
        None
    }
}

/// The accounts that can sign, of those at the given places.
pub open spec fn signable_of(linked: Seq<u32>, accounts: Seq<AccountDescriptor>) -> Seq<
    (Address, AccountDescriptor),
>
    decreases linked.len(),
{
    if linked.len() == 0 {
        Seq::empty()
    } else {
        let rest = signable_of(linked.drop_last(), accounts);
        match signable_at(accounts, linked.last()) {
            Some(p) => rest.push(p),
            None => rest,
        }
    }
}

/// The Safe's owners that this wallet can sign for, in the order of the links.
pub fn signable_owners_of(safe: &SafeDescriptor, accounts: &Vec<AccountDescriptor>) -> (r: Vec<
    (Address, AccountDescriptor),
>)
    ensures
        r@ == signable_of(safe.linked_signer_indices@, accounts@),
{
    let linked = &safe.linked_signer_indices;
    let mut out: Vec<(Address, AccountDescriptor)> = Vec::new();
    let mut i: usize = 0;
    while i < linked.len()
        invariant
            linked@ == safe.linked_signer_indices@,
            i <= linked.len(),
            out@ == signable_of(linked@.take(i as int), accounts@),
        decreases linked.len() - i,
    {
        let at = linked[i];
        assert(linked@.take(i + 1).drop_last() =~= linked@.take(i as int));
        if (at as usize) < accounts.len() {
            let desc = &accounts[at as usize];
            let keyless = match desc {
                AccountDescriptor::ViewOnly { .. } => true,
                _ => false,
            };
            if !keyless {
                match desc.account_address() {
                    Some(a) => {
                        out.push((a, desc.clone()));
                    },
                    None => {},
                }
            }
        }
        i += 1;
    }
    assert(linked@.take(linked@.len() as int) =~= linked@);
    out
}

/// The place of the first account with the given address; the number of
/// accounts where there is none.
pub open spec fn owner_place(accounts: Seq<AccountDescriptor>, a: Address) -> int
    decreases accounts.len(),
{
    if accounts.len() == 0 || accounts[0].owner() == Some(a) {
        0
    } else {
        1 + owner_place(accounts.drop_first(), a)
    }
}

/// The account with the given address.
pub open spec fn desc_of(accounts: Seq<AccountDescriptor>, a: Address) -> Option<
    AccountDescriptor,
> {
    if owner_place(accounts, a) < accounts.len() {
        Some(accounts[owner_place(accounts, a)])
    } else {
        None
    }
}

/// The first account with the given address, where the wallet has one.
pub fn owner_desc_by_address(a: Address, accounts: &Vec<AccountDescriptor>) -> (r: Option<
    AccountDescriptor,
>)
    ensures
        r == desc_of(accounts@, a),
{
    let mut i: usize = 0;
    assert(accounts@.skip(0) =~= accounts@);
    while i < accounts.len()
        invariant
            i <= accounts.len(),
            owner_place(accounts@, a) == i + owner_place(accounts@.skip(i as int), a),
        decreases accounts.len() - i,
    {
        assert(accounts@.skip(i as int).drop_first() =~= accounts@.skip(i + 1));
        let found = match accounts[i].account_address() {
            Some(b) => b == a,
            None => false,
        };
        if found {
            return Some(accounts[i].clone());
        }
        i += 1;
    }
    None
}

/// The key of the first account whose key the wallet holds.
pub open spec fn first_key(accounts: Seq<AccountDescriptor>) -> Option<Hash32>
    decreases accounts.len(),
{
    if accounts.len() == 0 {
        None
    } else {
        match accounts[0] {
            AccountDescriptor::Local { key, .. } => Some(key),
            _ => first_key(accounts.drop_first()),
        }
    }
}

/// The key of the first account whose key the wallet holds: it pays the gas
/// where a Safe transaction is executed.
pub fn first_local_key_of(accounts: &Vec<AccountDescriptor>) -> (r: Option<Hash32>)
    ensures
        r == first_key(accounts@),
{
    let mut i: usize = 0;
    assert(accounts@.skip(0) =~= accounts@);
    while i < accounts.len()
        invariant
            i <= accounts.len(),
            first_key(accounts@.skip(i as int)) == first_key(accounts@),
        decreases accounts.len() - i,
    {
        assert(accounts@.skip(i as int).drop_first() =~= accounts@.skip(i + 1));
        match &accounts[i] {
            AccountDescriptor::Local { key, .. } => {
                return Some(*key);
            },
            _ => {},
        }
        i += 1;
    }
    None
}

/// The accounts of the first `n` pairs.
pub open spec fn first_descs(s: Seq<(Address, AccountDescriptor)>, n: nat) -> Seq<
    AccountDescriptor,
> {
    Seq::new(
        if n < s.len() {
            n
        } else {
            s.len()
        },
        |i: int| s[i].1,
    )
}

/// The accounts of the first `n` pairs.
fn take_descs(owners: &Vec<(Address, AccountDescriptor)>, n: u32) -> (r: Vec<AccountDescriptor>)
    ensures
        r@ == first_descs(owners@, n as nat),
{
    let mut out: Vec<AccountDescriptor> = Vec::new();
    let mut i: usize = 0;
    while i < owners.len() && i < n as usize
        invariant
            i <= owners.len(),
            i <= n,
            out@.len() == i,
            forall|j: int| 0 <= j < i ==> out@[j] == owners@[j].1,
        decreases owners.len() - i,
    {
        out.push(owners[i].1.clone());
        i += 1;
    }
    assert(out@ =~= first_descs(owners@, n as nat));
    out
}

// ── the identity on screen ──────────────────────────────────────────────────

/// The wallet's accounts and Safes, and which of them the dashboard shows.
#[derive(Debug)]
pub struct Identity {
    /// The address of the active account.
    pub address: Address,
    pub accounts: Vec<AccountDescriptor>,
    pub safes: Vec<SafeDescriptor>,
    pub active_index: usize,
    /// The Safe on screen, where the dashboard shows one.
    pub active_safe: Option<usize>,
}

/// What an `Identity` holds.
pub struct IdentityModel {
    pub address: Address,
    pub accounts: Seq<AccountDescriptor>,
    pub safes: Seq<SafeDescriptor>,
    pub active_index: usize,
    pub active_safe: Option<usize>,
}

impl View for Identity {
    type V = IdentityModel;

    open spec fn view(&self) -> IdentityModel {
        IdentityModel {
            address: self.address,
            accounts: self.accounts@,
            safes: self.safes@,
            active_index: self.active_index,
            active_safe: self.active_safe,
        }
    }
}

/// What it takes to place an order for a Safe.
#[derive(Debug)]
pub struct SafeSwapCtx {
    pub safe: Address,
    pub chain: Chain,
    pub version: String,
    pub trust: SafeTrust,
    /// The owners that sign, as many as the threshold asks for.
    pub signer_owners: Vec<AccountDescriptor>,
    /// The key that pays the gas; without one the first owner pays.
    pub local_executor_key: Option<Hash32>,
}

/// What it takes to write a name for a Safe.
#[derive(Debug)]
pub struct SafeNameCtx {
    pub safe: Address,
    pub owners: Vec<AccountDescriptor>,
    pub executor_key: Option<Hash32>,
}

/// What a `SafeSwapCtx` holds.
pub struct SafeSwapModel {
    pub safe: Address,
    pub chain: Chain,
    pub version: Seq<char>,
    pub trust: SafeTrust,
    pub signer_owners: Seq<AccountDescriptor>,
    pub local_executor_key: Option<Hash32>,
}

/// What a `SafeNameCtx` holds.
pub struct SafeNameModel {
    pub safe: Address,
    pub owners: Seq<AccountDescriptor>,
    pub executor_key: Option<Hash32>,
}

impl View for SafeSwapCtx {
    type V = SafeSwapModel;

    open spec fn view(&self) -> SafeSwapModel {
        SafeSwapModel {
            safe: self.safe,
            chain: self.chain,
            version: self.version@,
            trust: self.trust,
            signer_owners: self.signer_owners@,
            local_executor_key: self.local_executor_key,
        }
    }
}

impl View for SafeNameCtx {
    type V = SafeNameModel;

    open spec fn view(&self) -> SafeNameModel {
        SafeNameModel {
            safe: self.safe,
            owners: self.owners@,
            executor_key: self.executor_key,
        }
    }
}

/// The chains on which orders can be placed.
pub open spec fn cow_supported(c: Chain) -> bool {
    c != Chain::Optimism
}

/// Tells whether orders can be placed on a chain.
pub fn supported(c: Chain) -> (b: bool)
    ensures
        b == cow_supported(c),
{
    match c {
        Chain::Optimism => false,
        _ => true,
    }
}

/// The networks of the given chains.
pub open spec fn builtin_networks(chains: Seq<Chain>) -> Seq<NetworkId> {
    Seq::new(chains.len(), |i: int| NetworkId::Builtin(chains[i]))
}

/// The networks with the given ids that the user added.
pub open spec fn custom_networks(ids: Seq<u64>) -> Seq<NetworkId> {
    Seq::new(ids.len(), |i: int| NetworkId::Custom(ids[i]))
}

/// The connection state of the active account's hardware device.
#[derive(Debug, Clone, Copy, PartialEq, Eq, Structural)]
pub enum HardwareStatus {
    Ledger { connected: bool },
    Trezor { connected: bool },
}

impl IdentityModel {
    /// The Safe on screen.
    pub open spec fn safe(self) -> Option<SafeDescriptor> {
        match self.active_safe {
            Some(i) => if i < self.safes.len() {
                Some(self.safes[i as int])
            } else {
                None
            },
            None => None,
        }
    }

    /// The address on screen: the Safe's, or else the account's.
    pub open spec fn shown(self) -> Address {
        match self.safe() {
            Some(s) => s.address,
            None => self.address,
        }
    }

    pub open spec fn shown_name(self) -> Seq<char> {
        match self.safe() {
            Some(s) => s.shown_name(self.active_safe->0 as nat) + " — Safe "@ + dec(
                s.threshold as nat,
            ) + " of "@ + dec(
                if s.owners@.len() < s.linked_signer_indices@.len() {
                    s.linked_signer_indices@.len()
                } else {
                    s.owners@.len()
                },
            ),
            None => if self.active_index < self.accounts.len() {
                self.accounts[self.active_index as int].shown_name(self.active_index as nat)
            } else {
                "Account "@ + dec((self.active_index + 1) as nat)
            },
        }
    }

    pub open spec fn shown_network(self) -> Seq<char> {
        match self.safe() {
            Some(s) => match Chain::of_id(s.chain_id) {
                Some(c) => c.short_name(),
                None => "Unknown chain"@,
            },
            None => "Ethereum"@,
        }
    }

    /// The chains on which the identity on screen has a balance of its own.
    pub open spec fn chains(self) -> Seq<Chain> {
        match self.safe() {
            Some(s) => match Chain::of_id(s.chain_id) {
                Some(c) => seq![c],
                None => seq![],
            },
            None => all_chains(),
        }
    }

    /// The networks on which the identity on screen has a balance of its own,
    /// given the ids of the added networks that are enabled.
    pub open spec fn networks(self, custom: Seq<u64>) -> Seq<NetworkId> {
        match self.safe() {
            Some(_) => builtin_networks(self.chains()),
            None => builtin_networks(self.chains()) + custom_networks(custom),
        }
    }

    /// The Safe's owners that this wallet can sign for.
    pub open spec fn signers_of(self, s: SafeDescriptor) -> Seq<(Address, AccountDescriptor)> {
        signable_of(s.linked_signer_indices@, self.accounts)
    }

    /// Whether Send is offered, given whether the active account can sign now.
    pub open spec fn sends(self, can_sign: bool) -> bool {
        match self.safe() {
            Some(s) => s.trust.block_reason() is None && self.signers_of(s).len() > 0,
            None => can_sign,
        }
    }

    pub open spec fn swap_ctx(self) -> Option<SafeSwapModel> {
        match self.safe() {
            Some(s) => match Chain::of_id(s.chain_id) {
                Some(c) => if s.trust.block_reason() is None && cow_supported(c)
                    && self.signers_of(s).len() >= s.threshold {
                    Some(
                        SafeSwapModel {
                            safe: s.address,
                            chain: c,
                            version: s.version@,
                            trust: s.trust,
                            signer_owners: first_descs(self.signers_of(s), s.threshold as nat),
                            local_executor_key: first_key(self.accounts),
                        },
                    )
                } else {
                    None
                },
                None => None,
            },
            None => None,
        }
    }

    pub open spec fn name_ctx(self) -> Option<SafeNameModel> {
        match self.safe() {
            Some(s) => if s.trust.block_reason() is None && s.chain_id == Chain::Mainnet.id()
                && self.signers_of(s).len() >= s.threshold {
                Some(
                    SafeNameModel {
                        safe: s.address,
                        owners: first_descs(self.signers_of(s), s.threshold as nat),
                        executor_key: first_key(self.accounts),
                    },
                )
            } else {
                None
            },
            None => None,
        }
    }

    /// Whether a swap can be started, given whether the active account can sign
    /// now.
    pub open spec fn swaps(self, can_sign: bool) -> bool {
        if self.active_safe is Some {
            self.swap_ctx() is Some
        } else {
            can_sign
        }
    }

    /// Why nothing is signed for the given Safe now, if so.
    pub open spec fn signing_block(self, safe: Address, chain: Chain) -> Option<Seq<char>> {
        match self.safe() {
            Some(s) => if s.address == safe && s.chain_id == chain.id() {
                s.trust.block_reason()
            } else {
                Some("Safe selection changed; reopen transaction details before signing."@)
            },
            None => Some("Safe selection changed; reopen transaction details before signing."@),
        }
    }

    /// The active account.
    pub open spec fn account(self) -> Option<AccountDescriptor> {
        if self.active_index < self.accounts.len() {
            Some(self.accounts[self.active_index as int])
        } else {
            None
        }
    }

    /// The active account, or an address without a key where there is none.
    pub open spec fn signer_desc(self) -> AccountDescriptor {
        match self.account() {
            Some(a) => a,
            None => AccountDescriptor::ViewOnly { name: None, address: self.address },
        }
    }

    /// The hardware device of the active account.
    pub open spec fn device(self, connected: bool) -> Option<HardwareStatus> {
        match self.account() {
            Some(AccountDescriptor::Ledger { .. }) => Some(HardwareStatus::Ledger { connected }),
            Some(AccountDescriptor::Trezor { .. }) => Some(HardwareStatus::Trezor { connected }),
            _ => None,
        }
    }
}

impl Identity {
    /// The Safe on screen.
    pub fn active_safe_descriptor(&self) -> (r: Option<&SafeDescriptor>)
        ensures
            match r {
                Some(s) => self@.safe() == Some(*s),
                None => self@.safe() is None,
            },
    {
        match self.active_safe {
            Some(i) => if i < self.safes.len() {
                Some(&self.safes[i])
            } else {
                None
            },
            None => None,
        }
    }

    /// The address on screen: the Safe's, or else the account's.
    pub fn display_address(&self) -> (r: Address)
        ensures
            r == self@.shown(),
    {
        match self.active_safe_descriptor() {
            Some(s) => s.address,
            None => self.address,
        }
    }

    /// The address that owns and receives orders: the Safe's, or else the
    /// account's.
    pub fn order_owner(&self) -> (r: Address)
        ensures
            r == self@.shown(),
    {
        self.display_address()
    }

    /// The name on screen: the Safe's with its threshold, or else the account's.
    pub fn display_name(&self) -> (r: String)
        requires
            self.active_index < usize::MAX,
        ensures
            r@ == self@.shown_name(),
    {
        match self.active_safe_descriptor() {
            Some(s) => {
                let i: usize = match self.active_safe {
                    Some(i) => i,
                    None => 0,
                };
                assert(i < self.safes.len());
                let base = s.display_name(i);
                let total: usize = if s.owners.len() < s.linked_signer_indices.len() {
                    s.linked_signer_indices.len()
                } else {
                    s.owners.len()
                };
                let needed = decimal(s.threshold as u64);
                let total = decimal(total as u64);
                join5(base.as_str(), " — Safe ", needed.as_str(), " of ", total.as_str())
            },
            None => if self.active_index < self.accounts.len() {
                self.accounts[self.active_index].display_name(self.active_index)
            } else {
                let n = decimal(self.active_index as u64 + 1);
                join2("Account ", n.as_str())
            },
        }
    }

    /// The network on screen: the Safe's chain, or else Ethereum.
    pub fn network_short_name(&self) -> (r: &'static str)
        ensures
            r@ == self@.shown_network(),
    {
        match self.active_safe_descriptor() {
            Some(s) => match Chain::from_chain_id(s.chain_id) {
                Some(c) => c.label(),
                None => "Unknown chain",
            },
            None => "Ethereum",
        }
    }

    /// The chains on which the identity on screen has a balance of its own: all
    /// of them for an account, the Safe's own for a Safe.
    pub fn allowed_chains(&self) -> (r: Vec<Chain>)
        ensures
            r@ == self@.chains(),
    {
        match self.active_safe_descriptor() {
            Some(s) => {
                let mut v: Vec<Chain> = Vec::new();
                match Chain::from_chain_id(s.chain_id) {
                    Some(c) => {
                        v.push(c);
                    },
                    None => {},
                }
                assert(v@ =~= self@.chains());
                v
            },
            None => Chain::all(),
        }
    }

    /// The networks on which the identity on screen has a balance of its own,
    /// given the ids of the added networks that are enabled.
    pub fn allowed_networks(&self, custom: &Vec<u64>) -> (r: Vec<NetworkId>)
        ensures
            r@ == self@.networks(custom@),
    {
        let chains = self.allowed_chains();
        let mut out: Vec<NetworkId> = Vec::new();
        let mut i: usize = 0;
        while i < chains.len()
            invariant
                i <= chains.len(),
                out@.len() == i,
                forall|j: int| 0 <= j < i ==> out@[j] == NetworkId::Builtin(chains@[j]),
            decreases chains.len() - i,
        {
            out.push(NetworkId::Builtin(chains[i]));
            i += 1;
        }
        assert(out@ =~= builtin_networks(chains@));
        if self.active_safe_descriptor().is_some() {
            return out;
        }
        let ghost first = out@;
        let mut k: usize = 0;
        while k < custom.len()
            invariant
                k <= custom.len(),
                out@.len() == first.len() + k,
                forall|j: int| 0 <= j < first.len() ==> out@[j] == first[j],
                forall|j: int|
                    0 <= j < k ==> out@[first.len() + j] == NetworkId::Custom(custom@[j]),
            decreases custom.len() - k,
        {
            out.push(NetworkId::Custom(custom[k]));
            k += 1;
        }
        assert(out@ =~= first + custom_networks(custom@)) by {
            assert forall|j: int| 0 <= j < out@.len() implies out@[j] == (first
                + custom_networks(custom@))[j] by {
                if j >= first.len() {
                    assert(out@[first.len() + (j - first.len())] == NetworkId::Custom(
                        custom@[j - first.len()],
                    ));
                }
            }
        }
        out
    }

    /// Tells whether the wallet can sign for one of the Safe's owners.
    pub fn has_signable_linked_owner(&self, safe: &SafeDescriptor) -> (b: bool)
        ensures
            b == (self@.signers_of(*safe).len() > 0),
    {
        signable_owners_of(safe, &self.accounts).len() > 0
    }

    /// Tells whether Send is offered, given whether the active account can sign
    /// now. A Safe needs trust and one owner that can sign; the active account
    /// does not matter to it.
    pub fn can_send(&self, can_sign: bool) -> (b: bool)
        ensures
            b == self@.sends(can_sign),
    {
        match self.active_safe_descriptor() {
            Some(s) => s.trust.permits_signing() && self.has_signable_linked_owner(s),
            None => can_sign,
        }
    }

    /// Tells whether a swap can be started, given whether the active account can
    /// sign now.
    pub fn can_swap(&self, can_sign: bool) -> (b: bool)
        ensures
            b == self@.swaps(can_sign),
    {
        if self.active_safe.is_some() {
            self.build_safe_swap_ctx().is_some()
        } else {
            can_sign
        }
    }

    /// What it takes to place an order for the Safe on screen; nothing where the
    /// Safe is not trusted, its chain has no orders, or too few of its owners
    /// can sign.
    pub fn build_safe_swap_ctx(&self) -> (r: Option<SafeSwapCtx>)
        ensures
            match r {
                Some(c) => self@.swap_ctx() == Some(c@),
                None => self@.swap_ctx() is None,
            },
    {
        let s = match self.active_safe_descriptor() {
            Some(s) => s,
            None => {
                return None;
            },
        };
        if !s.trust.permits_signing() {
            return None;
        }
        let chain = match Chain::from_chain_id(s.chain_id) {
            Some(c) => c,
            None => {
                return None;
            },
        };
        if !supported(chain) {
            return None;
        }
        let owners = signable_owners_of(s, &self.accounts);
        if owners.len() < s.threshold as usize {
            return None;
        }
        Some(
            SafeSwapCtx {
                safe: s.address,
                chain,
                version: s.version.clone(),
                trust: s.trust,
                signer_owners: take_descs(&owners, s.threshold),
                local_executor_key: first_local_key_of(&self.accounts),
            },
        )
    }

    /// What it takes to write a name for the Safe on screen; nothing where the
    /// Safe is not trusted, is not on Mainnet, or too few of its owners can
    /// sign.
    pub fn build_safe_name_ctx(&self) -> (r: Option<SafeNameCtx>)
        ensures
            match r {
                Some(c) => self@.name_ctx() == Some(c@),
                None => self@.name_ctx() is None,
            },
    {
        let s = match self.active_safe_descriptor() {
            Some(s) => s,
            None => {
                return None;
            },
        };
        if !s.trust.permits_signing() {
            return None;
        }
        if s.chain_id != Chain::Mainnet.chain_id() {
            return None;
        }
        let owners = signable_owners_of(s, &self.accounts);
        if owners.len() < s.threshold as usize {
            return None;
        }
        Some(
            SafeNameCtx {
                safe: s.address,
                owners: take_descs(&owners, s.threshold),
                executor_key: first_local_key_of(&self.accounts),
            },
        )
    }

    /// Tells whether names are offered: always for an account, and for a Safe
    /// where a name can be written for it.
    pub fn names_available_for_active(&self) -> (b: bool)
        ensures
            b == (self.active_safe is None || self@.name_ctx() is Some),
    {
        match self.active_safe {
            Some(_) => self.build_safe_name_ctx().is_some(),
            None => true,
        }
    }

    /// Why nothing is signed for the given Safe now, if so: it is no longer the
    /// one on screen, or it is not trusted.
    pub fn active_safe_signing_block(&self, safe: Address, chain: Chain) -> (r: Option<String>)
        ensures
            match r {
                Some(t) => self@.signing_block(safe, chain) == Some(t@),
                None => self@.signing_block(safe, chain) is None,
            },
    {
        let moved = "Safe selection changed; reopen transaction details before signing.";
        match self.active_safe_descriptor() {
            Some(s) => if s.address != safe || s.chain_id != chain.chain_id() {
                Some(moved.to_string())
            } else {
                match s.trust.signing_block_reason() {
                    Some(t) => Some(t.to_string()),
                    None => None,
                }
            },
            None => Some(moved.to_string()),
        }
    }

    /// The active account, or an address without a key where there is none.
    pub fn active_signer_descriptor(&self) -> (r: AccountDescriptor)
        ensures
            r == self@.signer_desc(),
    {
        if self.active_index < self.accounts.len() {
            self.accounts[self.active_index].clone()
        } else {
            AccountDescriptor::ViewOnly { name: None, address: self.address }
        }
    }

    /// The hardware device of the active account, where it has one.
    pub fn hardware_status(&self, connected: bool) -> (r: Option<HardwareStatus>)
        ensures
            r == self@.device(connected),
    {
        if self.active_index < self.accounts.len() {
            match &self.accounts[self.active_index] {
                AccountDescriptor::Ledger { .. } => Some(HardwareStatus::Ledger { connected }),
                AccountDescriptor::Trezor { .. } => Some(HardwareStatus::Trezor { connected }),
                _ => None,
            }
        } else {
            None
        }
    }

    /// Gives the active account a name.
    pub fn set_active_name(&mut self, n: Option<String>)
        ensures
            final(self)@ == (IdentityModel {
                accounts: if old(self).active_index < old(self).accounts@.len() {
                    old(self).accounts@.update(
                        old(self).active_index as int,
                        old(self).accounts@[old(self).active_index as int].named(n),
                    )
                } else {
                    old(self).accounts@
                },
                ..old(self)@
            }),
    {
        if self.active_index < self.accounts.len() {
            let renamed = self.accounts[self.active_index].with_name(n);
            self.accounts.set(self.active_index, renamed);
        }
    }
}

// ── laws ────────────────────────────────────────────────────────────────────

/// Every owner that can sign for a Safe is an account of the wallet that has a
/// key, under the account's own address.
pub proof fn law_signers_hold_keys(linked: Seq<u32>, accounts: Seq<AccountDescriptor>, i: int)
    requires
        0 <= i < signable_of(linked, accounts).len(),
    ensures
        accounts.contains(signable_of(linked, accounts)[i].1),
        !(signable_of(linked, accounts)[i].1 is ViewOnly),
        signable_of(linked, accounts)[i].1.owner() == Some(signable_of(linked, accounts)[i].0),
    decreases linked.len(),
{
    let rest = signable_of(linked.drop_last(), accounts);
    if i < rest.len() {
        law_signers_hold_keys(linked.drop_last(), accounts, i);
    }
}

/// While a Safe is on screen, nothing of another chain is in scope: no chain but
/// the Safe's own, and none of the networks that the user added.
pub proof fn law_safe_is_pinned_to_its_chain(m: IdentityModel, custom: Seq<u64>, n: NetworkId)
    requires
        m.safe() is Some,
        m.networks(custom).contains(n),
    ensures
        n is Builtin,
        n.id() == m.safe()->0.chain_id,
        m.chains().contains(n->Builtin_0),
{
    let i = choose|i: int| 0 <= i < m.networks(custom).len() && m.networks(custom)[i] == n;
    assert(m.chains()[i] == n->Builtin_0);
}

/// An account is in scope on every built-in chain and on every added network.
pub proof fn law_account_spans_all_networks(m: IdentityModel, custom: Seq<u64>, c: Chain, k: int)
    requires
        m.safe() is None,
    ensures
        m.networks(custom).contains(NetworkId::Builtin(c)),
        0 <= k < custom.len() ==> m.networks(custom).contains(NetworkId::Custom(custom[k])),
{
    let s = m.networks(custom);
    assert(s[0] == NetworkId::Builtin(Chain::Mainnet));
    assert(s[1] == NetworkId::Builtin(Chain::Optimism));
    assert(s[2] == NetworkId::Builtin(Chain::Base));
    if 0 <= k < custom.len() {
        assert(s[3 + k] == NetworkId::Custom(custom[k]));
    }
}

/// A Safe whose contract is not recognized signs nothing: no sends, no swaps, no
/// names, no queued transaction.
pub proof fn law_unrecognized_safe_signs_nothing(
    m: IdentityModel,
    can_sign: bool,
    safe: Address,
    chain: Chain,
)
    requires
        m.safe() is Some,
        m.safe()->0.trust == SafeTrust::UnrecognizedImpl,
    ensures
        !m.sends(can_sign),
        !m.swaps(can_sign),
        m.swap_ctx() is None,
        m.name_ctx() is None,
        m.signing_block(safe, chain) is Some,
{
}

/// Where a Safe can swap or write a name, enough of its owners sign: exactly as
/// many as its threshold asks for, each an account with a key.
pub proof fn law_safe_contexts_meet_the_threshold(m: IdentityModel, i: int)
    ensures
        m.swap_ctx() is Some ==> {
            &&& m.swap_ctx()->0.signer_owners.len() == m.safe()->0.threshold
            &&& 0 <= i < m.safe()->0.threshold ==> !(m.swap_ctx()->0.signer_owners[i] is ViewOnly)
        },
        m.name_ctx() is Some ==> {
            &&& m.name_ctx()->0.owners.len() == m.safe()->0.threshold
            &&& 0 <= i < m.safe()->0.threshold ==> !(m.name_ctx()->0.owners[i] is ViewOnly)
        },
{
    if m.safe() is Some {
        let s = m.safe()->0;
        if 0 <= i < s.threshold && s.threshold <= m.signers_of(s).len() {
            law_signers_hold_keys(s.linked_signer_indices@, m.accounts, i);
        }
    }
}

} // verus!
