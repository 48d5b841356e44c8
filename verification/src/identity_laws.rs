//! Who is on screen, who signs, and what is fetched for them.

use vstd::prelude::*;

use crate::activity::IndexedTx;
use crate::crew::{Crew, CrewAct, CrewEvent, CrewKind, CrewStage};
use crate::fetch::{history_of, reachable, ConfigModel};
use crate::identity::{
    desc_of, first_key, owner_place, service_text, signable_of, AccountDescriptor, HardwareStatus,
    IdentityModel, SafeDescriptor, SafeTrust,
};
use crate::networks::PerChain;
use crate::safe_tx::Executor;
use crate::signer::{Signer, SignerDesk, SignerHandoff};
use crate::text::dec;
use crate::types::{Address, Chain, Hash32, NetworkId};

verus! {

// ── accounts ────────────────────────────────────────────────────────────────

/// An account has the address, the name and the device that it was made with.
pub proof fn law_accounts_are_what_they_hold(
    name: Option<String>,
    key: Hash32,
    address: Address,
    derived: Option<Address>,
    path: String,
)
    ensures
        ({
            let local = AccountDescriptor::Local { name, key, address: derived };
            let ledger = AccountDescriptor::Ledger { name, path, address };
            let trezor = AccountDescriptor::Trezor { name, path, address };
            let seen = AccountDescriptor::ViewOnly { name, address };
            &&& local.owner() == derived
            &&& ledger.owner() == Some(address)
            &&& trezor.owner() == Some(address)
            &&& seen.owner() == Some(address)
            &&& local.given_name() == name && ledger.given_name() == name && trezor.given_name()
                == name && seen.given_name() == name
            &&& !local.is_hardware() && ledger.is_hardware() && trezor.is_hardware()
                && !seen.is_hardware()
        }),
{
}

/// A renamed account has the new name, and nothing else of it changes.
pub proof fn law_renaming_changes_the_name_alone(a: AccountDescriptor, n: Option<String>)
    ensures
        a.named(n).given_name() == n,
        a.named(n).owner() == a.owner(),
        a.named(n).is_hardware() == a.is_hardware(),
        a.named(n) is Local <==> a is Local,
        a.named(n) is Ledger <==> a is Ledger,
        a.named(n) is Trezor <==> a is Trezor,
        a.named(n).named(a.given_name()) == a,
{
}

/// An account or a Safe without a name is called after its place in the list, counted
/// from one.
pub proof fn law_nameless_identities_are_numbered(a: AccountDescriptor, s: SafeDescriptor, i: nat)
    ensures
        a.given_name() matches Some(n) ==> a.shown_name(i) == n@,
        a.given_name() is None ==> a.shown_name(i) == "Account "@ + dec(i + 1),
        s.name matches Some(n) ==> s.shown_name(i) == n@,
        s.name is None ==> s.shown_name(i) == "Safe "@ + dec(i + 1),
{
}

// ── who signs for a Safe ────────────────────────────────────────────────────

/// Every linked account that has a key and an address can sign, and signs for its own
/// address; no other account can.
pub proof fn law_linked_keys_can_sign(
    linked: Seq<u32>,
    accounts: Seq<AccountDescriptor>,
    a: Address,
    d: AccountDescriptor,
)
    ensures
        signable_of(linked, accounts).contains((a, d)) <==> exists|i: int|
            0 <= i < linked.len() && #[trigger] linked[i] < accounts.len()
                && accounts[linked[i] as int] == d && !(d is ViewOnly) && d.owner() == Some(a),
    decreases linked.len(),
{
    let s = signable_of(linked, accounts);
    if linked.len() == 0 {
        assert(!s.contains((a, d)));
    } else {
        let front = linked.drop_last();
        let rest = signable_of(front, accounts);
        law_linked_keys_can_sign(front, accounts, a, d);
        let last = linked[linked.len() - 1];
        assert(last == linked.last());
        if rest.contains((a, d)) {
            let k = choose|k: int| 0 <= k < rest.len() && rest[k] == (a, d);
            assert(s[k] == (a, d));
            let i = choose|i: int|
                0 <= i < front.len() && #[trigger] front[i] < accounts.len()
                    && accounts[front[i] as int] == d && !(d is ViewOnly) && d.owner() == Some(a);
            assert(linked[i] == front[i]);
        }
        if exists|i: int|
            0 <= i < linked.len() && #[trigger] linked[i] < accounts.len()
                && accounts[linked[i] as int] == d && !(d is ViewOnly) && d.owner() == Some(a) {
            let i = choose|i: int|
                0 <= i < linked.len() && #[trigger] linked[i] < accounts.len()
                    && accounts[linked[i] as int] == d && !(d is ViewOnly) && d.owner() == Some(a);
            if i < front.len() {
                assert(front[i] == linked[i]);
            } else {
                assert(s[s.len() - 1] == (a, d));
            }
        }
        if s.contains((a, d)) && !rest.contains((a, d)) {
            let k = choose|k: int| 0 <= k < s.len() && s[k] == (a, d);
            if k < rest.len() {
                assert(rest[k] == (a, d));
            }
        }
    }
}

/// The gas of a Safe's transaction is paid by the first account whose key the wallet
/// holds.
pub proof fn law_the_first_local_key_pays(accounts: Seq<AccountDescriptor>, k: int)
    requires
        0 <= k < accounts.len(),
        forall|j: int| 0 <= j < k ==> !(#[trigger] accounts[j] is Local),
        accounts[k] is Local,
    ensures
        first_key(accounts) == Some(accounts[k]->Local_key),
    decreases accounts.len(),
{
    if k > 0 {
        assert(!(accounts[0] is Local));
        let rest = accounts.drop_first();
        assert(rest[k - 1] == accounts[k]);
        assert forall|j: int| 0 <= j < k - 1 implies !(#[trigger] rest[j] is Local) by {
            assert(rest[j] == accounts[j + 1]);
        }
        law_the_first_local_key_pays(rest, k - 1);
    }
}

/// Without such a key nobody but an owner pays.
pub proof fn law_without_a_local_key_none_pays(accounts: Seq<AccountDescriptor>)
    requires
        forall|j: int| 0 <= j < accounts.len() ==> !(#[trigger] accounts[j] is Local),
    ensures
        first_key(accounts) is None,
    decreases accounts.len(),
{
    if accounts.len() > 0 {
        let rest = accounts.drop_first();
        assert forall|j: int| 0 <= j < rest.len() implies !(#[trigger] rest[j] is Local) by {
            assert(rest[j] == accounts[j + 1]);
        }
        assert(!(accounts[0] is Local));
        law_without_a_local_key_none_pays(rest);
    }
}

/// An owner is the first account with its address.
pub proof fn law_owners_are_found_by_address(accounts: Seq<AccountDescriptor>, a: Address, k: int)
    requires
        0 <= k < accounts.len(),
        forall|j: int| 0 <= j < k ==> (#[trigger] accounts[j]).owner() != Some(a),
        accounts[k].owner() == Some(a),
    ensures
        desc_of(accounts, a) == Some(accounts[k]),
        owner_place(accounts, a) == k,
    decreases accounts.len(),
{
    if k > 0 {
        assert(accounts[0].owner() != Some(a));
        let rest = accounts.drop_first();
        assert(rest[k - 1] == accounts[k]);
        assert forall|j: int| 0 <= j < k - 1 implies (#[trigger] rest[j]).owner() != Some(a) by {
            assert(rest[j] == accounts[j + 1]);
        }
        law_owners_are_found_by_address(rest, a, k - 1);
    }
}

/// The wallet signs for a Safe whose contract it recognizes, and for no other.
pub proof fn law_only_recognized_safes_sign(t: SafeTrust)
    ensures
        t.block_reason() is None <==> t == SafeTrust::Canonical,
{
}

/// A Safe's queue lies with the service that was set for it, or with the usual one.
pub proof fn law_a_safe_has_its_service(s: SafeDescriptor)
    ensures
        s.tx_service_url matches Some(u) ==> s.service() == u@ && service_text(s.tx_service_url)
            == u@,
        s.tx_service_url is None ==> s.service() == "https://api.safe.global/tx-service"@,
{
}

// ── the identity on screen ──────────────────────────────────────────────────

/// The Safe that was picked is on screen with its own address; without one it is the
/// active account.
pub proof fn law_the_picked_identity_is_shown(m: IdentityModel, i: usize)
    ensures
        m.active_safe == Some(i) && i < m.safes.len() ==> m.safe() == Some(m.safes[i as int])
            && m.shown() == m.safes[i as int].address,
        m.active_safe is None ==> m.safe() is None && m.shown() == m.address,
        m.active_safe == Some(i) && i >= m.safes.len() ==> m.safe() is None && m.shown()
            == m.address,
        m.active_index < m.accounts.len() ==> m.account() == Some(
            m.accounts[m.active_index as int],
        ) && m.signer_desc() == m.accounts[m.active_index as int],
        m.active_index >= m.accounts.len() ==> m.account() is None && (m.signer_desc()
            matches AccountDescriptor::ViewOnly { address, .. } && address == m.address),
{
}

/// A Safe's title names it, its threshold and how many owners it has.
pub proof fn law_titles_name_the_identity(m: IdentityModel, i: usize)
    ensures
        m.active_safe == Some(i) && i < m.safes.len() && m.safes[i as int].owners@.len()
            >= m.safes[i as int].linked_signer_indices@.len() ==> m.shown_name()
            == m.safes[i as int].shown_name(i as nat) + " — Safe "@ + dec(
            m.safes[i as int].threshold as nat,
        ) + " of "@ + dec(m.safes[i as int].owners@.len()),
        m.active_safe is None && m.active_index < m.accounts.len() ==> m.shown_name()
            == m.accounts[m.active_index as int].shown_name(m.active_index as nat),
        m.active_safe is None ==> m.shown_network() == "Ethereum"@,
{
}

/// A Safe places orders where its contract is recognized, its chain is one that takes
/// orders, and enough of its owners have a key here; it is that Safe, on its own chain,
/// with as many owners as its threshold asks for, the first that can sign.
pub proof fn law_a_safe_swaps_as_itself(m: IdentityModel, i: usize, c: Chain, k: int)
    requires
        m.active_safe == Some(i),
        i < m.safes.len(),
        m.safes[i as int].chain_id == c.id(),
    ensures
        ({
            let s = m.safes[i as int];
            let owners = signable_of(s.linked_signer_indices@, m.accounts);
            &&& m.swap_ctx() is Some <==> s.trust == SafeTrust::Canonical && c != Chain::Optimism
                && owners.len() >= s.threshold
            &&& m.swap_ctx() matches Some(x) ==> {
                &&& x.safe == s.address
                &&& x.chain == c
                &&& x.version == s.version@
                &&& x.trust == s.trust
                &&& x.signer_owners.len() == s.threshold
                &&& 0 <= k < s.threshold ==> x.signer_owners[k] == owners[k].1
                &&& x.local_executor_key == first_key(m.accounts)
            }
            &&& m.name_ctx() is Some <==> s.trust == SafeTrust::Canonical && c == Chain::Mainnet
                && owners.len() >= s.threshold
            &&& m.name_ctx() matches Some(x) ==> {
                &&& x.safe == s.address
                &&& x.owners.len() == s.threshold
                &&& 0 <= k < s.threshold ==> x.owners[k] == owners[k].1
                &&& x.executor_key == first_key(m.accounts)
            }
            &&& forall|b: bool| #[trigger] m.sends(b) == (s.trust == SafeTrust::Canonical
                && owners.len() > 0)
            &&& forall|b: bool| #[trigger] m.swaps(b) == (m.swap_ctx() is Some)
        }),
{
    crate::types::law_chains_are_found_by_id(c);
}

/// An account sends and swaps where it can sign; it has no Safe's context.
pub proof fn law_an_account_signs_for_itself(m: IdentityModel, can_sign: bool)
    requires
        m.active_safe is None,
    ensures
        m.sends(can_sign) == can_sign,
        m.swaps(can_sign) == can_sign,
        m.swap_ctx() is None,
        m.name_ctx() is None,
{
}

/// What is signed is signed for the active account; where there is none, for an address
/// without a key.
pub proof fn law_the_active_account_signs(m: IdentityModel)
    ensures
        m.active_index < m.accounts.len() ==> m.signer_desc()
            == m.accounts[m.active_index as int],
        m.active_index >= m.accounts.len() ==> m.signer_desc() == (AccountDescriptor::ViewOnly {
            name: None,
            address: m.address,
        }),
{
}

/// A queued transaction is signed only for the Safe that is still on screen, on its own
/// chain.
pub proof fn law_only_the_safe_on_screen_signs(m: IdentityModel, safe: Address, c: Chain)
    ensures
        m.signing_block(safe, c) is None <==> (m.safe() matches Some(s) && s.address == safe
            && s.chain_id == c.id() && s.trust == SafeTrust::Canonical),
{
}

/// The device is that of the active account.
pub proof fn law_the_device_is_the_accounts(m: IdentityModel, connected: bool)
    requires
        m.active_index < m.accounts.len(),
    ensures
        m.accounts[m.active_index as int] is Ledger ==> m.device(connected) == Some(
            HardwareStatus::Ledger { connected },
        ),
        m.accounts[m.active_index as int] is Trezor ==> m.device(connected) == Some(
            HardwareStatus::Trezor { connected },
        ),
        m.accounts[m.active_index as int] is Local || m.accounts[m.active_index as int] is ViewOnly
            ==> m.device(connected) is None,
{
}

// ── what is fetched ─────────────────────────────────────────────────────────

proof fn lemma_reachable(chains: Seq<Chain>, rpcs: PerChain<bool>, c: Chain)
    ensures
        reachable(chains, rpcs).contains(c) <==> chains.contains(c) && rpcs.at(c),
    decreases chains.len(),
{
    let s = reachable(chains, rpcs);
    if chains.len() == 0 {
        assert(!s.contains(c));
        assert(!chains.contains(c));
    } else {
        let front = chains.drop_last();
        let rest = reachable(front, rpcs);
        lemma_reachable(front, rpcs, c);
        assert(chains[chains.len() - 1] == chains.last());
        if chains.contains(c) {
            let i = choose|i: int| 0 <= i < chains.len() && chains[i] == c;
            if i < front.len() {
                assert(front[i] == c);
            }
        }
        if front.contains(c) {
            let i = choose|i: int| 0 <= i < front.len() && front[i] == c;
            assert(chains[i] == c);
        }
        if rest.contains(c) {
            let i = choose|i: int| 0 <= i < rest.len() && rest[i] == c;
            assert(s[i] == c);
        }
        if rpcs.at(chains.last()) {
            assert(s[s.len() - 1] == chains.last());
        }
        if s.contains(c) {
            let i = choose|i: int| 0 <= i < s.len() && s[i] == c;
            if i < rest.len() {
                assert(rest[i] == c);
            }
        }
    }
}

/// An account's history and balances are fetched from every chain that has an endpoint,
/// and its balances from every network that the user added.
pub proof fn law_an_account_is_fetched_everywhere(m: IdentityModel, config: ConfigModel, c: Chain)
    requires
        m.active_safe is None,
    ensures
        m.history_chains(config).contains(c) <==> match c {
            Chain::Mainnet => config.rpcs.mainnet,
            Chain::Optimism => config.rpcs.optimism,
            Chain::Base => config.rpcs.base,
        },
        m.history_chains(config).contains(c) ==> m.balance_networks(config).contains(
            NetworkId::Builtin(c),
        ),
        forall|k: int|
            0 <= k < config.custom.len() ==> m.balance_networks(config).contains(
                NetworkId::Custom(#[trigger] config.custom[k]),
            ),
        m.queue_request(config) is None,
{
    let all = m.chains();
    assert(all[0] == Chain::Mainnet && all[1] == Chain::Optimism && all[2] == Chain::Base);
    lemma_reachable(all, config.rpcs, c);
    let r = m.history_chains(config);
    let n = m.balance_networks(config);
    if r.contains(c) {
        let i = choose|i: int| 0 <= i < r.len() && r[i] == c;
        assert(n[i] == NetworkId::Builtin(c));
    }
    assert forall|k: int| 0 <= k < config.custom.len() implies n.contains(
        NetworkId::Custom(#[trigger] config.custom[k]),
    ) by {
        assert(n[r.len() + k] == NetworkId::Custom(config.custom[k]));
    }
}

/// A Safe's history, balances and queue are fetched from its own chain alone, where that
/// has an endpoint.
pub proof fn law_a_safe_is_fetched_from_its_chain(
    m: IdentityModel,
    config: ConfigModel,
    i: usize,
    c: Chain,
)
    requires
        m.active_safe == Some(i),
        i < m.safes.len(),
        m.safes[i as int].chain_id == c.id(),
    ensures
        config.rpcs.at(c) ==> m.history_chains(config) == seq![c] && m.balance_networks(config)
            == seq![NetworkId::Builtin(c)] && m.queue_request(config) == Some(
            (m.safes[i as int].address, c, m.safes[i as int].threshold),
        ),
        !config.rpcs.at(c) ==> m.history_chains(config).len() == 0 && m.balance_networks(
            config,
        ).len() == 0 && m.queue_request(config) is None,
{
    crate::types::law_chains_are_found_by_id(c);
    let one = seq![c];
    assert(m.chains() =~= one);
    assert(one.drop_last() =~= Seq::<Chain>::empty());
    reveal_with_fuel(reachable, 2);
    if config.rpcs.at(c) {
        assert(m.history_chains(config) =~= seq![c]);
        assert(m.balance_networks(config) =~= seq![NetworkId::Builtin(c)]);
    }
}

/// A chain's history is the indexer's where it has one, else the chain's own, with
/// nothing of a transaction changed but its chain; where neither has one, the reason of
/// each is told.
pub proof fn law_history_comes_from_the_indexer_first(
    chain: Chain,
    a: Seq<IndexedTx>,
    b: Seq<IndexedTx>,
    own: Option<Result<Seq<IndexedTx>, String>>,
    e: String,
    f: String,
    i: int,
)
    ensures
        history_of(chain, Some(Ok(a)), own) matches Ok(v) && v.len() == a.len() && (0 <= i < a.len()
            ==> v[i] == (IndexedTx { chain, ..a[i] })),
        history_of(chain, Some(Err(e)), Some(Ok(b))) matches Ok(v) && v.len() == b.len() && (0 <= i
            < b.len() ==> v[i] == (IndexedTx { chain, ..b[i] })),
        history_of(chain, None, Some(Ok(b))) matches Ok(v) && v.len() == b.len(),
        history_of(chain, Some(Err(e)), Some(Err(f))) == Err::<Seq<IndexedTx>, Seq<char>>(
            "indexer: "@ + e@ + "; on-chain: "@ + f@,
        ),
        history_of(chain, Some(Err(e)), None) == Err::<Seq<IndexedTx>, Seq<char>>(e@),
        history_of(chain, None, None) == Err::<Seq<IndexedTx>, Seq<char>>("indexer disabled"@),
{
}

// ── getting ready to sign ───────────────────────────────────────────────────

/// An account signs with the signer that it lent, once the chain is reached where that
/// is needed.
pub proof fn law_an_account_gets_ready(kind: CrewKind, why: String)
    requires
        kind == CrewKind::SendAccount || kind == CrewKind::PlaceAccount || kind
            == CrewKind::CancelAccount || kind == CrewKind::NameAccount,
    ensures
        ({
            let a = Crew::begun(kind);
            let b = a.state.next(CrewEvent::Provider(true));
            let taken = if kind == CrewKind::SendAccount || kind == CrewKind::PlaceAccount {
                b
            } else {
                a
            };
            &&& kind == CrewKind::SendAccount || kind == CrewKind::PlaceAccount ==> a.act
                == CrewAct::FindProvider && a.state.next(CrewEvent::Provider(false)).act is Failed
            &&& taken.act == CrewAct::TakeSigner
            &&& taken.state.next(CrewEvent::Signer(Ok(()))).act == CrewAct::Proceed
            &&& taken.state.next(CrewEvent::Signer(Err(why))).act == CrewAct::Failed(why@)
        }),
{
}

/// The owners of a Safe are connected one after another, and then who pays; without an
/// owner nothing goes on.
pub proof fn law_a_safe_gets_ready(
    c: Crew,
    owners: usize,
    executor: Executor,
    i: usize,
    why: String,
)
    requires
        c.kind == (CrewKind::PlaceSafe { owners, executor }) || c.kind == (CrewKind::NameSafe {
            owners,
            executor,
        }),
    ensures
        Crew::begun(c.kind).act == CrewAct::FindProvider,
        Crew::begun(c.kind).state.next(CrewEvent::Provider(false)).act is Failed,
        owners == 0 ==> Crew::begun(c.kind).state.next(CrewEvent::Provider(true)).act is Failed,
        owners > 0 ==> Crew::begun(c.kind).state.next(CrewEvent::Provider(true)).act
            == CrewAct::BuildOwner(0),
        c.stage == CrewStage::Owner(i) && i + 1 < owners ==> c.next(CrewEvent::Signer(Ok(()))).act
            == CrewAct::BuildOwner((i + 1) as usize),
        c.stage == CrewStage::Owner(i) && i + 1 == owners ==> c.next(CrewEvent::Signer(Ok(()))).act
            == match executor {
            Executor::Local(k) => CrewAct::BuildPayer(k),
            Executor::FirstOwner => CrewAct::Proceed,
        },
        c.stage == CrewStage::Owner(i) ==> c.next(CrewEvent::Signer(Err(why))).act
            == CrewAct::Failed(why@),
        c.stage == CrewStage::Payer ==> c.next(CrewEvent::Signer(Ok(()))).act == CrewAct::Proceed,
        c.stage == CrewStage::Payer ==> c.next(CrewEvent::Signer(Err(why))).act is Failed,
{
}

/// A Safe's cancellation needs its owners alone: no endpoint, and nobody who pays.
pub proof fn law_a_safe_gets_ready_to_cancel(c: Crew, owners: usize, i: usize)
    requires
        c.kind == (CrewKind::CancelSafe { owners }),
    ensures
        owners == 0 ==> Crew::begun(c.kind).act is Failed,
        owners > 0 ==> Crew::begun(c.kind).act == CrewAct::BuildOwner(0),
        c.stage == CrewStage::Owner(i) && i + 1 < owners ==> c.next(CrewEvent::Signer(Ok(()))).act
            == CrewAct::BuildOwner((i + 1) as usize),
        c.stage == CrewStage::Owner(i) && i + 1 == owners ==> c.next(CrewEvent::Signer(Ok(()))).act
            == CrewAct::Proceed,
{
}

// ── the desk ────────────────────────────────────────────────────────────────

/// Signers that cannot be had are told of, each in its own words: the endpoint that a kind
/// of operation needs, the signer that failed, and the executor of an order by its name.
pub proof fn law_missing_signers_are_told(
    owners: usize,
    executor: Executor,
    i: usize,
    why: String,
)
    ensures
        ({
            let place = CrewKind::PlaceSafe { owners, executor };
            let write = CrewKind::NameSafe { owners, executor };
            let cancel = CrewKind::CancelSafe { owners };
            let at = |kind: CrewKind, stage: CrewStage| Crew { kind, stage };
            let bad = CrewEvent::Signer(Err(why));
            &&& at(place, CrewStage::Payer).next(bad).act == CrewAct::Failed(
                "derive executor: "@ + why@,
            )
            &&& at(write, CrewStage::Payer).next(bad).act == CrewAct::Failed(why@)
            &&& at(place, CrewStage::Owner(i)).next(bad).act == CrewAct::Failed(why@)
            &&& at(cancel, CrewStage::Owner(i)).next(bad).act == CrewAct::Failed(why@)
            &&& at(CrewKind::SendAccount, CrewStage::Signer).next(bad).act == CrewAct::Failed(why@)
            &&& at(place, CrewStage::Payer).next(bad).state.stage == CrewStage::Over
            &&& at(place, CrewStage::Provider).next(CrewEvent::Provider(false)).act
                == CrewAct::Failed("no execution RPC configured"@)
            &&& at(write, CrewStage::Provider).next(CrewEvent::Provider(false)).act
                == CrewAct::Failed("no Ethereum mainnet RPC configured"@)
            &&& at(CrewKind::PlaceAccount, CrewStage::Provider).next(
                CrewEvent::Provider(false),
            ).act == CrewAct::Failed("no execution RPC configured"@)
            &&& at(CrewKind::SendAccount, CrewStage::Provider).next(
                CrewEvent::Provider(false),
            ).act == CrewAct::Failed("no execution RPCs configured"@)
            &&& owners == 0 ==> at(place, CrewStage::Provider).next(
                CrewEvent::Provider(true),
            ).act == CrewAct::Failed("no signable owners for this Safe"@)
        }),
{
}

/// A signer that is lent leaves a placeholder that cannot sign, of the same account; only
/// an order or a name write marks the desk as busy.
pub proof fn law_a_lent_signer_leaves_a_placeholder(d: SignerDesk)
    ensures
        d.lent().signer == Signer::ViewOnly(d.address),
        d.parked().signer == Signer::ViewOnly(d.address),
        !d.lent().can_sign() && !d.parked().can_sign(),
        d.lent().order_op_in_flight == d.order_op_in_flight,
        d.parked().order_op_in_flight,
        d.lent().address == d.address && d.parked().address == d.address,
        d.can_sign() <==> d.signer is Live,
{
}

/// A signer of the active account that can sign is taken back, and an order or a name
/// write is over once its signer is back, whoever that is.
pub proof fn law_the_accounts_signer_is_taken_back(d: SignerDesk, address: Address, handle: u64)
    ensures
        ({
            let s = Signer::Live { address, handle };
            let back = SignerHandoff { cell: Some(s) };
            &&& s.signs_for() == address
            &&& address == d.address ==> d.installed(back).signer == s && d.reclaimed(back).signer
                == s
            &&& address != d.address ==> d.installed(back).signer == d.signer && d.reclaimed(
                back,
            ).signer == d.signer
            &&& !d.reclaimed(back).order_op_in_flight
            &&& d.installed(back).order_op_in_flight == d.order_op_in_flight
            &&& d.installed(SignerHandoff { cell: None }) == d
        }),
{
}

} // verus!
