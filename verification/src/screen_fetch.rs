//! The dashboard's answers to what was fetched, and to a change of what it shows.

use vstd::prelude::*;

use crate::account_dropdown;
use crate::activity::IndexedTx;
use crate::fetch::ConfigModel;
use crate::home::PendingSafeTx;
use crate::identity::{IdentityModel, SafeDescriptor};
use crate::name_writes::opt_view;
use crate::nav::Nav;
use crate::portfolio::LiveToken;
use crate::screen::{
    acts, doing, fetching_history, fetching_queue, idle, lemma_acts_sum, reloading, silent, wishing,
    Act, Effect, Env, EnvModel, Modal, Outcome, Reply, ScreenModel, SettingsModel, SettingsPane,
    Turn, WalletScreen, Wish,
};
use crate::text::{is_blank, trim, trimmed};
use crate::types::{Address, Chain, NetworkId};

verus! {

impl ScreenModel {
    /// The networks in scope.
    pub open spec fn scope(self, config: ConfigModel) -> Seq<NetworkId> {
        self.identity.networks(config.custom)
    }

    /// After the queue of the Safe on screen was asked for, where it can be.
    pub open spec fn queue_asked(self, config: ConfigModel) -> ScreenModel {
        ScreenModel {
            queue: self.queue.asked(self.identity.queue_request(config) is Some),
            ..self
        }
    }
}

// ── refreshing ──────────────────────────────────────────────────────────────

/// The user asked for fresh balances.
pub open spec fn on_refresh(m: ScreenModel, env: EnvModel) -> Turn {
    Turn {
        state: (ScreenModel {
            portfolio: m.portfolio.refreshed(m.scope(env.config)),
            ..m
        }).queue_asked(env.config),
        answer: doing(
            reloading(m.identity, env.config) + fetching_queue(m.identity, env.config),
        ),
    }
}

/// The wallet's Safes came anew.
pub open spec fn on_safes(m: ScreenModel, safes: Seq<SafeDescriptor>, env: EnvModel) -> Turn {
    let identity = IdentityModel { safes, ..m.identity };
    let reseed: Seq<Act> = if m.settings is Safes {
        seq![Act::Plain(Effect::ReseedSafes)]
    } else {
        Seq::empty()
    };
    Turn {
        state: (ScreenModel { identity, ..m }).queue_asked(env.config),
        answer: doing(reseed + fetching_queue(identity, env.config)),
    }
}

impl WalletScreen {
    /// Asks for the queue of the Safe on screen, where it can be asked for.
    pub(crate) fn ask_queue(&mut self, env: &Env) -> (r: Vec<Effect>)
        ensures
            final(self)@ == old(self)@.queue_asked(env@.config),
            acts(r@) == fetching_queue(old(self)@.identity, env@.config),
    {
        let mut out: Vec<Effect> = Vec::new();
        match self.fetch_safe_pending_task(&env.config) {
            Some(e) => {
                self.queue.ask(true);
                out.push(e);
                assert(acts(out@) =~= seq![e@]);
            },
            None => {
                self.queue.ask(false);
                assert(acts(out@) =~= fetching_queue(old(self)@.identity, env@.config));
            },
        }
        out
    }

    /// The user asked for fresh balances. Rows that are no longer in scope go at
    /// once; for a Safe the queue is asked for too.
    pub fn refresh_portfolio(&mut self, env: &Env) -> (r: Reply)
        ensures
            (Turn { state: final(self)@, answer: r@ }) == on_refresh(old(self)@, env@),
    {
        let allowed = self.identity.allowed_networks(&env.config.custom);
        self.portfolio.refresh(&allowed);
        let mut out = self.reload(&env.config);
        let mut more = self.ask_queue(env);
        proof {
            lemma_acts_sum(out@, more@);
        }
        out.append(&mut more);
        Reply::all(out)
    }

    /// The wallet's Safes came anew. The queue is asked for again, since what its
    /// transactions wait for may have changed.
    pub fn safes_updated(&mut self, safes: Vec<SafeDescriptor>, env: &Env) -> (r: Reply)
        ensures
            (Turn { state: final(self)@, answer: r@ }) == on_safes(old(self)@, safes@, env@),
    {
        self.identity.safes = safes;
        let mut out: Vec<Effect> = Vec::new();
        match &self.settings {
            SettingsPane::Safes => {
                out.push(Effect::ReseedSafes);
                assert(acts(out@) =~= seq![Act::Plain(Effect::ReseedSafes)]);
            },
            _ => {
                assert(acts(out@) =~= Seq::<Act>::empty());
            },
        }
        let mut more = self.ask_queue(env);
        proof {
            lemma_acts_sum(out@, more@);
        }
        out.append(&mut more);
        Reply::all(out)
    }
}

// ── what was fetched ────────────────────────────────────────────────────────

/// Balances came, or failed to.
pub open spec fn on_balances(
    m: ScreenModel,
    address: Address,
    network: NetworkId,
    result: Result<Vec<LiveToken>, String>,
    env: EnvModel,
) -> Turn {
    silent(
        ScreenModel {
            portfolio: m.portfolio.fetched(
                address,
                network,
                match result {
                    Ok(v) => Some(v@),
                    Err(_) => None,
                },
                m.identity.shown(),
                m.scope(env.config),
            ),
            ..m
        },
    )
}

/// Balances of the tokens of a filled order came, or failed to.
pub open spec fn on_swapped(
    m: ScreenModel,
    address: Address,
    network: NetworkId,
    slots: Seq<Option<Address>>,
    result: Result<Vec<LiveToken>, String>,
    env: EnvModel,
) -> Turn {
    match result {
        Ok(v) => silent(
            ScreenModel {
                portfolio: m.portfolio.swapped(
                    address,
                    network,
                    slots,
                    v@,
                    m.identity.shown(),
                    m.scope(env.config),
                ),
                ..m
            },
        ),
        Err(_) => silent(m),
    }
}

/// The queue of a Safe came, or failed to.
pub open spec fn on_queue(
    m: ScreenModel,
    safe: Address,
    chain: Chain,
    result: Result<Vec<PendingSafeTx>, String>,
) -> Turn {
    if m.identity.shows_safe(safe, chain) {
        silent(
            ScreenModel {
                queue: m.queue.fetched(
                    match result {
                        Ok(v) => Ok(v@),
                        Err(e) => Err(e),
                    },
                ),
                ..m
            },
        )
    } else {
        silent(m)
    }
}

/// The history of a chain came, or failed to.
pub open spec fn on_history(
    m: ScreenModel,
    address: Address,
    chain: Chain,
    result: Result<Vec<IndexedTx>, String>,
) -> Turn {
    silent(
        ScreenModel {
            history: m.history.fetched(
                address,
                chain,
                match result {
                    Ok(v) => Ok(v@),
                    Err(e) => Err(e),
                },
                m.identity.shown(),
                m.identity.chains(),
            ),
            ..m
        },
    )
}

impl WalletScreen {
    /// Balances came, or failed to.
    pub fn portfolio_fetched(
        &mut self,
        address: Address,
        network: NetworkId,
        result: Result<Vec<LiveToken>, String>,
        env: &Env,
    ) -> (r: Reply)
        ensures
            (Turn { state: final(self)@, answer: r@ }) == on_balances(
                old(self)@,
                address,
                network,
                result,
                env@,
            ),
    {
        let shown = self.identity.display_address();
        let allowed = self.identity.allowed_networks(&env.config.custom);
        let tokens: Option<Vec<LiveToken>> = match result {
            Ok(v) => Some(v),
            Err(_) => None,
        };
        self.portfolio.fetch_done(address, network, tokens, shown, &allowed);
        Reply::idle()
    }

    /// Balances of the tokens of a filled order came, or failed to.
    pub fn swap_tokens_refetched(
        &mut self,
        address: Address,
        network: NetworkId,
        slots: Vec<Option<Address>>,
        result: Result<Vec<LiveToken>, String>,
        env: &Env,
    ) -> (r: Reply)
        ensures
            (Turn { state: final(self)@, answer: r@ }) == on_swapped(
                old(self)@,
                address,
                network,
                slots@,
                result,
                env@,
            ),
    {
        match result {
            Ok(v) => {
                let shown = self.identity.display_address();
                let allowed = self.identity.allowed_networks(&env.config.custom);
                self.portfolio.swap_refetched(address, network, &slots, v, shown, &allowed);
            },
            Err(_) => {},
        }
        Reply::idle()
    }

    /// The queue of a Safe came, or failed to. It counts only for the Safe on
    /// screen.
    pub fn safe_pending_fetched(
        &mut self,
        safe: Address,
        chain: Chain,
        result: Result<Vec<PendingSafeTx>, String>,
    ) -> (r: Reply)
        ensures
            (Turn { state: final(self)@, answer: r@ }) == on_queue(
                old(self)@,
                safe,
                chain,
                result,
            ),
    {
        let still_active = match self.identity.active_safe_descriptor() {
            Some(s) => s.address == safe && s.chain_id == chain.chain_id(),
            None => false,
        };
        if still_active {
            self.queue.fetch_done(result);
        }
        Reply::idle()
    }

    /// The history of a chain came, or failed to.
    pub fn history_fetched(
        &mut self,
        address: Address,
        chain: Chain,
        result: Result<Vec<IndexedTx>, String>,
    ) -> (r: Reply)
        ensures
            (Turn { state: final(self)@, answer: r@ }) == on_history(
                old(self)@,
                address,
                chain,
                result,
            ),
    {
        let shown = self.identity.display_address();
        let allowed = self.identity.allowed_chains();
        self.history.fetch_done(address, chain, result, shown, &allowed);
        Reply::idle()
    }
}

// ── choosing what to see ────────────────────────────────────────────────────

/// The user asks for the history once more.
pub open spec fn on_retry(m: ScreenModel, env: EnvModel) -> Turn {
    if m.history.loading {
        silent(m)
    } else {
        Turn {
            state: ScreenModel {
                history: m.history.asking_again(m.identity.history_chains(env.config)),
                ..m
            },
            answer: doing(fetching_history(m.identity, env.config)),
        }
    }
}

/// A pane was chosen.
pub open spec fn on_nav(m: ScreenModel, nav: Nav, env: EnvModel) -> Turn {
    let at = ScreenModel {
        nav,
        settings: if m.nav != nav {
            SettingsModel::Root
        } else {
            m.settings
        },
        ..m
    };
    if nav == Nav::Activity && !m.history.loaded && !m.history.loading {
        Turn {
            state: ScreenModel {
                history: m.history.asking(m.identity.history_chains(env.config)),
                ..at
            },
            answer: doing(fetching_history(m.identity, env.config)),
        }
    } else {
        silent(at)
    }
}

/// A theme was chosen.
pub open spec fn on_theme(m: ScreenModel, theme: u8) -> Turn {
    Turn {
        state: ScreenModel { theme, ..m },
        answer: doing(seq![Act::Plain(Effect::SaveTheme(theme))]),
    }
}

/// The device of the active account is to be connected.
pub open spec fn on_reconnect(m: ScreenModel) -> Turn {
    if m.identity.account() matches Some(a) && a.is_hardware() {
        Turn {
            state: m,
            answer: wishing(Wish::NeedsHardwareReconnect { open_send: false }),
        }
    } else {
        silent(m)
    }
}

impl WalletScreen {
    /// The user asks for the history once more, unless it is being fetched.
    pub fn retry_history(&mut self, env: &Env) -> (r: Reply)
        ensures
            (Turn { state: final(self)@, answer: r@ }) == on_retry(old(self)@, env@),
    {
        if self.history.loading {
            return Reply::idle();
        }
        let chains = self.identity.history_chains(&env.config);
        self.history.ask_again(chains);
        Reply::all(self.fetch_history_task(&env.config))
    }

    /// A pane was chosen. The history is fetched when it is first looked at.
    pub fn select_nav(&mut self, nav: Nav, env: &Env) -> (r: Reply)
        ensures
            (Turn { state: final(self)@, answer: r@ }) == on_nav(old(self)@, nav, env@),
    {
        if self.nav != nav {
            self.settings = SettingsPane::Root;
        }
        self.nav = nav;
        let lazy = match nav {
            Nav::Activity => !self.history.loaded && !self.history.loading,
            _ => false,
        };
        if lazy {
            let chains = self.identity.history_chains(&env.config);
            self.history.ask(chains);
            return Reply::all(self.fetch_history_task(&env.config));
        }
        Reply::idle()
    }

    /// A theme was chosen.
    pub fn select_theme(&mut self, theme: u8) -> (r: Reply)
        ensures
            (Turn { state: final(self)@, answer: r@ }) == on_theme(old(self)@, theme),
    {
        self.theme = theme;
        Reply::one(Effect::SaveTheme(theme))
    }

    /// The device of the active account is to be connected, if it has one.
    pub fn reconnect_hardware(&mut self) -> (r: Reply)
        ensures
            (Turn { state: final(self)@, answer: r@ }) == on_reconnect(old(self)@),
    {
        if self.identity.active_index < self.identity.accounts.len()
            && self.identity.accounts[self.identity.active_index].hardware() {
            return Reply::ask(Outcome::NeedsHardwareReconnect { open_send: false });
        }
        Reply::idle()
    }
}

// ── the account picker ──────────────────────────────────────────────────────

impl ScreenModel {
    /// With the Safe's history and queue gone.
    pub open spec fn safe_left(self) -> ScreenModel {
        ScreenModel {
            history: self.history.forgotten(),
            queue: crate::safe_queue::QueueModel::empty(),
            ..self
        }
    }

    /// Showing what is kept for the identity that came on screen.
    pub open spec fn reseeded(self, config: ConfigModel) -> ScreenModel {
        ScreenModel {
            portfolio: self.portfolio.seeded(self.identity.shown(), self.scope(config)),
            ..self
        }
    }

    /// With the given Safe, or none, on screen and no dialog.
    pub open spec fn showing(self, active_safe: Option<usize>) -> ScreenModel {
        ScreenModel {
            modal: Modal::Closed,
            identity: IdentityModel { active_safe, ..self.identity },
            ..self
        }
    }
}

/// An account was picked. Picking leaves the Safe on screen; another account is
/// for the application to open.
pub open spec fn on_pick_account(m: ScreenModel, i: usize, env: EnvModel) -> Turn {
    let was_safe = m.identity.active_safe is Some;
    let left = if was_safe {
        m.showing(None).safe_left()
    } else {
        m.showing(None)
    };
    if i != m.identity.active_index && i < m.identity.accounts.len() {
        Turn { state: left, answer: wishing(Wish::Switch(i)) }
    } else if was_safe {
        let state = left.reseeded(env.config);
        Turn { state, answer: doing(reloading(state.identity, env.config)) }
    } else {
        silent(left)
    }
}

/// A Safe was picked.
pub open spec fn on_pick_safe(m: ScreenModel, i: usize, env: EnvModel) -> Turn {
    if i < m.identity.safes.len() {
        let state = m.showing(Some(i)).reseeded(env.config).safe_left().queue_asked(env.config);
        Turn {
            state,
            answer: doing(
                reloading(state.identity, env.config) + fetching_queue(state.identity, env.config),
            ),
        }
    } else {
        silent(ScreenModel { modal: Modal::Closed, ..m })
    }
}

/// Something happened to the account picker.
pub open spec fn on_picker(m: ScreenModel, child: account_dropdown::Message, env: EnvModel) -> Turn {
    if !(m.modal is AccountDropdown) {
        silent(m)
    } else {
        let closed = ScreenModel { modal: Modal::Closed, ..m };
        match child {
            account_dropdown::Message::Select(i) => on_pick_account(m, i, env),
            account_dropdown::Message::SelectSafe(i) => on_pick_safe(m, i, env),
            account_dropdown::Message::Add => Turn { state: closed, answer: wishing(Wish::Add) },
            account_dropdown::Message::Close => silent(closed),
            account_dropdown::Message::BoxClickIgnored => silent(m),
            account_dropdown::Message::Key(e) => if e.is_escape() {
                silent(closed)
            } else {
                silent(m)
            },
        }
    }
}

impl WalletScreen {
    fn pick_account(&mut self, i: usize, env: &Env) -> (r: Reply)
        ensures
            (Turn { state: final(self)@, answer: r@ }) == on_pick_account(old(self)@, i, env@),
    {
        self.modal = Modal::Closed;
        let was_safe = self.identity.active_safe.is_some();
        self.identity.active_safe = None;
        if was_safe {
            self.history.forget();
            self.queue.clear();
        }
        if i != self.identity.active_index && i < self.identity.accounts.len() {
            return Reply::ask(Outcome::Switch(i));
        }
        if was_safe {
            let shown = self.identity.display_address();
            let allowed = self.identity.allowed_networks(&env.config.custom);
            self.portfolio.seed(shown, &allowed);
            return Reply::all(self.reload(&env.config));
        }
        Reply::idle()
    }

    fn pick_safe(&mut self, i: usize, env: &Env) -> (r: Reply)
        ensures
            (Turn { state: final(self)@, answer: r@ }) == on_pick_safe(old(self)@, i, env@),
    {
        self.modal = Modal::Closed;
        if i < self.identity.safes.len() {
            self.identity.active_safe = Some(i);
            let shown = self.identity.display_address();
            let allowed = self.identity.allowed_networks(&env.config.custom);
            self.portfolio.seed(shown, &allowed);
            self.history.forget();
            self.queue.clear();
            let mut out = self.reload(&env.config);
            let mut more = self.ask_queue(env);
            proof {
                lemma_acts_sum(out@, more@);
            }
            out.append(&mut more);
            return Reply::all(out);
        }
        Reply::idle()
    }

    /// Something happened to the account picker.
    pub fn account_dropdown(&mut self, child: account_dropdown::Message, env: &Env) -> (r: Reply)
        ensures
            (Turn { state: final(self)@, answer: r@ }) == on_picker(old(self)@, child, env@),
    {
        match &self.modal {
            Modal::AccountDropdown => {},
            _ => {
                return Reply::idle();
            },
        }
        let mut picker = account_dropdown::AccountDropdown::new();
        match picker.update(child) {
            Some(account_dropdown::Outcome::Switch(i)) => self.pick_account(i, env),
            Some(account_dropdown::Outcome::SelectSafe(i)) => self.pick_safe(i, env),
            Some(account_dropdown::Outcome::Add) => {
                self.modal = Modal::Closed;
                Reply::ask(Outcome::Add)
            },
            Some(account_dropdown::Outcome::Closed) => {
                self.modal = Modal::Closed;
                Reply::idle()
            },
            None => Reply::idle(),
        }
    }
}

// ── names of accounts ───────────────────────────────────────────────────────

/// A name as it is stored: without white space around it, and none where nothing
/// is left.
pub open spec fn cleaned(s: Seq<char>) -> Option<Seq<char>> {
    if trimmed(s).len() == 0 {
        None
    } else {
        Some(trimmed(s))
    }
}

/// A name as it is stored.
fn clean(s: &str) -> (r: Option<String>)
    ensures
        opt_view(r) == cleaned(s@),
{
    let t = trim(s);
    if is_blank(s) {
        None
    } else {
        Some(t)
    }
}

impl IdentityModel {
    /// With another name for the active account.
    pub open spec fn renamed(self, n: Option<String>) -> IdentityModel {
        IdentityModel {
            accounts: if self.active_index < self.accounts.len() {
                self.accounts.update(
                    self.active_index as int,
                    self.accounts[self.active_index as int].named(n),
                )
            } else {
                self.accounts
            },
            ..self
        }
    }
}

/// The user ends typing a name. `n` is the name as it is stored.
pub open spec fn on_commit_rename(m: ScreenModel, n: Option<String>) -> Turn {
    match m.rename_draft {
        Some(_) => Turn {
            state: ScreenModel {
                rename_draft: None,
                identity: m.identity.renamed(n),
                ..m
            },
            answer: wishing(Wish::RenameActive(opt_view(n))),
        },
        None => silent(m),
    }
}

/// Whether a name that was looked up is taken over: it is for the active account,
/// and that has none.
pub open spec fn takes_name(
    m: ScreenModel,
    address: Address,
    result: Result<Option<String>, String>,
) -> bool {
    &&& address == m.identity.address
    &&& result matches Ok(Some(_))
    &&& m.identity.account() is Some
    &&& !m.identity.named()
}

/// A name was looked up for an account. `n` is the name as it is stored.
pub open spec fn on_name_found(
    m: ScreenModel,
    address: Address,
    result: Result<Option<String>, String>,
    n: Option<String>,
) -> Turn {
    if takes_name(m, address, result) {
        Turn {
            state: ScreenModel { identity: m.identity.renamed(n), ..m },
            answer: wishing(Wish::RenameActive(opt_view(result->Ok_0))),
        }
    } else {
        silent(m)
    }
}

/// The user starts typing a name.
pub open spec fn on_begin_rename(m: ScreenModel) -> Turn {
    Turn {
        state: ScreenModel {
            rename_draft: Some(
                match m.identity.account() {
                    Some(a) => match a.given_name() {
                        Some(n) => n@,
                        None => Seq::empty(),
                    },
                    None => Seq::empty(),
                },
            ),
            ..m
        },
        answer: doing(seq![Act::Plain(Effect::FocusRename)]),
    }
}

impl WalletScreen {
    /// The user starts typing a name for the active account.
    pub fn begin_rename(&mut self) -> (r: Reply)
        ensures
            (Turn { state: final(self)@, answer: r@ }) == on_begin_rename(old(self)@),
    {
        let current: String = if self.identity.active_index < self.identity.accounts.len() {
            match self.identity.accounts[self.identity.active_index].name() {
                Some(n) => n,
                None => String::new(),
            }
        } else {
            String::new()
        };
        proof {
            reveal_strlit("");
        }
        assert(old(self)@.identity.account() is None ==> current@ =~= Seq::<char>::empty());
        self.rename_draft = Some(current);
        Reply::one(Effect::FocusRename)
    }

    /// The user ends typing a name: it is stored without white space around it, and
    /// an empty one takes the name away.
    pub fn commit_rename(&mut self) -> (r: Reply)
        ensures
            exists|n: Option<String>| #[trigger]
                opt_view(n) == cleaned(
                    match old(self)@.rename_draft {
                        Some(d) => d,
                        None => Seq::empty(),
                    },
                ) && (Turn { state: final(self)@, answer: r@ }) == on_commit_rename(old(self)@, n),
    {
        match self.rename_draft.take() {
            Some(d) => {
                let n = clean(d.as_str());
                let kept = crate::identity::copy_opt(&n);
                self.identity.set_active_name(kept);
                assert(opt_view(n) == cleaned(d@));
                let r = Reply::ask(Outcome::RenameActive(n));
                assert((Turn { state: self@, answer: r@ }) == on_commit_rename(old(self)@, n));
                r
            },
            None => {
                let n = clean("");
                proof {
                    reveal_strlit("");
                    assert(""@ =~= Seq::<char>::empty());
                }
                let r = Reply::idle();
                assert((Turn { state: self@, answer: r@ }) == on_commit_rename(old(self)@, n));
                r
            },
        }
    }

    /// A name was looked up for an account. It is taken over only where the account
    /// is still active and has no name.
    pub fn ens_auto_name(&mut self, address: Address, result: Result<Option<String>, String>) -> (r:
        Reply)
        ensures
            exists|n: Option<String>| #[trigger]
                opt_view(n) == cleaned(
                    match result {
                        Ok(Some(t)) => t@,
                        _ => Seq::empty(),
                    },
                ) && (Turn { state: final(self)@, answer: r@ }) == on_name_found(
                    old(self)@,
                    address,
                    result,
                    n,
                ),
    {
        let ghost m = self@;
        let none = clean("");
        proof {
            reveal_strlit("");
            assert(""@ =~= Seq::<char>::empty());
        }
        match result {
            Ok(Some(name)) => {
                let n = clean(name.as_str());
                let free = self.identity.active_index < self.identity.accounts.len()
                    && self.identity.accounts[self.identity.active_index].name().is_none();
                if address != self.identity.address || !free {
                    let r = Reply::idle();
                    assert((Turn { state: self@, answer: r@ }) == on_name_found(
                        m,
                        address,
                        result,
                        n,
                    ));
                    return r;
                }
                let kept = crate::identity::copy_opt(&n);
                self.identity.set_active_name(kept);
                let r = Reply::ask(Outcome::RenameActive(Some(name)));
                assert((Turn { state: self@, answer: r@ }) == on_name_found(m, address, result, n));
                r
            },
            _ => {
                let r = Reply::idle();
                assert((Turn { state: self@, answer: r@ }) == on_name_found(
                    m,
                    address,
                    result,
                    none,
                ));
                r
            },
        }
    }
}

} // verus!
