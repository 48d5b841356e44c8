//! The dashboard's dialogs for sending and receiving.

use vstd::prelude::*;

use crate::identity::{first_key, first_local_key_of, AccountDescriptor};
use crate::portfolio::{holding, holding_of};
use crate::safe_tx::{choose_executor, Executor};
use crate::screen::{
    acts, doing, fetching_history, fetching_queue, lemma_acts_sum, reloading, silent, wishing, Act,
    Effect, Env, EnvModel, Modal, Outcome, Reply, ScreenModel, SendModal, Turn, WalletScreen, Wish,
};
use crate::signer::SignerHandoff;
use crate::types::{Address, Hash32};

verus! {

// ── opening dialogs ─────────────────────────────────────────────────────────

impl ScreenModel {
    /// With a dialog coming up.
    pub open spec fn opened(self, modal: Modal, now: u64) -> ScreenModel {
        ScreenModel {
            modal,
            chrome: crate::modal_chrome::ModalChrome { start: now, closing: false, open: true },
            ..self
        }
    }

    /// With the dialog going away.
    pub open spec fn closing(self, now: u64) -> ScreenModel {
        ScreenModel { chrome: self.chrome.close_started(now), ..self }
    }
}

/// The send dialog was asked for.
pub open spec fn on_open_send(m: ScreenModel, env: EnvModel) -> Turn {
    if m.identity.safe() is Some {
        silent(m.opened(Modal::Send(SendModal { is_safe: true, busy: false }), env.now))
    } else if !m.desk.can_sign() {
        if m.identity.account() matches Some(a) && a.is_hardware() {
            Turn {
                state: m,
                answer: wishing(Wish::NeedsHardwareReconnect { open_send: true }),
            }
        } else {
            silent(m)
        }
    } else {
        Turn {
            state: m.opened(Modal::Send(SendModal { is_safe: false, busy: false }), env.now),
            answer: doing(reloading(m.identity, env.config)),
        }
    }
}

/// The receive dialog was asked for.
pub open spec fn on_open_receive(m: ScreenModel, env: EnvModel) -> Turn {
    silent(m.opened(Modal::Receive(m.identity.shown()), env.now))
}

/// The details of a transaction were asked for, by its place in the feed.
pub open spec fn on_open_tx(m: ScreenModel, i: usize, env: EnvModel) -> Turn {
    if i < m.history.rows.len() {
        silent(m.opened(Modal::TxDetails(m.history.rows[i as int]), env.now))
    } else {
        silent(m)
    }
}

impl WalletScreen {
    /// The send dialog was asked for. An account that cannot sign has none; where a
    /// device could sign, it is to be connected first.
    pub fn open_send(&mut self, env: &Env) -> (r: Reply)
        ensures
            (Turn { state: final(self)@, answer: r@ }) == on_open_send(old(self)@, env@),
    {
        if self.identity.active_safe_descriptor().is_some() {
            self.modal = Modal::Send(SendModal { is_safe: true, busy: false });
            self.chrome.open(env.now);
            return Reply::idle();
        }
        if !self.desk.signer.can_sign() {
            if self.identity.active_index < self.identity.accounts.len()
                && self.identity.accounts[self.identity.active_index].hardware() {
                return Reply::ask(Outcome::NeedsHardwareReconnect { open_send: true });
            }
            return Reply::idle();
        }
        self.modal = Modal::Send(SendModal { is_safe: false, busy: false });
        self.chrome.open(env.now);
        Reply::all(self.reload(&env.config))
    }

    /// The receive dialog was asked for.
    pub fn open_receive(&mut self, env: &Env) -> (r: Reply)
        ensures
            (Turn { state: final(self)@, answer: r@ }) == on_open_receive(old(self)@, env@),
    {
        self.modal = Modal::Receive(self.identity.display_address());
        self.chrome.open(env.now);
        Reply::idle()
    }

    /// The details of a transaction were asked for.
    pub fn open_tx_details(&mut self, i: usize, env: &Env) -> (r: Reply)
        ensures
            (Turn { state: final(self)@, answer: r@ }) == on_open_tx(old(self)@, i, env@),
    {
        if i < self.history.rows.len() {
            self.modal = Modal::TxDetails(self.history.rows[i].clone());
            self.chrome.open(env.now);
        }
        Reply::idle()
    }
}

// ── sending ─────────────────────────────────────────────────────────────────

/// What a Safe's send needs of its owners.
#[derive(Debug)]
pub struct SafeAsk {
    /// How many owners have to sign.
    pub threshold: u32,
    /// The owners that can sign, by their place in the wallet's list.
    pub signable_indices: Vec<u32>,
}

/// What the send dialog asks of the dashboard.
#[derive(Debug)]
pub enum SendOutcome {
    Closed,
    CopyText(String),
    SaveAsContact { address: Address, ens: Option<String> },
}

/// What happens in the send dialog. The dialog handles its own events; what
/// concerns the dashboard comes here.
#[derive(Debug)]
pub enum SendEvent {
    /// Send as much as possible of the token with this number.
    Max(usize),
    /// The review page is opened; a transaction could be put together, or not.
    Review { planned: bool },
    /// The user confirms. An account's send is `ready` where its transaction and
    /// its gas are known; a Safe's has a request where its form is complete.
    Confirm { ready: bool, request: Option<SafeAsk> },
    /// The user proposes the transaction to the other owners.
    Propose { request: Option<SafeAsk> },
    /// Anything else, with what the dialog asks for: of the dashboard, a name to be
    /// looked up, a transaction to be worked out, a simulation to be run again.
    Other {
        outcome: Option<SendOutcome>,
        lookup: Option<(u64, String)>,
        prepare: bool,
        retry: Option<bool>,
    },
}

/// The accounts at the given places, where there are such accounts.
pub open spec fn accounts_at(indices: Seq<u32>, accounts: Seq<AccountDescriptor>) -> Seq<
    AccountDescriptor,
>
    decreases indices.len(),
{
    if indices.len() == 0 {
        Seq::empty()
    } else {
        let rest = accounts_at(indices.drop_last(), accounts);
        if indices.last() < accounts.len() {
            rest.push(accounts[indices.last() as int])
        } else {
            rest
        }
    }
}

/// The first accounts at the given places, at most as many as are needed.
pub open spec fn signing_accounts(ask: SafeAsk, accounts: Seq<AccountDescriptor>) -> Seq<
    AccountDescriptor,
> {
    crate::history::capped(
        accounts_at(ask.signable_indices@, accounts),
        ask.threshold as nat,
    )
}

/// The accounts that sign a Safe's send.
fn signers_for(ask: &SafeAsk, accounts: &Vec<AccountDescriptor>) -> (r: Vec<AccountDescriptor>)
    ensures
        r@ == signing_accounts(*ask, accounts@),
{
    let indices = &ask.signable_indices;
    let mut out: Vec<AccountDescriptor> = Vec::new();
    let mut i: usize = 0;
    while i < indices.len()
        invariant
            indices@ == ask.signable_indices@,
            i <= indices.len(),
            out@ == accounts_at(indices@.take(i as int), accounts@),
        decreases indices.len() - i,
    {
        assert(indices@.take(i + 1).drop_last() =~= indices@.take(i as int));
        let at = indices[i];
        if (at as usize) < accounts.len() {
            out.push(accounts[at as usize].clone());
        }
        i += 1;
    }
    assert(indices@.take(indices@.len() as int) =~= indices@);
    let ghost all = out@;
    out.truncate(ask.threshold as usize);
    assert(out@ =~= signing_accounts(*ask, accounts@));
    out
}

/// What is said where too few owners can sign.
pub open spec fn too_few() -> Seq<char> {
    "Not enough signable owners linked to this Safe to meet its threshold — propose to co-signers instead."@
}

/// The user confirms a send.
pub open spec fn on_confirm(m: ScreenModel, p: SendModal, ready: bool, request: Option<SafeAsk>) -> Turn {
    let busy = ScreenModel { modal: Modal::Send(SendModal { busy: true, ..p }), ..m };
    if !p.is_safe {
        if ready {
            Turn {
                state: ScreenModel { desk: m.desk.lent(), ..busy },
                answer: doing(
                    seq![
                        Act::Plain(
                            Effect::Broadcast {
                                handoff: SignerHandoff { cell: Some(m.desk.signer) },
                                desc: m.identity.signer_desc(),
                            },
                        ),
                    ],
                ),
            }
        } else {
            silent(m)
        }
    } else {
        match request {
            Some(ask) => {
                let owners = signing_accounts(ask, m.identity.accounts);
                if owners.len() < ask.threshold {
                    Turn {
                        state: ScreenModel {
                            modal: Modal::Send(SendModal { busy: false, ..p }),
                            ..m
                        },
                        answer: doing(seq![Act::SendFailed(too_few())]),
                    }
                } else {
                    Turn {
                        state: busy,
                        answer: doing(
                            seq![
                                Act::BroadcastSafe {
                                    owners,
                                    executor: match first_key(m.identity.accounts) {
                                        Some(k) => Executor::Local(k),
                                        None => Executor::FirstOwner,
                                    },
                                },
                            ],
                        ),
                    }
                }
            },
            None => silent(m),
        }
    }
}

/// The account at the first of the given places.
pub open spec fn first_at(indices: Seq<u32>, accounts: Seq<AccountDescriptor>) -> Option<
    AccountDescriptor,
> {
    if indices.len() > 0 && indices[0] < accounts.len() {
        Some(accounts[indices[0] as int])
    } else {
        None
    }
}

/// The user proposes a Safe's send to the other owners.
pub open spec fn on_propose(m: ScreenModel, p: SendModal, request: Option<SafeAsk>) -> Turn {
    match request {
        Some(ask) => match first_at(ask.signable_indices@, m.identity.accounts) {
            Some(owner) => Turn {
                state: ScreenModel { modal: Modal::Send(SendModal { busy: true, ..p }), ..m },
                answer: doing(seq![Act::Plain(Effect::ProposeSafe { owner })]),
            },
            None => Turn {
                state: ScreenModel { modal: Modal::Send(SendModal { busy: false, ..p }), ..m },
                answer: doing(
                    seq![Act::ProposeFailed("no signable owner linked to this Safe"@)],
                ),
            },
        },
        None => silent(m),
    }
}

/// What the dialog asks for beside its outcome.
pub open spec fn send_chores(lookup: Option<(u64, String)>, prepare: bool, retry: Option<bool>) -> Seq<
    Act,
> {
    let a: Seq<Act> = match lookup {
        Some((seq, name)) => seq![Act::Plain(Effect::ResolveSend { seq, name })],
        None => Seq::empty(),
    };
    let b: Seq<Act> = if prepare {
        seq![Act::Plain(Effect::PrepareSafeSend)]
    } else {
        Seq::empty()
    };
    let c: Seq<Act> = match retry {
        Some(delayed) => seq![Act::Plain(Effect::RetrySafeSim { delayed })],
        None => Seq::empty(),
    };
    a + b + c
}

/// Copying a text: it is written and cleared after a while.
pub open spec fn copying(text: String, generation: u64) -> Seq<Act> {
    seq![
        Act::Plain(Effect::WriteClipboard(text)),
        Act::Plain(Effect::StartClearTimer(generation)),
    ]
}

/// The dialog did something that concerns the dashboard.
pub open spec fn on_send_other(
    m: ScreenModel,
    p: SendModal,
    outcome: Option<SendOutcome>,
    chores: Seq<Act>,
    env: EnvModel,
) -> Turn {
    match outcome {
        Some(SendOutcome::Closed) => Turn {
            state: if p.is_safe {
                ScreenModel { modal: Modal::Closed, ..m }
            } else {
                m.closing(env.now)
            },
            answer: doing(chores),
        },
        Some(SendOutcome::CopyText(t)) => Turn {
            state: ScreenModel { clipboard: m.clipboard.armed(t, env.now), ..m },
            answer: doing(
                chores + copying(t, crate::clipboard::next_copy(m.clipboard.generation)),
            ),
        },
        Some(SendOutcome::SaveAsContact { address, ens }) => Turn {
            state: m,
            answer: doing(chores.push(Act::Plain(Effect::OpenContacts { address, ens }))),
        },
        None => Turn { state: m, answer: doing(chores) },
    }
}

/// Something happened in the send dialog.
pub open spec fn on_send(m: ScreenModel, e: SendEvent, env: EnvModel) -> Turn {
    match m.modal {
        Modal::Send(p) => match e {
            SendEvent::Max(i) => if i < m.portfolio.rows.len() {
                Turn {
                    state: m,
                    answer: doing(
                        seq![Act::Plain(Effect::ApplyMax(holding_of(m.portfolio.rows[i as int])))],
                    ),
                }
            } else {
                silent(m)
            },
            SendEvent::Review { planned } => if !p.is_safe && planned {
                Turn {
                    state: m,
                    answer: doing(
                        seq![Act::Plain(Effect::QuoteSend), Act::Plain(Effect::DecodeSend)],
                    ),
                }
            } else {
                silent(m)
            },
            SendEvent::Confirm { ready, request } => on_confirm(m, p, ready, request),
            SendEvent::Propose { request } => on_propose(m, p, request),
            SendEvent::Other { outcome, lookup, prepare, retry } => on_send_other(
                m,
                p,
                outcome,
                send_chores(lookup, prepare, retry),
                env,
            ),
        },
        _ => silent(m),
    }
}

impl WalletScreen {
    /// Copies a text: it is written to the clipboard and cleared after a while.
    pub fn arm_clipboard_clear(&mut self, text: String, env: &Env) -> (r: Vec<Effect>)
        ensures
            final(self)@ == (ScreenModel {
                clipboard: old(self)@.clipboard.armed(text, env@.now),
                ..old(self)@
            }),
            acts(r@) == copying(
                text,
                crate::clipboard::next_copy(old(self)@.clipboard.generation),
            ),
    {
        let kept = text.clone();
        let generation = self.clipboard.arm_clipboard_clear(kept, env.now);
        let mut out: Vec<Effect> = Vec::new();
        out.push(Effect::WriteClipboard(text));
        out.push(Effect::StartClearTimer(generation));
        assert(acts(out@) =~= copying(text, generation));
        out
    }

    fn confirm_send(&mut self, p: SendModal, ready: bool, request: Option<SafeAsk>) -> (r: Reply)
        requires
            old(self)@.modal == Modal::Send(p),
        ensures
            (Turn { state: final(self)@, answer: r@ }) == on_confirm(
                old(self)@,
                p,
                ready,
                request,
            ),
    {
        if !p.is_safe {
            if ready {
                let desc = self.identity.active_signer_descriptor();
                let handoff = self.desk.lend_signer();
                self.modal = Modal::Send(SendModal { busy: true, ..p });
                return Reply::one(Effect::Broadcast { handoff, desc });
            }
            return Reply::idle();
        }
        match request {
            Some(ask) => {
                let owners = signers_for(&ask, &self.identity.accounts);
                if owners.len() < ask.threshold as usize {
                    self.modal = Modal::Send(SendModal { busy: false, ..p });
                    return Reply::one(
                        Effect::SendFailed(
                            "Not enough signable owners linked to this Safe to meet its threshold — propose to co-signers instead.".to_string(),
                        ),
                    );
                }
                let executor = choose_executor(first_local_key_of(&self.identity.accounts));
                self.modal = Modal::Send(SendModal { busy: true, ..p });
                Reply::one(Effect::BroadcastSafe { owners, executor })
            },
            None => Reply::idle(),
        }
    }

    fn propose_send(&mut self, p: SendModal, request: Option<SafeAsk>) -> (r: Reply)
        requires
            old(self)@.modal == Modal::Send(p),
        ensures
            (Turn { state: final(self)@, answer: r@ }) == on_propose(old(self)@, p, request),
    {
        match request {
            Some(ask) => {
                if ask.signable_indices.len() > 0 && (ask.signable_indices[0] as usize)
                    < self.identity.accounts.len() {
                    let owner = self.identity.accounts[ask.signable_indices[0] as usize].clone();
                    self.modal = Modal::Send(SendModal { busy: true, ..p });
                    return Reply::one(Effect::ProposeSafe { owner });
                }
                self.modal = Modal::Send(SendModal { busy: false, ..p });
                Reply::one(
                    Effect::ProposeFailed("no signable owner linked to this Safe".to_string()),
                )
            },
            None => Reply::idle(),
        }
    }

    fn send_other(
        &mut self,
        p: SendModal,
        outcome: Option<SendOutcome>,
        chores: Vec<Effect>,
        env: &Env,
    ) -> (r: Reply)
        ensures
            (Turn { state: final(self)@, answer: r@ }) == on_send_other(
                old(self)@,
                p,
                outcome,
                acts(chores@),
                env@,
            ),
    {
        let mut out = chores;
        match outcome {
            Some(SendOutcome::Closed) => {
                if p.is_safe {
                    self.modal = Modal::Closed;
                } else {
                    self.chrome.start_close(env.now);
                }
                Reply::all(out)
            },
            Some(SendOutcome::CopyText(t)) => {
                let mut more = self.arm_clipboard_clear(t, env);
                proof {
                    lemma_acts_sum(out@, more@);
                }
                out.append(&mut more);
                Reply::all(out)
            },
            Some(SendOutcome::SaveAsContact { address, ens }) => {
                let ghost before = out@;
                let e = Effect::OpenContacts { address, ens };
                out.push(e);
                assert(acts(out@) =~= acts(before).push(e@));
                Reply::all(out)
            },
            None => Reply::all(out),
        }
    }

    /// Something happened in the send dialog.
    pub fn send(&mut self, e: SendEvent, env: &Env) -> (r: Reply)
        ensures
            (Turn { state: final(self)@, answer: r@ }) == on_send(old(self)@, e, env@),
    {
        let p: SendModal = match &self.modal {
            Modal::Send(p) => *p,
            _ => {
                return Reply::idle();
            },
        };
        match e {
            SendEvent::Max(i) => {
                if i < self.portfolio.rows.len() {
                    return Reply::one(Effect::ApplyMax(holding(&self.portfolio.rows[i])));
                }
                Reply::idle()
            },
            SendEvent::Review { planned } => {
                if !p.is_safe && planned {
                    return Reply::two(Effect::QuoteSend, Effect::DecodeSend);
                }
                Reply::idle()
            },
            SendEvent::Confirm { ready, request } => self.confirm_send(p, ready, request),
            SendEvent::Propose { request } => self.propose_send(p, request),
            SendEvent::Other { outcome, lookup, prepare, retry } => {
                let mut chores: Vec<Effect> = Vec::new();
                match lookup {
                    Some((seq, name)) => {
                        chores.push(Effect::ResolveSend { seq, name });
                    },
                    None => {},
                }
                if prepare {
                    chores.push(Effect::PrepareSafeSend);
                }
                match retry {
                    Some(delayed) => {
                        chores.push(Effect::RetrySafeSim { delayed });
                    },
                    None => {},
                }
                assert(acts(chores@) =~= send_chores(lookup, prepare, retry));
                self.send_other(p, outcome, chores, env)
            },
        }
    }
}

// ── what became of a send ───────────────────────────────────────────────────

/// An account's send was broadcast, or failed to be, and its signer comes back.
pub open spec fn on_broadcast(
    m: ScreenModel,
    result: Result<Hash32, String>,
    signer: SignerHandoff,
    env: EnvModel,
) -> Turn {
    let back = ScreenModel { desk: m.desk.installed(signer), ..m };
    match m.modal {
        Modal::Send(p) => {
            let told = ScreenModel { modal: Modal::Send(SendModal { busy: false, ..p }), ..back };
            let first = seq![Act::Plain(Effect::SendDone(result))];
            if result is Ok {
                let advance = seq![Act::Plain(Effect::AdvanceSend)];
                if m.history.loaded {
                    Turn {
                        state: ScreenModel {
                            history: m.history.asking(m.identity.history_chains(env.config)),
                            ..told
                        },
                        answer: doing(
                            first + reloading(m.identity, env.config) + fetching_history(
                                m.identity,
                                env.config,
                            ) + advance,
                        ),
                    }
                } else {
                    Turn {
                        state: told,
                        answer: doing(first + reloading(m.identity, env.config) + advance),
                    }
                }
            } else {
                Turn { state: told, answer: doing(first) }
            }
        },
        _ => silent(back),
    }
}

/// A Safe's send was broadcast, or failed to be.
pub open spec fn on_safe_broadcast(m: ScreenModel, result: Result<Hash32, String>, env: EnvModel) -> Turn {
    match m.modal {
        Modal::Send(p) => Turn {
            state: ScreenModel { modal: Modal::Send(SendModal { busy: false, ..p }), ..m },
            answer: doing(
                seq![Act::Plain(Effect::SendDone(result))] + if result is Ok {
                    reloading(m.identity, env.config)
                } else {
                    Seq::empty()
                },
            ),
        },
        _ => silent(m),
    }
}

/// A Safe's send was proposed, or failed to be.
pub open spec fn on_safe_propose(m: ScreenModel, result: Result<(), String>, env: EnvModel) -> Turn {
    match m.modal {
        Modal::Send(p) => Turn {
            state: ScreenModel { modal: Modal::Send(SendModal { busy: false, ..p }), ..m },
            answer: doing(
                seq![Act::Plain(Effect::ProposeDone(result))] + if result is Ok {
                    fetching_queue(m.identity, env.config)
                } else {
                    Seq::empty()
                },
            ),
        },
        _ => silent(m),
    }
}

impl WalletScreen {
    /// An account's send was broadcast, or failed to be. The signer is taken back in
    /// any case; after a success balances are fetched, and the history where it was
    /// looked at.
    pub fn send_broadcast_return(
        &mut self,
        result: Result<Hash32, String>,
        signer: SignerHandoff,
        env: &Env,
    ) -> (r: Reply)
        ensures
            (Turn { state: final(self)@, answer: r@ }) == on_broadcast(
                old(self)@,
                result,
                signer,
                env@,
            ),
    {
        self.desk.install_reclaimed_signer(signer);
        let p: SendModal = match &self.modal {
            Modal::Send(p) => *p,
            _ => {
                return Reply::idle();
            },
        };
        self.modal = Modal::Send(SendModal { busy: false, ..p });
        let worked = result.is_ok();
        let mut out: Vec<Effect> = Vec::new();
        out.push(Effect::SendDone(result));
        assert(acts(out@) =~= seq![Act::Plain(Effect::SendDone(result))]);
        if !worked {
            return Reply::all(out);
        }
        let mut more = self.reload(&env.config);
        proof {
            lemma_acts_sum(out@, more@);
        }
        out.append(&mut more);
        if self.history.loaded {
            let chains = self.identity.history_chains(&env.config);
            self.history.ask(chains);
            let mut old_rows = self.fetch_history_task(&env.config);
            proof {
                lemma_acts_sum(out@, old_rows@);
            }
            out.append(&mut old_rows);
        }
        let ghost before = out@;
        let last = Effect::AdvanceSend;
        out.push(last);
        assert(acts(out@) =~= acts(before) + seq![Act::Plain(Effect::AdvanceSend)]);
        Reply::all(out)
    }

    /// A Safe's send was broadcast, or failed to be.
    pub fn safe_send_broadcast_return(&mut self, result: Result<Hash32, String>, env: &Env) -> (r:
        Reply)
        ensures
            (Turn { state: final(self)@, answer: r@ }) == on_safe_broadcast(
                old(self)@,
                result,
                env@,
            ),
    {
        let p: SendModal = match &self.modal {
            Modal::Send(p) => *p,
            _ => {
                return Reply::idle();
            },
        };
        self.modal = Modal::Send(SendModal { busy: false, ..p });
        let worked = result.is_ok();
        let mut out: Vec<Effect> = Vec::new();
        out.push(Effect::SendDone(result));
        assert(acts(out@) =~= seq![Act::Plain(Effect::SendDone(result))]);
        if worked {
            let mut more = self.reload(&env.config);
            proof {
                lemma_acts_sum(out@, more@);
            }
            out.append(&mut more);
        } else {
            assert(acts(out@) =~= acts(out@) + Seq::<Act>::empty());
        }
        Reply::all(out)
    }

    /// A Safe's send was proposed, or failed to be. After a success the queue is
    /// asked for.
    pub fn safe_send_propose_return(&mut self, result: Result<(), String>, env: &Env) -> (r: Reply)
        ensures
            (Turn { state: final(self)@, answer: r@ }) == on_safe_propose(
                old(self)@,
                result,
                env@,
            ),
    {
        let p: SendModal = match &self.modal {
            Modal::Send(p) => *p,
            _ => {
                return Reply::idle();
            },
        };
        self.modal = Modal::Send(SendModal { busy: false, ..p });
        let worked = result.is_ok();
        let mut out: Vec<Effect> = Vec::new();
        out.push(Effect::ProposeDone(result));
        let ghost first = seq![Act::Plain(Effect::ProposeDone(result))];
        assert(acts(out@) =~= first);
        if worked {
            match self.fetch_safe_pending_task(&env.config) {
                Some(e) => {
                    out.push(e);
                    assert(acts(out@) =~= first + seq![e@]);
                },
                None => {
                    assert(acts(out@) =~= first + fetching_queue(self@.identity, env@.config));
                },
            }
        } else {
            assert(acts(out@) =~= first + Seq::<Act>::empty());
        }
        Reply::all(out)
    }
}

} // verus!
