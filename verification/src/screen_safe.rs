//! The dashboard's dialog for a queued transaction of a Safe.

use vstd::prelude::*;

use crate::identity::{
    copy_opt, desc_of, first_key, first_local_key_of, owner_desc_by_address, service_base,
    service_text, signable_owners_of, AccountDescriptor, IdentityModel, SafeDescriptor,
};
use crate::safe_tx::{ensure_signable_version, signable_version};
use crate::screen::{
    acts, doing, fetching_queue, lemma_acts_sum, silent, Act, DetailFacts, DetailModal, Effect,
    Env, EnvModel, Modal, Reply, ScreenModel, Turn, WalletScreen,
};
use crate::types::{Address, Chain, Hash32};

verus! {

// ── opening the dialog ──────────────────────────────────────────────────────

/// Asking for the transaction of the dialog.
pub open spec fn loading(p: DetailModal, threshold: u32, delayed: bool) -> Act {
    Act::LoadDetail {
        service: service_text(p.service),
        safe: p.safe,
        chain: p.chain,
        hash: p.safe_tx_hash,
        threshold,
        delayed,
    }
}

/// The dialog for a transaction in the queue of a Safe.
pub open spec fn fresh_detail(s: SafeDescriptor, chain: Chain, hash: Hash32, nonce: u64) -> DetailModal {
    DetailModal {
        safe: s.address,
        chain,
        version: s.version,
        trust: s.trust,
        service: s.tx_service_url,
        safe_tx_hash: hash,
        nonce,
        facts: None,
        busy: false,
        executing: false,
        exec_submitted: false,
    }
}

/// A transaction was asked for, by its place in the queue.
pub open spec fn on_open_detail(m: ScreenModel, i: usize, env: EnvModel) -> Turn {
    if i < m.queue.pending.len() {
        match m.identity.safe() {
            Some(s) => match Chain::of_id(s.chain_id) {
                Some(chain) => {
                    let tx = m.queue.pending[i as int];
                    let p = fresh_detail(s, chain, tx.safe_tx_hash, tx.nonce);
                    Turn {
                        state: m.opened(Modal::SafeTxDetail(p), env.now),
                        answer: doing(seq![loading(p, s.threshold, false)]),
                    }
                },
                None => silent(m),
            },
            None => silent(m),
        }
    } else {
        silent(m)
    }
}

/// The owners that the dialog shows.
#[derive(Debug)]
pub struct OwnerLists {
    pub owners: Vec<Address>,
    /// Those that the wallet can sign for.
    pub signable: Vec<Address>,
    /// An account of the wallet can pay for an execution.
    pub has_local_executor: bool,
}

impl WalletScreen {
    /// The owners of the Safe on screen, and which of them the wallet can sign for.
    pub fn safe_owner_lists(&self) -> (r: Option<OwnerLists>)
        ensures
            match (r, self@.identity.safe()) {
                (Some(l), Some(s)) => {
                    let signers = self@.identity.signers_of(s);
                    &&& l.owners@ == s.owners@
                    &&& l.signable@ == Seq::new(signers.len(), |i: int| signers[i].0)
                    &&& l.has_local_executor == (first_key(self@.identity.accounts) is Some)
                },
                (None, None) => true,
                _ => false,
            },
    {
        let s = match self.identity.active_safe_descriptor() {
            Some(s) => s,
            None => {
                return None;
            },
        };
        let mut owners: Vec<Address> = Vec::new();
        let mut i: usize = 0;
        while i < s.owners.len()
            invariant
                i <= s.owners.len(),
                owners@ == s.owners@.take(i as int),
            decreases s.owners.len() - i,
        {
            owners.push(s.owners[i]);
            assert(s.owners@.take(i + 1) =~= s.owners@.take(i as int).push(s.owners@[i as int]));
            i += 1;
        }
        assert(s.owners@.take(s.owners@.len() as int) =~= s.owners@);
        let signers = signable_owners_of(s, &self.identity.accounts);
        let mut signable: Vec<Address> = Vec::new();
        let mut k: usize = 0;
        while k < signers.len()
            invariant
                k <= signers.len(),
                signable@.len() == k,
                forall|j: int| 0 <= j < k ==> (#[trigger] signable@[j]) == signers@[j].0,
            decreases signers.len() - k,
        {
            signable.push(signers[k].0);
            k += 1;
        }
        assert(signable@ =~= Seq::new(signers@.len(), |i: int| signers@[i].0));
        let has_local_executor = first_local_key_of(&self.identity.accounts).is_some();
        Some(OwnerLists { owners, signable, has_local_executor })
    }

    /// A transaction in the queue was asked for. Nothing happens where the queue has
    /// changed meanwhile.
    pub fn open_safe_tx_details(&mut self, i: usize, env: &Env) -> (r: Reply)
        ensures
            (Turn { state: final(self)@, answer: r@ }) == on_open_detail(old(self)@, i, env@),
    {
        if i >= self.queue.pending.len() {
            return Reply::idle();
        }
        let hash = self.queue.pending[i].safe_tx_hash;
        let nonce: u64 = self.queue.pending[i].nonce;
        let s = match self.identity.active_safe_descriptor() {
            Some(s) => s,
            None => {
                return Reply::idle();
            },
        };
        let chain = match Chain::from_chain_id(s.chain_id) {
            Some(c) => c,
            None => {
                return Reply::idle();
            },
        };
        let p = DetailModal {
            safe: s.address,
            chain,
            version: s.version.clone(),
            trust: s.trust,
            service: copy_opt(&s.tx_service_url),
            safe_tx_hash: hash,
            nonce,
            facts: None,
            busy: false,
            executing: false,
            exec_submitted: false,
        };
        let load = Effect::LoadDetail {
            service: s.tx_service_base(),
            safe: s.address,
            chain,
            hash,
            threshold: s.threshold,
            delayed: false,
        };
        self.modal = Modal::SafeTxDetail(p);
        self.chrome.open(env.now);
        Reply::one(load)
    }
}

// ── simulating ──────────────────────────────────────────────────────────────

/// The address of the first account that the wallet holds the key of; nothing where
/// that key makes no address.
pub open spec fn first_local_address(accounts: Seq<AccountDescriptor>) -> Option<Address>
    decreases accounts.len(),
{
    if accounts.len() == 0 {
        None
    } else {
        match accounts[0] {
            AccountDescriptor::Local { address, .. } => address,
            _ => first_local_address(accounts.drop_first()),
        }
    }
}

/// The address of the account that executes.
fn local_executor(accounts: &Vec<AccountDescriptor>) -> (r: Option<Address>)
    ensures
        r == first_local_address(accounts@),
{
    let mut i: usize = 0;
    assert(accounts@.skip(0) =~= accounts@);
    while i < accounts.len()
        invariant
            i <= accounts.len(),
            first_local_address(accounts@.skip(i as int)) == first_local_address(accounts@),
        decreases accounts.len() - i,
    {
        assert(accounts@.skip(i as int).drop_first() =~= accounts@.skip(i + 1));
        match &accounts[i] {
            AccountDescriptor::Local { address, .. } => {
                return *address;
            },
            _ => {},
        }
        i += 1;
    }
    None
}

/// Simulating the call that the transaction makes.
pub open spec fn simulating_inner(p: DetailModal, f: DetailFacts, delayed: bool) -> Seq<Act> {
    if f.operation == 0 {
        seq![
            Act::Plain(
                Effect::SimulateInner { safe: p.safe, chain: p.chain, hash: p.safe_tx_hash, delayed },
            ),
        ]
    } else {
        Seq::empty()
    }
}

/// Simulating the execution of the transaction.
pub open spec fn simulating_execution(
    p: DetailModal,
    f: DetailFacts,
    executor: Option<Address>,
    delayed: bool,
) -> Seq<Act> {
    match executor {
        Some(executor) => if f.next_up && !p.exec_submitted {
            seq![
                Act::Plain(
                    Effect::SimulateExecution {
                        executor,
                        safe: p.safe,
                        chain: p.chain,
                        hash: p.safe_tx_hash,
                        delayed,
                    },
                ),
            ]
        } else {
            Seq::empty()
        },
        None => Seq::empty(),
    }
}

/// The simulations of the transaction on screen, as far as they can be made: that of
/// its call, for a plain call; that of its execution, where it is the next and an
/// account of the wallet could execute it.
pub open spec fn simulating(m: ScreenModel, inner: bool, execution: bool, delayed: bool) -> Seq<Act> {
    match m.modal {
        Modal::SafeTxDetail(p) => match p.facts {
            Some(f) => (if inner {
                simulating_inner(p, f, delayed)
            } else {
                Seq::empty()
            }) + (if execution {
                simulating_execution(p, f, first_local_address(m.identity.accounts), delayed)
            } else {
                Seq::empty()
            }),
            None => Seq::empty(),
        },
        _ => Seq::empty(),
    }
}

impl WalletScreen {
    /// The simulations of the transaction on screen.
    pub fn safe_detail_sim_tasks(&self, inner: bool, execution: bool, delayed: bool) -> (r: Vec<
        Effect,
    >)
        ensures
            acts(r@) == simulating(self@, inner, execution, delayed),
    {
        let mut out: Vec<Effect> = Vec::new();
        match &self.modal {
            Modal::SafeTxDetail(p) => {
                let f = match p.facts {
                    Some(f) => f,
                    None => {
                        assert(acts(out@) =~= Seq::<Act>::empty());
                        return out;
                    },
                };
                if inner && f.operation == 0 {
                    out.push(
                        Effect::SimulateInner {
                            safe: p.safe,
                            chain: p.chain,
                            hash: p.safe_tx_hash,
                            delayed,
                        },
                    );
                }
                if execution && f.next_up && !p.exec_submitted {
                    match local_executor(&self.identity.accounts) {
                        Some(executor) => {
                            out.push(
                                Effect::SimulateExecution {
                                    executor,
                                    safe: p.safe,
                                    chain: p.chain,
                                    hash: p.safe_tx_hash,
                                    delayed,
                                },
                            );
                        },
                        None => {},
                    }
                }
            },
            _ => {},
        }
        assert(acts(out@) =~= simulating(self@, inner, execution, delayed));
        out
    }
}

// ── answers ─────────────────────────────────────────────────────────────────

impl ScreenModel {
    /// With the dialog for a queued transaction as given.
    pub open spec fn detailing(self, p: DetailModal) -> ScreenModel {
        ScreenModel { modal: Modal::SafeTxDetail(p), ..self }
    }

    /// The queued transaction with the given hash is on screen.
    pub open spec fn details(self, hash: Hash32) -> bool {
        self.modal matches Modal::SafeTxDetail(p) && p.safe_tx_hash == hash
    }
}

/// The transaction came from the queue, or could not be had. What describes another
/// transaction than the one on screen is dropped.
pub open spec fn on_detail_loaded(m: ScreenModel, result: Result<DetailFacts, String>) -> Turn {
    match m.modal {
        Modal::SafeTxDetail(p) => match result {
            Ok(f) => if f.safe_tx_hash == p.safe_tx_hash {
                let after = m.detailing(DetailModal { facts: Some(f), ..p });
                Turn { state: after, answer: doing(simulating(after, true, true, false)) }
            } else {
                silent(m)
            },
            Err(_) => silent(m.detailing(DetailModal { facts: None, ..p })),
        },
        _ => silent(m),
    }
}

/// The call of a transaction was simulated. Where the dialog says so, it is simulated
/// once more, after a while.
pub open spec fn on_inner_sim(m: ScreenModel, hash: Hash32, again: bool) -> Turn {
    if m.details(hash) && again {
        Turn { state: m, answer: doing(simulating(m, true, false, true)) }
    } else {
        silent(m)
    }
}

/// The execution of a transaction was simulated.
pub open spec fn on_exec_sim(m: ScreenModel, hash: Hash32, again: bool) -> Turn {
    if m.details(hash) && again {
        Turn { state: m, answer: doing(simulating(m, false, true, true)) }
    } else {
        silent(m)
    }
}

/// How many owners of the Safe on screen have to sign; zero for an account.
pub open spec fn shown_threshold(m: IdentityModel) -> u32 {
    match m.safe() {
        Some(s) => s.threshold,
        None => 0,
    }
}

/// What was asked of the transaction on screen is done, or failed. After a success
/// the transaction is asked for at once and again a while later, and so is the queue.
pub open spec fn on_action_done(m: ScreenModel, result: Result<String, String>, env: EnvModel) -> Turn {
    match m.modal {
        Modal::SafeTxDetail(p) => {
            let done = Act::Plain(Effect::DetailDone(result));
            let q = DetailModal {
                busy: false,
                executing: false,
                exec_submitted: p.exec_submitted || (result is Ok && p.executing),
                ..p
            };
            let threshold = shown_threshold(m.identity);
            Turn {
                state: m.detailing(q),
                answer: doing(
                    match result {
                        Ok(_) => seq![
                            done,
                            loading(q, threshold, false),
                            loading(q, threshold, true),
                        ] + fetching_queue(m.identity, env.config),
                        Err(_) => seq![done],
                    },
                ),
            }
        },
        _ => silent(m),
    }
}

impl WalletScreen {
    /// The transaction came from the queue, or could not be had.
    pub fn safe_tx_detail_loaded(&mut self, result: Result<DetailFacts, String>) -> (r: Reply)
        ensures
            (Turn { state: final(self)@, answer: r@ }) == on_detail_loaded(old(self)@, result),
    {
        match &mut self.modal {
            Modal::SafeTxDetail(p) => match result {
                Ok(f) => {
                    if f.safe_tx_hash != p.safe_tx_hash {
                        return Reply::idle();
                    }
                    p.facts = Some(f);
                },
                Err(_) => {
                    p.facts = None;
                    return Reply::idle();
                },
            },
            _ => {
                return Reply::idle();
            },
        }
        Reply::all(self.safe_detail_sim_tasks(true, true, false))
    }

    /// Tells whether the queued transaction with the given hash is on screen.
    fn details(&self, hash: Hash32) -> (b: bool)
        ensures
            b == self@.details(hash),
    {
        match &self.modal {
            Modal::SafeTxDetail(p) => p.safe_tx_hash == hash,
            _ => false,
        }
    }

    /// The call of a transaction was simulated. `again` tells that the simulation is
    /// to be made once more.
    pub fn safe_tx_inner_sim_loaded(&mut self, hash: Hash32, again: bool) -> (r: Reply)
        ensures
            (Turn { state: final(self)@, answer: r@ }) == on_inner_sim(old(self)@, hash, again),
    {
        if self.details(hash) && again {
            return Reply::all(self.safe_detail_sim_tasks(true, false, true));
        }
        Reply::idle()
    }

    /// The execution of a transaction was simulated. `again` tells that the simulation
    /// is to be made once more.
    pub fn safe_tx_exec_sim_loaded(&mut self, hash: Hash32, again: bool) -> (r: Reply)
        ensures
            (Turn { state: final(self)@, answer: r@ }) == on_exec_sim(old(self)@, hash, again),
    {
        if self.details(hash) && again {
            return Reply::all(self.safe_detail_sim_tasks(false, true, true));
        }
        Reply::idle()
    }

    /// What was asked of the transaction on screen is done, or failed.
    pub fn safe_tx_action_done(&mut self, result: Result<String, String>, env: &Env) -> (r: Reply)
        ensures
            (Turn { state: final(self)@, answer: r@ }) == on_action_done(
                old(self)@,
                result,
                env@,
            ),
    {
        let ok = result.is_ok();
        let threshold: u32 = match self.identity.active_safe_descriptor() {
            Some(s) => s.threshold,
            None => 0,
        };
        let mut out: Vec<Effect> = Vec::new();
        match &mut self.modal {
            Modal::SafeTxDetail(p) => {
                out.push(Effect::DetailDone(result));
                if ok && p.executing {
                    p.exec_submitted = true;
                }
                p.busy = false;
                p.executing = false;
                if ok {
                    out.push(
                        Effect::LoadDetail {
                            service: service_base(&p.service),
                            safe: p.safe,
                            chain: p.chain,
                            hash: p.safe_tx_hash,
                            threshold,
                            delayed: false,
                        },
                    );
                    out.push(
                        Effect::LoadDetail {
                            service: service_base(&p.service),
                            safe: p.safe,
                            chain: p.chain,
                            hash: p.safe_tx_hash,
                            threshold,
                            delayed: true,
                        },
                    );
                }
            },
            _ => {
                return Reply::idle();
            },
        }
        let ghost first = acts(out@);
        if ok {
            match self.fetch_safe_pending_task(&env.config) {
                Some(e) => {
                    proof {
                        lemma_acts_sum(out@, seq![e]);
                        assert(acts(seq![e]) =~= seq![e@]);
                        assert(out@.push(e) =~= out@ + seq![e]);
                    }
                    out.push(e);
                },
                None => {
                    assert(first =~= first + fetching_queue(self@.identity, env@.config));
                },
            }
        }
        assert(acts(out@) =~= on_action_done(old(self)@, result, env@).answer.acts);
        Reply::all(out)
    }
}

// ── confirming, executing, rejecting ────────────────────────────────────────

/// What happens in the dialog for a queued transaction. The dialog handles its own
/// events; what concerns the dashboard comes here.
#[derive(Debug)]
pub enum DetailEvent {
    Closed,
    /// Sign the transaction with the given owner, the first that can and has not.
    Confirm { owner: Option<Address> },
    Execute,
    /// Propose a rejection, signed by the given owner.
    Reject { owner: Option<Address> },
    /// Simulate once more.
    RetrySims,
    /// Anything that is the dialog's own affair.
    Other,
}

/// What was asked for cannot be done.
pub open spec fn refusing(m: ScreenModel, p: DetailModal, why: Seq<char>) -> Turn {
    Turn {
        state: m.detailing(DetailModal { busy: false, executing: false, ..p }),
        answer: doing(seq![Act::DetailFailed(why)]),
    }
}

/// What is done in the dialog.
pub open spec fn acting(m: ScreenModel, p: DetailModal, executing: bool, act: Act) -> Turn {
    Turn {
        state: m.detailing(DetailModal { busy: true, executing, ..p }),
        answer: doing(seq![act]),
    }
}

/// Why an owner cannot sign for the Safe of the dialog now, if that is so: the Safe is
/// no longer on screen or not trusted, or its version is not one to sign for.
pub open spec fn signature_block(m: ScreenModel, p: DetailModal) -> Option<Seq<char>> {
    match m.identity.signing_block(p.safe, p.chain) {
        Some(why) => Some(why),
        None => if signable_version(p.version@) {
            None
        } else {
            Some(
                "Safe version "@ + p.version@
                    + " is outside the signable range (1.3.0 and later)"@,
            )
        },
    }
}

/// The account of an owner.
pub open spec fn owner_account(m: ScreenModel, owner: Option<Address>) -> Option<AccountDescriptor> {
    match owner {
        Some(a) => desc_of(m.identity.accounts, a),
        None => None,
    }
}

/// The transaction is to be signed.
pub open spec fn on_detail_confirm(m: ScreenModel, p: DetailModal, owner: Option<Address>) -> Turn {
    if p.facts is None {
        silent(m)
    } else {
        match signature_block(m, p) {
            Some(why) => refusing(m, p, why),
            None => match owner_account(m, owner) {
                Some(desc) => acting(
                    m,
                    p,
                    false,
                    Act::ConfirmTx {
                        service: service_text(p.service),
                        owner: desc,
                        safe: p.safe,
                        chain: p.chain,
                        hash: p.safe_tx_hash,
                    },
                ),
                None => refusing(m, p, "no linked owner left to sign with"@),
            },
        }
    }
}

/// The transaction is to be executed.
pub open spec fn on_detail_execute(m: ScreenModel, p: DetailModal) -> Turn {
    if p.facts is None {
        silent(m)
    } else {
        match m.identity.signing_block(p.safe, p.chain) {
            Some(why) => refusing(m, p, why),
            None => match first_key(m.identity.accounts) {
                Some(key) => acting(
                    m,
                    p,
                    true,
                    Act::Plain(
                        Effect::ExecuteTx { key, safe: p.safe, chain: p.chain, hash: p.safe_tx_hash },
                    ),
                ),
                None => refusing(m, p, "need a Local account to pay gas for execution"@),
            },
        }
    }
}

/// A rejection of the transaction is to be proposed.
pub open spec fn on_detail_reject(m: ScreenModel, p: DetailModal, owner: Option<Address>) -> Turn {
    match signature_block(m, p) {
        Some(why) => refusing(m, p, why),
        None => match owner_account(m, owner) {
            Some(desc) => acting(
                m,
                p,
                false,
                Act::RejectTx {
                    service: service_text(p.service),
                    owner: desc,
                    safe: p.safe,
                    chain: p.chain,
                    nonce: p.nonce,
                },
            ),
            None => refusing(m, p, "no linked owner available to reject"@),
        },
    }
}

/// Something happens in the dialog for a queued transaction.
pub open spec fn on_detail(m: ScreenModel, e: DetailEvent, env: EnvModel) -> Turn {
    match m.modal {
        Modal::SafeTxDetail(p) => match e {
            DetailEvent::Closed => silent(m.closing(env.now)),
            DetailEvent::Confirm { owner } => on_detail_confirm(m, p, owner),
            DetailEvent::Execute => on_detail_execute(m, p),
            DetailEvent::Reject { owner } => on_detail_reject(m, p, owner),
            DetailEvent::RetrySims => Turn {
                state: m,
                answer: doing(simulating(m, true, true, false)),
            },
            DetailEvent::Other => silent(m),
        },
        _ => silent(m),
    }
}

impl WalletScreen {
    /// Tells the dialog that what was asked for cannot be done.
    fn refuse(&mut self, why: String) -> (r: Reply)
        requires
            old(self)@.modal is SafeTxDetail,
        ensures
            (Turn { state: final(self)@, answer: r@ }) == refusing(
                old(self)@,
                old(self)@.modal->SafeTxDetail_0,
                why@,
            ),
    {
        match &mut self.modal {
            Modal::SafeTxDetail(p) => {
                p.busy = false;
                p.executing = false;
            },
            _ => {},
        }
        Reply::one(Effect::DetailFailed(why))
    }

    /// Marks the dialog as busy and does what was asked for.
    fn act(&mut self, executing: bool, e: Effect) -> (r: Reply)
        requires
            old(self)@.modal is SafeTxDetail,
        ensures
            (Turn { state: final(self)@, answer: r@ }) == acting(
                old(self)@,
                old(self)@.modal->SafeTxDetail_0,
                executing,
                e@,
            ),
    {
        match &mut self.modal {
            Modal::SafeTxDetail(p) => {
                p.busy = true;
                p.executing = executing;
            },
            _ => {},
        }
        Reply::one(e)
    }

    /// Why an owner cannot sign for the Safe of the dialog now, if that is so.
    fn detail_block(&self, p: &DetailModal) -> (r: Option<String>)
        ensures
            match r {
                Some(t) => signature_block(self@, *p) == Some(t@),
                None => signature_block(self@, *p) is None,
            },
    {
        match self.identity.active_safe_signing_block(p.safe, p.chain) {
            Some(why) => Some(why),
            None => match ensure_signable_version(p.version.as_str()) {
                Ok(_) => None,
                Err(e) => Some(e),
            },
        }
    }

    /// The account of an owner.
    fn owner_desc_for(&self, owner: Option<Address>) -> (r: Option<AccountDescriptor>)
        ensures
            r == owner_account(self@, owner),
    {
        match owner {
            Some(a) => owner_desc_by_address(a, &self.identity.accounts),
            None => None,
        }
    }

    fn confirm_detail(&mut self, owner: Option<Address>) -> (r: Reply)
        requires
            old(self)@.modal is SafeTxDetail,
        ensures
            (Turn { state: final(self)@, answer: r@ }) == on_detail_confirm(
                old(self)@,
                old(self)@.modal->SafeTxDetail_0,
                owner,
            ),
    {
        let desc = self.owner_desc_for(owner);
        let (block, service, safe, chain, hash) = match &self.modal {
            Modal::SafeTxDetail(p) => {
                if p.facts.is_none() {
                    return Reply::idle();
                }
                (self.detail_block(p), service_base(&p.service), p.safe, p.chain, p.safe_tx_hash)
            },
            _ => {
                return Reply::idle();
            },
        };
        if let Some(why) = block {
            return self.refuse(why);
        }
        match desc {
            Some(owner) => self.act(
                false,
                Effect::ConfirmTx { service, owner, safe, chain, hash },
            ),
            None => self.refuse("no linked owner left to sign with".to_string()),
        }
    }

    fn execute_detail(&mut self) -> (r: Reply)
        requires
            old(self)@.modal is SafeTxDetail,
        ensures
            (Turn { state: final(self)@, answer: r@ }) == on_detail_execute(
                old(self)@,
                old(self)@.modal->SafeTxDetail_0,
            ),
    {
        let (safe, chain, hash) = match &self.modal {
            Modal::SafeTxDetail(p) => {
                if p.facts.is_none() {
                    return Reply::idle();
                }
                (p.safe, p.chain, p.safe_tx_hash)
            },
            _ => {
                return Reply::idle();
            },
        };
        if let Some(why) = self.identity.active_safe_signing_block(safe, chain) {
            return self.refuse(why);
        }
        match first_local_key_of(&self.identity.accounts) {
            Some(key) => self.act(true, Effect::ExecuteTx { key, safe, chain, hash }),
            None => self.refuse("need a Local account to pay gas for execution".to_string()),
        }
    }

    fn reject_detail(&mut self, owner: Option<Address>) -> (r: Reply)
        requires
            old(self)@.modal is SafeTxDetail,
        ensures
            (Turn { state: final(self)@, answer: r@ }) == on_detail_reject(
                old(self)@,
                old(self)@.modal->SafeTxDetail_0,
                owner,
            ),
    {
        let desc = self.owner_desc_for(owner);
        let (block, service, safe, chain, nonce) = match &self.modal {
            Modal::SafeTxDetail(p) => (
                self.detail_block(p),
                service_base(&p.service),
                p.safe,
                p.chain,
                p.nonce,
            ),
            _ => {
                return Reply::idle();
            },
        };
        if let Some(why) = block {
            return self.refuse(why);
        }
        match desc {
            Some(owner) => self.act(
                false,
                Effect::RejectTx { service, owner, safe, chain, nonce },
            ),
            None => self.refuse("no linked owner available to reject".to_string()),
        }
    }

    /// Something happens in the dialog for a queued transaction. Before anything is
    /// signed or executed it is made sure that the Safe is still on screen and is one
    /// that the wallet signs for.
    pub fn safe_tx_detail(&mut self, e: DetailEvent, env: &Env) -> (r: Reply)
        ensures
            (Turn { state: final(self)@, answer: r@ }) == on_detail(old(self)@, e, env@),
    {
        let open = match &self.modal {
            Modal::SafeTxDetail(_) => true,
            _ => false,
        };
        if !open {
            return Reply::idle();
        }
        match e {
            DetailEvent::Closed => {
                self.chrome.start_close(env.now);
                Reply::idle()
            },
            DetailEvent::Confirm { owner } => self.confirm_detail(owner),
            DetailEvent::Execute => self.execute_detail(),
            DetailEvent::Reject { owner } => self.reject_detail(owner),
            DetailEvent::RetrySims => Reply::all(self.safe_detail_sim_tasks(true, true, false)),
            DetailEvent::Other => Reply::idle(),
        }
    }
}

} // verus!
