//! What a Safe's transactions do: who gets what, what is refused, and how each job runs
//! from its start to its end.

use vstd::arithmetic::power::{lemma_pow0, lemma_pow1, lemma_pow_adds, lemma_pow_positive, pow};
use vstd::arithmetic::div_mod::lemma_div_denominator;
use vstd::prelude::*;

use crate::identity::SafeTrust;
use crate::safe_flow::{SafeJob, TaskAct, TaskEvent, TaskModel, TaskStage};
use crate::safe_tx::{
    rebuilt, safe_gate, signable_version, ExecAction, ExecEvent, ExecStage, Executor, PreparedSafeTx,
    SafeExec, SafeSendRequest, SafeTxModel, SendToken,
};
use crate::swap::be_bytes;
use crate::text::dec;
use crate::types::{hash_hex, Address, Hash32};

verus! {

// ── words ───────────────────────────────────────────────────────────────────

/// A word holds the digits of its number in base 256, the most significant first.
pub proof fn law_words_hold_their_number(x: nat, n: nat, i: int)
    requires
        0 <= i < n,
    ensures
        be_bytes(x, n).len() == n,
        be_bytes(x, n)[i] as int == (x as int / pow(256, (n - 1 - i) as nat)) % 256,
    decreases n,
{
    lemma_words_len(x, n);
    lemma_words_len(x / 256, (n - 1) as nat);
    if i == n - 1 {
        lemma_pow0(256);
        assert(be_bytes(x, n)[i] == (x % 256) as u8);
    } else {
        law_words_hold_their_number(x / 256, (n - 1) as nat, i);
        let k = (n - 2 - i) as nat;
        lemma_pow_positive(256, k);
        lemma_pow1(256);
        lemma_pow_adds(256, 1, k);
        lemma_div_denominator(x as int, 256, pow(256, k));
        assert(be_bytes(x, n)[i] == be_bytes(x / 256, (n - 1) as nat)[i]);
    }
}

proof fn lemma_words_len(x: nat, n: nat)
    ensures
        be_bytes(x, n).len() == n,
    decreases n,
{
    if n > 0 {
        lemma_words_len(x / 256, (n - 1) as nat);
    }
}

// ── the transfer ────────────────────────────────────────────────────────────

/// A Safe's transaction is a plain call that refunds nobody.
pub open spec fn plain_call(tx: SafeTxModel) -> bool {
    &&& tx.operation == 0
    &&& tx.safe_tx_gas == 0
    &&& tx.base_gas == 0
    &&& tx.gas_price == 0
    &&& tx.gas_token == 0
    &&& tx.refund_receiver == 0
}

/// The transaction gives the amount to the recipient: native coin goes to them with no
/// data, and a token is transferred to them by a call of its contract that carries no
/// coin.
pub open spec fn pays_recipient(tx: SafeTxModel, req: SafeSendRequest) -> bool {
    &&& plain_call(tx)
    &&& req.token matches SendToken::Native ==> {
        &&& tx.to == req.recipient
        &&& tx.value == req.amount_units@
        &&& tx.data.len() == 0
    }
    &&& req.token matches SendToken::Erc20 { contract } ==> {
        &&& tx.to == contract
        &&& tx.value == 0
        &&& tx.data.len() == 68
        &&& tx.data[0] == 0xa9 && tx.data[1] == 0x05 && tx.data[2] == 0x9c && tx.data[3] == 0xbb
        &&& tx.data.subrange(4, 36) == be_bytes(req.recipient@, 32)
        &&& tx.data.subrange(36, 68) == be_bytes(req.amount_units@, 32)
    }
}

proof fn lemma_transfer(req: SafeSendRequest, nonce: u64)
    ensures
        pays_recipient(req.tx_at(nonce), req),
        req.tx_at(nonce).nonce == nonce,
{
    lemma_words_len(req.recipient@, 32);
    lemma_words_len(req.amount_units@, 32);
    if let SendToken::Erc20 { contract } = req.token {
        let data = req.tx_at(nonce).data;
        assert(data.subrange(4, 36) =~= be_bytes(req.recipient@, 32));
        assert(data.subrange(36, 68) =~= be_bytes(req.amount_units@, 32));
    }
}

/// A send pays its recipient the amount that was asked for, whatever it sends and at
/// whatever nonce: the call is the transfer, and nothing else.
pub proof fn law_sends_pay_their_recipient(req: SafeSendRequest, nonce: u64)
    ensures
        pays_recipient(req.tx_at(nonce), req),
        req.tx_at(nonce).nonce == nonce,
{
    lemma_transfer(req, nonce);
}

/// What owners are given to sign for a send pays the recipient, at the nonce and with
/// the hash that were reviewed.
pub proof fn law_signed_sends_pay_their_recipient(
    req: SafeSendRequest,
    live: Result<u64, Seq<char>>,
    local: Hash32,
    verified: Result<(), Seq<char>>,
)
    ensures
        match rebuilt(req, live, local, verified) {
            Ok((tx, hash)) => {
                &&& pays_recipient(tx, req)
                &&& req.prepared == Some(PreparedSafeTx { nonce: tx.nonce, safe_tx_hash: hash })
                &&& live == Ok::<u64, Seq<char>>(tx.nonce)
                &&& local == hash
            },
            Err(_) => true,
        },
{
    if let Some(pin) = req.prepared {
        lemma_transfer(req, pin.nonce);
    }
}

// ── jobs ────────────────────────────────────────────────────────────────────

/// A send is prepared at the Safe's nonce: its transaction is hashed, the Safe confirms
/// the hash, and the review gets both.
pub proof fn law_a_send_is_prepared(req: SafeSendRequest, n: u64, h: Hash32)
    requires
        safe_gate(req.trust, req.version@) is None,
    ensures
        ({
            let a = TaskModel::begun(SafeJob::Prepare { req });
            let b = a.state.next(TaskEvent::Nonce(Ok(n)));
            let c = b.state.next(TaskEvent::Hashed(h));
            let d = c.state.next(TaskEvent::Verified(Ok(())));
            &&& a.act == TaskAct::ReadNonce
            &&& b.act == TaskAct::HashTx
            &&& b.state.tx matches Some(tx) && pays_recipient(tx, req) && tx.nonce == n
            &&& c.act == TaskAct::VerifyHash(h)
            &&& c.state.tx == b.state.tx
            &&& d.act == TaskAct::Prepared { nonce: n, hash: h }
        }),
{
    lemma_transfer(req, n);
}

/// A send that was reviewed is proposed once its owner has signed the reviewed hash.
pub proof fn law_a_reviewed_send_is_proposed(req: SafeSendRequest, pin: PreparedSafeTx)
    requires
        safe_gate(req.trust, req.version@) is None,
        req.prepared == Some(pin),
    ensures
        ({
            let a = TaskModel::begun(SafeJob::Propose { req });
            let b = a.state.next(TaskEvent::Nonce(Ok(pin.nonce)));
            let c = b.state.next(TaskEvent::Hashed(pin.safe_tx_hash));
            let d = c.state.next(TaskEvent::Verified(Ok(())));
            let e = d.state.next(TaskEvent::Built(Ok(())));
            let f = e.state.next(TaskEvent::Signed(Ok(())));
            let g = f.state.next(TaskEvent::Posted(Ok(())));
            &&& a.act == TaskAct::ReadNonce
            &&& b.act == TaskAct::HashTx
            &&& b.state.tx matches Some(tx) && pays_recipient(tx, req) && tx.nonce == pin.nonce
            &&& c.act == TaskAct::VerifyHash(pin.safe_tx_hash)
            &&& d.act == TaskAct::BuildOwner(0)
            &&& e.act == TaskAct::SignOwner { owner: 0, hash: pin.safe_tx_hash }
            &&& f.act == TaskAct::PostProposal("Kao"@)
            &&& f.state.tx == b.state.tx
            &&& g.act is Done
        }),
{
    lemma_transfer(req, pin.nonce);
}

/// A send that was reviewed is broadcast: as many owners as the threshold asks for are
/// connected one after another, each signs the reviewed hash once the Safe has confirmed
/// it, and who pays sends the signed transaction.
pub proof fn law_a_reviewed_send_is_broadcast(
    s: TaskModel,
    req: SafeSendRequest,
    owners: usize,
    executor: Executor,
    pin: PreparedSafeTx,
    i: usize,
    sent: Hash32,
)
    requires
        s.job == (SafeJob::Broadcast { req, owners, executor }),
        0 < req.threshold <= owners,
        safe_gate(req.trust, req.version@) is None,
        req.prepared == Some(pin),
        i < req.threshold,
    ensures
        TaskModel::begun(s.job).act == TaskAct::FindProvider,
        TaskModel::begun(s.job).state.next(TaskEvent::Provider(true)).act == TaskAct::BuildOwner(0),
        s.stage == TaskStage::Owner(i) ==> s.next(TaskEvent::Built(Ok(()))).act == if i + 1
            < req.threshold {
            TaskAct::BuildOwner((i + 1) as usize)
        } else {
            TaskAct::ReadNonce
        },
        s.stage == TaskStage::Nonce ==> ({
            let b = s.next(TaskEvent::Nonce(Ok(pin.nonce)));
            let c = b.state.next(TaskEvent::Hashed(pin.safe_tx_hash));
            let d = c.state.next(TaskEvent::Verified(Ok(())));
            &&& b.act == TaskAct::HashTx
            &&& b.state.tx matches Some(tx) && pays_recipient(tx, req) && tx.nonce == pin.nonce
            &&& c.act == TaskAct::VerifyHash(pin.safe_tx_hash)
            &&& d.act == TaskAct::SignOwner { owner: 0, hash: pin.safe_tx_hash }
            &&& d.state.tx == b.state.tx
        }),
        s.stage == TaskStage::Signature(i) && s.hash == Some(pin.safe_tx_hash) ==> s.next(
            TaskEvent::Signed(Ok(())),
        ).act == if i + 1 < req.threshold {
            TaskAct::SignOwner { owner: (i + 1) as usize, hash: pin.safe_tx_hash }
        } else {
            TaskAct::Assemble
        },
        s.stage == TaskStage::Assembly ==> s.next(TaskEvent::Assembled(Ok(()))).act
            == match executor {
            Executor::Local(key) => TaskAct::BuildExecutor(key),
            Executor::FirstOwner => TaskAct::Send,
        },
        s.stage == TaskStage::Executor ==> s.next(TaskEvent::Built(Ok(()))).act == TaskAct::Send,
        s.stage == TaskStage::Sending ==> s.next(TaskEvent::Sent(Ok(sent))).act == TaskAct::Sent(
            sent,
        ),
{
    lemma_transfer(req, pin.nonce);
}

/// A send is not broadcast with fewer owners than the threshold asks for.
pub proof fn law_too_few_owners_send_nothing(
    s: TaskModel,
    req: SafeSendRequest,
    owners: usize,
    executor: Executor,
    i: usize,
)
    requires
        s.job == (SafeJob::Broadcast { req, owners, executor }),
        owners < req.threshold,
        s.stage == TaskStage::Owner(i),
    ensures
        s.next(TaskEvent::Built(Ok(()))).act == TaskAct::BuildOwner((i + 1) as usize) || s.next(
            TaskEvent::Built(Ok(())),
        ).act is Failed,
        i + 1 >= owners ==> s.next(TaskEvent::Built(Ok(()))).act is Failed,
        s.next(TaskEvent::Provider(true)).act is Nothing,
{
}

/// A job that fails at a step ends there, and tells why.
pub proof fn law_safe_jobs_tell_why_they_failed(s: TaskModel, i: usize, why: String)
    ensures
        s.stage == TaskStage::Provider ==> s.next(TaskEvent::Provider(false)).act
            == TaskAct::Failed("no execution RPCs configured"@),
        s.stage == TaskStage::Owner(i) ==> s.next(TaskEvent::Built(Err(why))).act
            == TaskAct::Failed(why@),
        s.stage == TaskStage::Nonce ==> s.next(TaskEvent::Nonce(Err(why))).act == TaskAct::Failed(
            why@,
        ),
        s.stage == TaskStage::Verification ==> s.next(TaskEvent::Verified(Err(why))).act
            == TaskAct::Failed(why@),
        s.stage == TaskStage::Signature(i) ==> s.next(TaskEvent::Signed(Err(why))).act
            == TaskAct::Failed(why@),
        s.stage == TaskStage::Assembly ==> s.next(TaskEvent::Assembled(Err(why))).act
            == TaskAct::Failed(why@),
        s.stage == TaskStage::Sending ==> s.next(TaskEvent::Sent(Err(why))).act == TaskAct::Failed(
            why@,
        ),
        s.stage == TaskStage::Posting ==> s.next(TaskEvent::Posted(Err(why))).act
            == TaskAct::Failed(why@),
        s.stage == TaskStage::Executor && s.job is Execute ==> s.next(
            TaskEvent::Built(Err(why)),
        ).act == TaskAct::Failed(why@),
        s.stage == TaskStage::Executor && s.job is Broadcast ==> s.next(
            TaskEvent::Built(Err(why)),
        ).act == TaskAct::Failed("derive executor: "@ + why@),
        s.stage == TaskStage::Signature(i) ==> s.next(TaskEvent::Signed(Err(why))).state
            == (TaskModel { stage: TaskStage::Over, ..s }),
        s.stage == TaskStage::Posting ==> s.next(TaskEvent::Posted(Err(why))).state == (TaskModel {
            stage: TaskStage::Over,
            ..s
        }),
{
}

/// What was reviewed is rebuilt where nothing has changed since; else the user is told
/// what has.
pub proof fn law_a_rebuilt_send_is_the_reviewed_one(
    req: SafeSendRequest,
    pin: PreparedSafeTx,
    live: u64,
    local: Hash32,
    why: Seq<char>,
)
    requires
        safe_gate(req.trust, req.version@) is None,
    ensures
        req.prepared is None ==> rebuilt(req, Ok(live), local, Ok(())) == Err::<
            (SafeTxModel, Hash32),
            Seq<char>,
        >("internal: sign requested before the reviewed hash was ready"@),
        req.prepared == Some(pin) ==> {
            &&& live == pin.nonce && local == pin.safe_tx_hash ==> rebuilt(
                req,
                Ok(live),
                local,
                Ok(()),
            ) == Ok::<(SafeTxModel, Hash32), Seq<char>>((req.tx_at(live), local))
            &&& live != pin.nonce ==> rebuilt(req, Ok(live), local, Ok(())) == Err::<
                (SafeTxModel, Hash32),
                Seq<char>,
            >(
                "Safe nonce advanced since review ("@ + dec(pin.nonce as nat) + " → "@ + dec(
                    live as nat,
                ) + ") — go back and review again"@,
            )
            &&& live == pin.nonce && local != pin.safe_tx_hash ==> rebuilt(
                req,
                Ok(live),
                local,
                Ok(()),
            ) == Err::<(SafeTxModel, Hash32), Seq<char>>(
                "safe-tx differs from the reviewed hash — refusing to sign"@,
            )
            &&& live == pin.nonce && local == pin.safe_tx_hash ==> rebuilt(
                req,
                Ok(live),
                local,
                Err(why),
            ) == Err::<(SafeTxModel, Hash32), Seq<char>>(why)
            &&& rebuilt(req, Err(why), local, Ok(())) == Err::<(SafeTxModel, Hash32), Seq<char>>(
                why,
            )
        },
{
}

/// A Safe signs where its contract is recognized and its version can be signed for; else
/// it is said why not.
pub proof fn law_the_gate_says_why_not(trust: SafeTrust, version: Seq<char>)
    ensures
        safe_gate(trust, version) is None <==> trust == SafeTrust::Canonical && signable_version(
            version,
        ),
        trust == SafeTrust::Canonical && !signable_version(version) ==> safe_gate(trust, version)
            == Some(
            "Safe version "@ + version + " is outside the signable range (1.3.0 and later)"@,
        ),
        trust != SafeTrust::Canonical ==> safe_gate(trust, version) == trust.block_reason(),
{
}

/// A call that fails at any step ends there.
pub proof fn law_a_failed_call_is_over(x: SafeExec, e: ExecEvent)
    ensures
        x.stage != ExecStage::Over ==> x.next(ExecEvent::Failed).1 == ExecAction::Failed && x.next(
            ExecEvent::Failed,
        ).0.stage == ExecStage::Over,
        x.stage == ExecStage::Over ==> x.next(e) == (x, ExecAction::Nothing),
{
}

/// A job that is done tells what it did.
pub proof fn law_safe_jobs_tell_what_they_did(s: TaskModel, h: Hash32, shown: Hash32)
    ensures
        s.stage == TaskStage::Sending && s.job is Execute ==> s.next(TaskEvent::Sent(Ok(h))).act
            == TaskAct::Done("Executed · "@ + hash_hex(h)),
        s.stage == TaskStage::Sending && s.job is Broadcast ==> s.next(TaskEvent::Sent(Ok(h))).act
            == TaskAct::Sent(h),
        s.stage == TaskStage::Posting && s.job is Confirm ==> s.next(
            TaskEvent::Posted(Ok(())),
        ).act == TaskAct::Done("Signature added"@),
        s.stage == TaskStage::Posting && s.job is Reject ==> s.next(TaskEvent::Posted(Ok(()))).act
            == TaskAct::Done("Rejection proposed"@),
        s.stage == TaskStage::Hashing && s.job == (SafeJob::Confirm { shown }) && h != shown
            ==> s.next(TaskEvent::Hashed(h)).act == TaskAct::Failed(
            "safe-tx: detail hash drifted; refusing to sign"@,
        ),
{
}

/// Signing is refused where anything has changed since the review: the Safe's nonce, or
/// the hash of the transaction.
pub proof fn law_a_changed_send_is_refused(
    s: TaskModel,
    req: SafeSendRequest,
    pin: PreparedSafeTx,
    owners: usize,
    executor: Executor,
    n: u64,
    h: Hash32,
)
    requires
        s.job == (SafeJob::Propose { req }) || s.job == (SafeJob::Broadcast {
            req,
            owners,
            executor,
        }),
        req.prepared == Some(pin),
    ensures
        s.stage == TaskStage::Nonce && n != pin.nonce ==> s.next(TaskEvent::Nonce(Ok(n))).act
            is Failed,
        s.stage == TaskStage::Hashing && h != pin.safe_tx_hash ==> s.next(
            TaskEvent::Hashed(h),
        ).act is Failed,
{
}

/// A queued transaction is confirmed: the hash on screen is recomputed, confirmed by the
/// Safe, signed by one owner, and handed to the service. Another hash is refused.
pub proof fn law_a_queued_transaction_is_confirmed(shown: Hash32, other: Hash32)
    ensures
        ({
            let a = TaskModel::begun(SafeJob::Confirm { shown });
            let b = a.state.next(TaskEvent::Hashed(shown));
            let c = b.state.next(TaskEvent::Verified(Ok(())));
            let d = c.state.next(TaskEvent::Built(Ok(())));
            let e = d.state.next(TaskEvent::Signed(Ok(())));
            let f = e.state.next(TaskEvent::Posted(Ok(())));
            &&& a.act == TaskAct::HashTx
            &&& other != shown ==> a.state.next(TaskEvent::Hashed(other)).act is Failed
            &&& b.act == TaskAct::VerifyHash(shown)
            &&& c.act == TaskAct::BuildOwner(0)
            &&& d.act == TaskAct::SignOwner { owner: 0, hash: shown }
            &&& e.act == TaskAct::PostConfirmation(shown)
            &&& f.act == TaskAct::Done("Signature added"@)
        }),
{
}

/// A queued transaction is executed with the key that pays, once its signatures are put
/// together.
pub proof fn law_a_queued_transaction_is_executed(key: Hash32, h: Hash32)
    ensures
        ({
            let a = TaskModel::begun(SafeJob::Execute { key });
            let b = a.state.next(TaskEvent::Provider(true));
            let c = b.state.next(TaskEvent::Built(Ok(())));
            let d = c.state.next(TaskEvent::Assembled(Ok(())));
            let e = d.state.next(TaskEvent::Sent(Ok(h)));
            &&& a.act == TaskAct::FindProvider
            &&& a.state.next(TaskEvent::Provider(false)).act is Failed
            &&& b.act == TaskAct::BuildExecutor(key)
            &&& c.act == TaskAct::Assemble
            &&& d.act == TaskAct::Send
            &&& e.act is Done
        }),
{
}

/// A rejection takes the place of a queued transaction: at its nonce the Safe calls
/// itself with nothing. One owner signs it, and it is proposed.
pub proof fn law_a_rejection_moves_nothing(safe: Address, nonce: u64, h: Hash32)
    ensures
        ({
            let a = TaskModel::begun(SafeJob::Reject { safe, nonce });
            let b = a.state.next(TaskEvent::Hashed(h));
            let c = b.state.next(TaskEvent::Verified(Ok(())));
            let d = c.state.next(TaskEvent::Built(Ok(())));
            let e = d.state.next(TaskEvent::Signed(Ok(())));
            let f = e.state.next(TaskEvent::Posted(Ok(())));
            &&& a.act == TaskAct::HashTx
            &&& a.state.tx matches Some(tx) && {
                &&& plain_call(tx)
                &&& tx.to == safe
                &&& tx.value == 0
                &&& tx.data.len() == 0
                &&& tx.nonce == nonce
            }
            &&& b.act == TaskAct::VerifyHash(h)
            &&& c.act == TaskAct::BuildOwner(0)
            &&& d.act == TaskAct::SignOwner { owner: 0, hash: h }
            &&& d.state.tx == a.state.tx
            &&& e.act == TaskAct::PostProposal("Kao:reject"@)
            &&& f.act == TaskAct::Done("Rejection proposed"@)
        }),
{
}

// ── executing a call ────────────────────────────────────────────────────────

/// A call is executed as a Safe: its transaction is hashed at the nonce that was read,
/// the Safe confirms the hash, every owner signs it in turn, and it is sent.
pub proof fn law_a_call_is_executed(x: SafeExec, n: u64, h: Hash32, i: usize, sent: Hash32)
    requires
        i < x.owners,
    ensures
        x.stage == ExecStage::Nonce ==> x.next(ExecEvent::Nonce(n)).1 == ExecAction::HashAt(n),
        x.stage == ExecStage::Nonce ==> x.next(ExecEvent::Nonce(n)).0.stage == ExecStage::Hash,
        x.stage == ExecStage::Hash ==> ({
            let (y, a) = x.next(ExecEvent::Hashed(h));
            &&& a == ExecAction::Verify(h)
            &&& y.next(ExecEvent::Verified).1 == (ExecAction::SignOwner { owner: 0, hash: h })
        }),
        x.stage == ExecStage::Sign(i) && x.hash == Some(h) ==> x.next(ExecEvent::Signed).1 == if i
            + 1 < x.owners {
            ExecAction::SignOwner { owner: (i + 1) as usize, hash: h }
        } else {
            ExecAction::Assemble
        },
        x.stage == ExecStage::Assemble ==> ({
            let (y, a) = x.next(ExecEvent::Assembled);
            &&& a == ExecAction::Send
            &&& y.next(ExecEvent::Sent(sent)).1 == ExecAction::Sent(sent)
        }),
        x.next(ExecEvent::Signed).0.owners == x.owners,
{
}

} // verus!
