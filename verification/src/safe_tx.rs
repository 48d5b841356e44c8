//! Transactions of a Safe: how they are put together, and what has to hold before
//! any owner signs one.

use vstd::prelude::*;

use crate::identity::SafeTrust;
use crate::swap::{
    be_bytes, create_order_bytes, create_order_calldata, push_word, CowContracts, EthFlowData,
};
use crate::text::{
    all_digits, chars_of, dec, dec_value, decimal, digit, is_digit, join3, join5,
};
use crate::types::{Address, Amount, Chain, Hash32};

verus! {

// ── transactions ────────────────────────────────────────────────────────────

/// A call that a Safe is to make.
#[derive(Debug)]
pub struct SafeTxInput {
    pub to: Address,
    pub value: Amount,
    pub data: Vec<u8>,
}

/// A transaction of a Safe. The gas is not refunded, so all that concerns the
/// refund is zero; the Safe calls, and never runs foreign code as its own.
#[derive(Debug)]
pub struct SafeTx {
    pub to: Address,
    pub value: Amount,
    pub data: Vec<u8>,
    /// 0 for a call, 1 for a delegate call.
    pub operation: u8,
    pub safe_tx_gas: Amount,
    pub base_gas: Amount,
    pub gas_price: Amount,
    pub gas_token: Address,
    pub refund_receiver: Address,
    pub nonce: u64,
}

/// What a `SafeTx` holds.
pub struct SafeTxModel {
    pub to: Address,
    pub value: nat,
    pub data: Seq<u8>,
    pub operation: u8,
    pub safe_tx_gas: nat,
    pub base_gas: nat,
    pub gas_price: nat,
    pub gas_token: nat,
    pub refund_receiver: nat,
    pub nonce: u64,
}

impl View for SafeTx {
    type V = SafeTxModel;

    open spec fn view(&self) -> SafeTxModel {
        SafeTxModel {
            to: self.to,
            value: self.value@,
            data: self.data@,
            operation: self.operation,
            safe_tx_gas: self.safe_tx_gas@,
            base_gas: self.base_gas@,
            gas_price: self.gas_price@,
            gas_token: self.gas_token@,
            refund_receiver: self.refund_receiver@,
            nonce: self.nonce,
        }
    }
}

/// A plain call of a Safe.
pub open spec fn safe_call(to: Address, value: nat, data: Seq<u8>, nonce: u64) -> SafeTxModel {
    SafeTxModel {
        to,
        value,
        data,
        operation: 0,
        safe_tx_gas: 0,
        base_gas: 0,
        gas_price: 0,
        gas_token: 0,
        refund_receiver: 0,
        nonce,
    }
}

/// The transaction that makes a call at a nonce.
pub fn build_safe_tx_with_nonce(input: SafeTxInput, nonce: u64) -> (r: SafeTx)
    ensures
        r@ == safe_call(input.to, input.value@, input.data@, nonce),
{
    SafeTx {
        to: input.to,
        value: input.value,
        data: input.data,
        operation: 0,
        safe_tx_gas: Amount::zero(),
        base_gas: Amount::zero(),
        gas_price: Amount::zero(),
        gas_token: Address::zero(),
        refund_receiver: Address::zero(),
        nonce,
    }
}

/// The transaction that places an order for native coin: the Safe calls the
/// EthFlow contract and sends what is sold along.
pub fn ethflow_safe_tx(data: &EthFlowData, nonce: u64, contracts: &CowContracts) -> (r: SafeTx)
    ensures
        r@ == safe_call(contracts.ethflow, data.sell_amount@, create_order_bytes(*data), nonce),
{
    build_safe_tx_with_nonce(
        SafeTxInput {
            to: contracts.ethflow,
            value: data.sell_amount,
            data: create_order_calldata(data),
        },
        nonce,
    )
}

/// The transaction that rejects another of the same nonce: the Safe calls itself
/// with nothing.
pub fn build_rejection_tx(safe: Address, nonce: u64) -> (r: SafeTx)
    ensures
        r@ == safe_call(safe, 0, Seq::empty(), nonce),
{
    build_safe_tx_with_nonce(SafeTxInput { to: safe, value: Amount::zero(), data: Vec::new() }, nonce)
}

// ── versions ────────────────────────────────────────────────────────────────

/// The place of the first point at or behind `from`.
pub open spec fn point_from(s: Seq<char>, from: int) -> int
    decreases s.len() - from,
{
    if from >= s.len() || s[from] == '.' {
        from
    } else {
        point_from(s, from + 1)
    }
}

/// Whether owners can sign for a Safe of the given version: 1.3 and later
/// versions of the first generation.
pub open spec fn signable_version(s: Seq<char>) -> bool {
    let k = point_from(s, 2);
    &&& s.len() > 2
    &&& s[0] == '1'
    &&& s[1] == '.'
    &&& 2 < k
    &&& k + 1 < s.len()
    &&& all_digits(s.subrange(2, k))
    &&& dec_value(s.subrange(2, k)) >= 3
    &&& is_digit(s[k + 1])
}

/// Checks that owners can sign for a Safe of the given version.
pub fn ensure_signable_version(version: &str) -> (r: Result<(), String>)
    ensures
        match r {
            Ok(_) => signable_version(version@),
            Err(e) => !signable_version(version@) && e@ == "Safe version "@ + version@
                + " is outside the signable range (1.3.0 and later)"@,
        },
{
    if version_is_signable(version) {
        Ok(())
    } else {
        Err(join3("Safe version ", version, " is outside the signable range (1.3.0 and later)"))
    }
}

/// A number, where nothing above three is told apart.
pub open spec fn capped(n: nat) -> nat {
    if n < 3 {
        n
    } else {
        3
    }
}

fn version_is_signable(version: &str) -> (b: bool)
    ensures
        b == signable_version(version@),
{
    let v = chars_of(version);
    if v.len() <= 2 || v[0] != '1' || v[1] != '.' {
        return false;
    }
    let mut k: usize = 2;
    // Three stands for three and more.
    let mut minor: u64 = 0;
    let mut digits = true;
    assert(v@.subrange(2, 2) =~= Seq::<char>::empty());
    while k < v.len() && v[k] != '.'
        invariant
            v@ == version@,
            2 <= k <= v.len(),
            point_from(v@, 2) == point_from(v@, k as int),
            minor <= 3,
            digits == all_digits(v@.subrange(2, k as int)),
            digits ==> minor == capped(dec_value(v@.subrange(2, k as int))),
        decreases v.len() - k,
    {
        let c = v[k];
        let ghost front = v@.subrange(2, k as int);
        let ghost whole = v@.subrange(2, k + 1);
        assert(whole.drop_last() =~= front);
        assert(whole.last() == c);
        if digit(c) {
            if minor < 3 {
                minor = minor * 10 + (c as u32 - 48) as u64;
                if minor > 3 {
                    minor = 3;
                }
            }
            assert(digits ==> all_digits(whole)) by {
                assert forall|i: int| 0 <= i < whole.len() && digits implies is_digit(
                    #[trigger] whole[i],
                ) by {
                    if i < front.len() {
                        assert(is_digit(front[i]));
                    }
                }
            }
            proof {
                if !digits {
                    let i = choose|i: int| 0 <= i < front.len() && !is_digit(#[trigger] front[i]);
                    assert(!is_digit(whole[i]));
                }
            }
        } else {
            digits = false;
            assert(!is_digit(whole[k - 2]));
        }
        k += 1;
    }
    k > 2 && k < v.len() && k + 1 < v.len() && digits && minor == 3 && digit(v[k + 1])
}

// ── sending from a Safe ─────────────────────────────────────────────────────

/// What is sent.
#[derive(Debug, Clone, Copy, PartialEq, Eq, Structural)]
pub enum SendToken {
    Native,
    Erc20 { contract: Address },
}

/// The transaction that the user looked at: nothing else may be signed.
#[derive(Debug, Clone, Copy, PartialEq, Eq, Structural)]
pub struct PreparedSafeTx {
    pub nonce: u64,
    pub safe_tx_hash: Hash32,
}

/// A transfer from a Safe.
#[derive(Debug)]
pub struct SafeSendRequest {
    pub safe_address: Address,
    pub chain: Chain,
    pub version: String,
    pub trust: SafeTrust,
    pub service_base: String,
    pub recipient: Address,
    pub amount_units: Amount,
    pub token: SendToken,
    /// How many owners have to sign.
    pub threshold: u32,
    /// The owners that can sign, by their place in the wallet's list.
    pub signable_indices: Vec<u32>,
    pub prepared: Option<PreparedSafeTx>,
}

/// The call that transfers a token.
pub open spec fn transfer_bytes(to: Address, amount: nat) -> Seq<u8> {
    seq![0xa9u8, 0x05, 0x9c, 0xbb] + be_bytes(to@, 32) + be_bytes(amount, 32)
}

impl SafeSendRequest {
    /// The transaction of the transfer at a nonce.
    pub open spec fn tx_at(self, nonce: u64) -> SafeTxModel {
        match self.token {
            SendToken::Native => safe_call(
                self.recipient,
                self.amount_units@,
                Seq::empty(),
                nonce,
            ),
            SendToken::Erc20 { contract } => safe_call(
                contract,
                0,
                transfer_bytes(self.recipient, self.amount_units@),
                nonce,
            ),
        }
    }

    /// The call that the Safe is to make.
    pub fn safe_tx_input(&self) -> (r: SafeTxInput)
        ensures
            forall|n: u64|
                #![trigger self.tx_at(n)]
                safe_call(r.to, r.value@, r.data@, n) == self.tx_at(n),
    {
        match self.token {
            SendToken::Native => SafeTxInput {
                to: self.recipient,
                value: self.amount_units,
                data: Vec::new(),
            },
            SendToken::Erc20 { contract } => {
                let mut data: Vec<u8> = Vec::new();
                data.push(0xa9);
                data.push(0x05);
                data.push(0x9c);
                data.push(0xbb);
                assert(data@ =~= seq![0xa9u8, 0x05, 0x9c, 0xbb]);
                push_word(&mut data, self.recipient.head as u128, self.recipient.tail);
                push_word(&mut data, self.amount_units.hi, self.amount_units.lo);
                SafeTxInput { to: contract, value: Amount::zero(), data }
            },
        }
    }
}

/// Why nothing may be signed for a Safe, whatever the transaction: it is not
/// trusted, or its version is not one that owners can sign for.
pub open spec fn safe_gate(trust: SafeTrust, version: Seq<char>) -> Option<Seq<char>> {
    match trust.block_reason() {
        Some(t) => Some(t),
        None => if signable_version(version) {
            None
        } else {
            Some(
                "Safe version "@ + version + " is outside the signable range (1.3.0 and later)"@,
            )
        },
    }
}

/// Why nothing may be signed for a Safe, if so.
pub fn signing_gate(trust: SafeTrust, version: &str) -> (r: Result<(), String>)
    ensures
        match r {
            Ok(_) => safe_gate(trust, version@) is None,
            Err(e) => safe_gate(trust, version@) == Some(e@),
        },
{
    match trust.signing_block_reason() {
        Some(t) => Err(t.to_string()),
        None => ensure_signable_version(version),
    }
}

/// The first step of rebuilding the transaction that the user looked at: the
/// transaction that was looked at, where signing is open at all.
pub open spec fn rebuild_pin(req: SafeSendRequest) -> Result<PreparedSafeTx, Seq<char>> {
    match safe_gate(req.trust, req.version@) {
        Some(e) => Err(e),
        None => match req.prepared {
            Some(p) => Ok(p),
            None => Err("internal: sign requested before the reviewed hash was ready"@),
        },
    }
}

/// The transaction that was looked at, where signing is open at all. Nothing is
/// asked of the chain before this is known.
pub fn reviewed_pin(req: &SafeSendRequest) -> (r: Result<PreparedSafeTx, String>)
    ensures
        match r {
            Ok(p) => rebuild_pin(*req) == Ok::<PreparedSafeTx, Seq<char>>(p),
            Err(e) => rebuild_pin(*req) == Err::<PreparedSafeTx, Seq<char>>(e@),
        },
{
    match signing_gate(req.trust, req.version.as_str()) {
        Ok(_) => match req.prepared {
            Some(p) => Ok(p),
            None => Err(
                "internal: sign requested before the reviewed hash was ready".to_string(),
            ),
        },
        Err(e) => Err(e),
    }
}

/// The second step: the nonce that the chain knows has to be the one that was
/// looked at.
pub open spec fn rebuild_nonce(pin: PreparedSafeTx, live: Result<u64, Seq<char>>) -> Result<
    u64,
    Seq<char>,
> {
    match live {
        Ok(n) => if n == pin.nonce {
            Ok(n)
        } else {
            Err(
                "Safe nonce advanced since review ("@ + dec(pin.nonce as nat) + " → "@ + dec(
                    n as nat,
                ) + ") — go back and review again"@,
            )
        },
        Err(e) => Err(e),
    }
}

/// The view of an answer.
pub open spec fn told<T>(r: Result<T, String>) -> Result<T, Seq<char>> {
    match r {
        Ok(v) => Ok(v),
        Err(e) => Err(e@),
    }
}

/// The transaction at the nonce that was looked at, where the chain is still at
/// that nonce.
pub fn reviewed_tx(req: &SafeSendRequest, pin: &PreparedSafeTx, live: Result<u64, String>) -> (r:
    Result<SafeTx, String>)
    ensures
        match r {
            Ok(tx) => rebuild_nonce(*pin, told(live)) is Ok && tx@ == req.tx_at(pin.nonce),
            Err(e) => rebuild_nonce(*pin, told(live)) == Err::<u64, Seq<char>>(e@),
        },
{
    match live {
        Ok(n) => if n == pin.nonce {
            let input = req.safe_tx_input();
            let tx = build_safe_tx_with_nonce(input, pin.nonce);
            assert(tx@ == req.tx_at(pin.nonce));
            Ok(tx)
        } else {
            let was = decimal(pin.nonce);
            let is = decimal(n);
            Err(
                join5(
                    "Safe nonce advanced since review (",
                    was.as_str(),
                    " → ",
                    is.as_str(),
                    ") — go back and review again",
                ),
            )
        },
        Err(e) => Err(e),
    }
}

/// The third step: the hash of the rebuilt transaction has to be the one that was
/// looked at.
pub fn reviewed_hash(pin: &PreparedSafeTx, local: Hash32) -> (r: Result<(), &'static str>)
    ensures
        match r {
            Ok(_) => local == pin.safe_tx_hash,
            Err(e) => local != pin.safe_tx_hash && e@
                == "safe-tx differs from the reviewed hash — refusing to sign"@,
        },
{
    if local == pin.safe_tx_hash {
        Ok(())
    } else {
        Err("safe-tx differs from the reviewed hash — refusing to sign")
    }
}

/// What comes of rebuilding the transaction that the user looked at: the
/// transaction and its hash, or why nothing is signed. The chain answers with its
/// nonce, the transaction hashes to `local`, and the Safe confirms that hash or
/// disputes it.
pub open spec fn rebuilt(
    req: SafeSendRequest,
    live: Result<u64, Seq<char>>,
    local: Hash32,
    verified: Result<(), Seq<char>>,
) -> Result<(SafeTxModel, Hash32), Seq<char>> {
    match rebuild_pin(req) {
        Ok(pin) => match rebuild_nonce(pin, live) {
            Ok(_) => if local == pin.safe_tx_hash {
                match verified {
                    Ok(_) => Ok((req.tx_at(pin.nonce), local)),
                    Err(e) => Err(e),
                }
            } else {
                Err("safe-tx differs from the reviewed hash — refusing to sign"@)
            },
            Err(e) => Err(e),
        },
        Err(e) => Err(e),
    }
}

/// Rebuilds the transaction that the user looked at, from the answers of the
/// chain: its nonce, the hash of the rebuilt transaction, and whether the Safe
/// confirms that hash. An answer counts only where all before it are in order.
pub fn rebuild_reviewed_safe_tx(
    req: &SafeSendRequest,
    live: Result<u64, String>,
    local: Hash32,
    verified: Result<(), String>,
) -> (r: Result<(SafeTx, Hash32), String>)
    ensures
        match r {
            Ok(p) => rebuilt(*req, told(live), local, told(verified)) == Ok::<
                (SafeTxModel, Hash32),
                Seq<char>,
            >((p.0@, p.1)),
            Err(e) => rebuilt(*req, told(live), local, told(verified)) == Err::<
                (SafeTxModel, Hash32),
                Seq<char>,
            >(e@),
        },
{
    let pin = match reviewed_pin(req) {
        Ok(p) => p,
        Err(e) => {
            return Err(e);
        },
    };
    let tx = match reviewed_tx(req, &pin, live) {
        Ok(t) => t,
        Err(e) => {
            return Err(e);
        },
    };
    match reviewed_hash(&pin, local) {
        Ok(_) => {},
        Err(e) => {
            return Err(e.to_string());
        },
    }
    match verified {
        Ok(_) => Ok((tx, local)),
        Err(e) => Err(e),
    }
}

/// A signature covers only what the user looked at: rebuilding succeeds only
/// where signing is open for the Safe, the nonce and the hash are the ones that
/// were looked at, the chain is still at that nonce, and the Safe confirms the
/// hash; and the transaction is then the transfer that was asked for.
pub proof fn law_only_the_reviewed_transaction_is_signed(
    req: SafeSendRequest,
    live: Result<u64, Seq<char>>,
    local: Hash32,
    verified: Result<(), Seq<char>>,
)
    ensures
        match rebuilt(req, live, local, verified) {
            Ok(p) => {
                &&& req.trust.block_reason() is None
                &&& signable_version(req.version@)
                &&& req.prepared == Some(PreparedSafeTx { nonce: p.0.nonce, safe_tx_hash: p.1 })
                &&& live == Ok::<u64, Seq<char>>(p.0.nonce)
                &&& p.1 == local
                &&& verified is Ok
                &&& p.0 == req.tx_at(p.0.nonce)
            },
            Err(_) => true,
        },
{
}

/// The user who looked at a transaction gets to sign it: where signing is open,
/// and nothing has changed since, rebuilding succeeds.
pub proof fn law_an_unchanged_review_can_be_signed(req: SafeSendRequest, pin: PreparedSafeTx)
    requires
        safe_gate(req.trust, req.version@) is None,
        req.prepared == Some(pin),
    ensures
        rebuilt(req, Ok(pin.nonce), pin.safe_tx_hash, Ok(())) == Ok::<
            (SafeTxModel, Hash32),
            Seq<char>,
        >((req.tx_at(pin.nonce), pin.safe_tx_hash)),
{
}

/// Where signing is not open for a Safe, or nothing was looked at, rebuilding
/// fails in the same way whatever the chain would have answered.
pub proof fn law_gates_come_before_the_chain(
    req: SafeSendRequest,
    live: Result<u64, Seq<char>>,
    live2: Result<u64, Seq<char>>,
    local: Hash32,
    local2: Hash32,
    verified: Result<(), Seq<char>>,
    verified2: Result<(), Seq<char>>,
)
    requires
        rebuild_pin(req) is Err,
    ensures
        rebuilt(req, live, local, verified) == rebuilt(req, live2, local2, verified2),
        rebuilt(req, live, local, verified) is Err,
{
}

/// Who sends the transaction that executes a Safe's, and pays its gas.
#[derive(Debug, Clone, Copy, PartialEq, Eq, Structural)]
pub enum Executor {
    /// A key that the wallet holds.
    Local(Hash32),
    /// The first owner that signed.
    FirstOwner,
}

/// Who executes: a key that the wallet holds, if there is one, since it needs no
/// device.
pub fn choose_executor(key: Option<Hash32>) -> (r: Executor)
    ensures
        r == match key {
            Some(k) => Executor::Local(k),
            None => Executor::FirstOwner,
        },
{
    match key {
        Some(k) => Executor::Local(k),
        None => Executor::FirstOwner,
    }
}

// ── the queue ───────────────────────────────────────────────────────────────

/// Checks that a queued transaction still hashes to what is shown.
pub fn queued_hash(local: Hash32, shown: Hash32) -> (r: Result<(), &'static str>)
    ensures
        match r {
            Ok(_) => local == shown,
            Err(e) => local != shown && e@ == "safe-tx: detail hash drifted; refusing to sign"@,
        },
{
    if local == shown {
        Ok(())
    } else {
        Err("safe-tx: detail hash drifted; refusing to sign")
    }
}

// ── executing a call as a Safe ──────────────────────────────────────────────

/// How far the execution of a call has come.
#[derive(Debug, Clone, Copy, PartialEq, Eq, Structural)]
pub enum ExecStage {
    /// The Safe's nonce is being read.
    Nonce,
    /// The transaction is being hashed.
    Hash,
    /// The Safe is asked whether it computes the same hash.
    Verify,
    /// The owner with this number is signing.
    Sign(usize),
    /// The signatures are being put together.
    Assemble,
    /// The transaction is being sent.
    Send,
    Over,
}

/// What is to be done next.
#[derive(Debug, PartialEq, Eq, Structural)]
pub enum ExecAction {
    ReadNonce,
    /// Hash the call at this nonce.
    HashAt(u64),
    Verify(Hash32),
    /// Let this owner sign the hash.
    SignOwner { owner: usize, hash: Hash32 },
    Assemble,
    Send,
    /// It was sent.
    Sent(Hash32),
    /// It failed, for the reason that came.
    Failed,
    Nothing,
}

/// What came back.
#[derive(Debug, Clone, Copy, PartialEq, Eq, Structural)]
pub enum ExecEvent {
    Nonce(u64),
    Hashed(Hash32),
    Verified,
    Signed,
    Assembled,
    Sent(Hash32),
    /// Whatever was done last failed.
    Failed,
}

/// The execution of a call as a Safe: the transaction is put together at the
/// Safe's nonce, every owner signs its hash once the Safe has confirmed it, and
/// it is sent once all have signed.
#[derive(Debug, Clone, Copy, PartialEq, Eq, Structural)]
pub struct SafeExec {
    pub owners: usize,
    pub stage: ExecStage,
    pub hash: Option<Hash32>,
}

impl SafeExec {
    /// The execution, and what it does first.
    pub fn start(owners: usize) -> (r: (SafeExec, ExecAction))
        ensures
            r.0 == (SafeExec { owners, stage: ExecStage::Nonce, hash: None }),
            r.1 == ExecAction::ReadNonce,
    {
        (SafeExec { owners, stage: ExecStage::Nonce, hash: None }, ExecAction::ReadNonce)
    }

    /// The execution at a nonce that is settled already, and what it does first.
    pub fn start_at(owners: usize, nonce: u64) -> (r: (SafeExec, ExecAction))
        ensures
            r.0 == (SafeExec { owners, stage: ExecStage::Hash, hash: None }),
            r.1 == ExecAction::HashAt(nonce),
    {
        (SafeExec { owners, stage: ExecStage::Hash, hash: None }, ExecAction::HashAt(nonce))
    }

    /// The owner that signs after `done` have signed, or what follows the last.
    pub open spec fn after_signed(self, done: usize) -> (ExecStage, ExecAction) {
        match self.hash {
            Some(hash) => if done < self.owners {
                (ExecStage::Sign(done), ExecAction::SignOwner { owner: done, hash })
            } else {
                (ExecStage::Assemble, ExecAction::Assemble)
            },
            None => (ExecStage::Over, ExecAction::Failed),
        }
    }

    pub open spec fn next(self, e: ExecEvent) -> (SafeExec, ExecAction) {
        match (self.stage, e) {
            (ExecStage::Over, _) => (self, ExecAction::Nothing),
            (_, ExecEvent::Failed) => (
                SafeExec { stage: ExecStage::Over, ..self },
                ExecAction::Failed,
            ),
            (ExecStage::Nonce, ExecEvent::Nonce(n)) => (
                SafeExec { stage: ExecStage::Hash, ..self },
                ExecAction::HashAt(n),
            ),
            (ExecStage::Hash, ExecEvent::Hashed(h)) => (
                SafeExec { stage: ExecStage::Verify, hash: Some(h), ..self },
                ExecAction::Verify(h),
            ),
            (ExecStage::Verify, ExecEvent::Verified) => {
                let (stage, action) = self.after_signed(0);
                (SafeExec { stage, ..self }, action)
            },
            (ExecStage::Sign(i), ExecEvent::Signed) => {
                let (stage, action) = self.after_signed(
                    if i < self.owners {
                        (i + 1) as usize
                    } else {
                        self.owners
                    },
                );
                (SafeExec { stage, ..self }, action)
            },
            (ExecStage::Assemble, ExecEvent::Assembled) => (
                SafeExec { stage: ExecStage::Send, ..self },
                ExecAction::Send,
            ),
            (ExecStage::Send, ExecEvent::Sent(h)) => (
                SafeExec { stage: ExecStage::Over, ..self },
                ExecAction::Sent(h),
            ),
            _ => (self, ExecAction::Nothing),
        }
    }

    fn sign_next(&mut self, done: usize) -> (r: ExecAction)
        ensures
            *final(self) == (SafeExec { stage: old(self).after_signed(done).0, ..*old(self) }),
            r == old(self).after_signed(done).1,
    {
        match self.hash {
            Some(hash) => if done < self.owners {
                self.stage = ExecStage::Sign(done);
                ExecAction::SignOwner { owner: done, hash }
            } else {
                self.stage = ExecStage::Assemble;
                ExecAction::Assemble
            },
            None => {
                self.stage = ExecStage::Over;
                ExecAction::Failed
            },
        }
    }

    /// Takes in what came back and says what is to be done next.
    pub fn step(&mut self, e: ExecEvent) -> (r: ExecAction)
        ensures
            (*final(self), r) == old(self).next(e),
    {
        match (self.stage, e) {
            (ExecStage::Over, _) => ExecAction::Nothing,
            (_, ExecEvent::Failed) => {
                self.stage = ExecStage::Over;
                ExecAction::Failed
            },
            (ExecStage::Nonce, ExecEvent::Nonce(n)) => {
                self.stage = ExecStage::Hash;
                ExecAction::HashAt(n)
            },
            (ExecStage::Hash, ExecEvent::Hashed(h)) => {
                self.hash = Some(h);
                self.stage = ExecStage::Verify;
                ExecAction::Verify(h)
            },
            (ExecStage::Verify, ExecEvent::Verified) => self.sign_next(0),
            (ExecStage::Sign(i), ExecEvent::Signed) => {
                let done: usize = if i < self.owners {
                    i + 1
                } else {
                    self.owners
                };
                self.sign_next(done)
            },
            (ExecStage::Assemble, ExecEvent::Assembled) => {
                self.stage = ExecStage::Send;
                ExecAction::Send
            },
            (ExecStage::Send, ExecEvent::Sent(h)) => {
                self.stage = ExecStage::Over;
                ExecAction::Sent(h)
            },
            _ => ExecAction::Nothing,
        }
    }
}

/// No owner signs before the Safe has confirmed the hash, each signs that hash
/// and no other, and each signs only after the one before; nothing is sent before
/// the last has signed and the signatures are put together.
pub proof fn law_owners_sign_only_confirmed_hashes(x: SafeExec, e: ExecEvent)
    ensures
        x.next(e).1 matches ExecAction::SignOwner { owner, hash } ==> {
            &&& x.hash == Some(hash)
            &&& owner < x.owners
            &&& (x.stage == ExecStage::Verify && e == ExecEvent::Verified && owner == 0) || (x.stage
                is Sign && e == ExecEvent::Signed && owner == x.stage->Sign_0 + 1)
        },
        x.next(e).1 == ExecAction::Assemble ==> (x.stage == ExecStage::Verify && x.owners == 0) || (
        x.stage is Sign && (x.stage->Sign_0 + 1 >= x.owners)),
        x.next(e).1 == ExecAction::Send ==> x.stage == ExecStage::Assemble && e
            == ExecEvent::Assembled,
        x.hash is Some && x.stage != ExecStage::Hash ==> x.next(e).0.hash == x.hash,
{
}

/// The transaction is put together at the nonce that was read, and once only; where
/// the nonce was settled before, none is read.
pub proof fn law_executions_hash_once(x: SafeExec, e: ExecEvent)
    ensures
        x.next(e).1 != ExecAction::ReadNonce,
        x.next(e).1 matches ExecAction::HashAt(n) ==> x.stage == ExecStage::Nonce && e
            == ExecEvent::Nonce(n),
        x.next(e).0.stage != ExecStage::Nonce || x.next(e).0 == x,
        x.stage != ExecStage::Nonce && x.stage != ExecStage::Hash ==> x.next(e).0.stage
            != ExecStage::Hash,
{
}

/// A failure ends the execution, and nothing is done after its end.
pub proof fn law_failed_executions_stop(x: SafeExec, e: ExecEvent)
    ensures
        e == ExecEvent::Failed ==> x.next(e).0.stage == ExecStage::Over,
        x.stage == ExecStage::Over ==> x.next(e) == (x, ExecAction::Nothing),
{
}

} // verus!
