//! What a name write does: that it is the one that was asked for, from the request over
//! its review to the registry.

use vstd::prelude::*;

use crate::apps::NameOutcome;
use crate::crew::CrewKind;
use crate::name_flow::{NameAct, NameEvent, NameStage, NameWrite, NameWriter};
use crate::name_writes::{labels_of, NamePhase, NameSign, Namespace};
use crate::review::SignAction;
use crate::safe_tx::Executor;
use crate::screen::{Act, Effect, NamesNotice, ScreenModel};
use crate::screen_swap::{on_confirm_review, on_name_ask, on_name_write, on_prepared};
use crate::text::dec;
use crate::types::{Address, Hash32};

verus! {

// ── from the request to the review ──────────────────────────────────────────

/// The write is the one that was asked for: with its name, its term and its recipient,
/// for the owner and with the secret where a registration begins.
pub open spec fn writes_what_was_asked(
    sign: NameSign,
    o: NameOutcome,
    owner: Address,
    secret: Hash32,
) -> bool {
    match o {
        NameOutcome::Commit { namespace, label, years } => sign matches NameSign::Commit(p)
            && p.namespace == namespace && p.label == label && p.owner == owner && p.secret
            == secret && p.duration_secs == years * 365 * 24 * 60 * 60,
        NameOutcome::Register { plan } => sign matches NameSign::Register(p) && p == plan,
        NameOutcome::RegisterXns { namespace, label } => sign matches NameSign::RegisterXns {
            namespace: n,
            label: l,
        } && n == namespace && l == label,
        NameOutcome::Renew { namespace, label, years } => sign matches NameSign::Renew {
            namespace: n,
            label: l,
            years: y,
        } && n == namespace && l == label && y == years,
        NameOutcome::SetRecipient { namespace, label, recipient } => sign
            matches NameSign::SetRecipient { namespace: n, label: l, recipient: r } && n
            == namespace && l == label && r == recipient,
        _ => false,
    }
}

/// Whose name it is: that of the Safe on screen, or else of the account.
pub open spec fn asker(m: ScreenModel) -> Address {
    match m.identity.active_safe {
        Some(i) => if i < m.identity.safes.len() {
            m.identity.safes[i as int].address
        } else {
            m.identity.address
        },
        None => m.identity.address,
    }
}

/// A write that is asked for is reviewed as it was asked for, where no other review is
/// open and nothing else is being signed: the review is to sign it, and its call is
/// worked out for the identity on screen.
pub proof fn law_requested_writes_are_reviewed(m: ScreenModel, o: NameOutcome, secret: Hash32)
    requires
        o is Commit || o is Register || o is RegisterXns || o is Renew || o is SetRecipient,
        !m.signing(),
        m.identity.active_safe is None || m.identity.name_ctx() is Some,
        m.gate.review is None,
    ensures
        ({
            let t = on_name_ask(m, o, secret);
            &&& t.answer.wish is None
            &&& t.answer.acts.len() == 1
            &&& t.answer.acts[0] matches Act::Plain(Effect::PrepareName { seq, from, sign }) && {
                &&& writes_what_was_asked(sign, o, asker(m), secret)
                &&& from == asker(m)
                &&& t.state.gate.review matches Some(r) && {
                    &&& r.action == (SignAction::Name { sign })
                    &&& r.seq == seq
                    &&& r.legs_loading
                    &&& r.legs.len() == 0
                    &&& r.order is None
                }
                &&& t.state.gate.seq == seq
                &&& m.gate.seq < u64::MAX ==> seq == m.gate.seq + 1
            }
            &&& t.state == (ScreenModel { gate: t.state.gate, ..m })
        }),
{
    if let NameOutcome::Commit { years, .. } = o {
        assert(years * 31_536_000 <= u64::MAX) by (nonlinear_arith)
            requires
                0 <= years <= u32::MAX,
        ;
        assert(years * 365 * 24 * 60 * 60 == years * 31_536_000) by (nonlinear_arith);
    }
}

/// A write that is asked for while another review is open is dropped; that review
/// stays.
pub proof fn law_an_open_review_keeps_its_place(m: ScreenModel, o: NameOutcome, secret: Hash32)
    requires
        o is Commit || o is Register || o is RegisterXns || o is Renew || o is SetRecipient,
        m.gate.review is Some,
        !m.signing(),
        m.identity.active_safe is None || m.identity.name_ctx() is Some,
    ensures
        on_name_ask(m, o, secret).state == m,
        on_name_ask(m, o, secret).answer.acts.len() == 0,
{
}

/// A write is refused while something else is being signed, and where the Safe on screen
/// cannot write names; the page that asked is told, and nothing changes.
pub proof fn law_refused_writes_are_told(
    m: ScreenModel,
    o: NameOutcome,
    sign: NameSign,
    secret: Hash32,
)
    requires
        m.signing() || (m.identity.active_safe is Some && m.identity.name_ctx() is None),
    ensures
        ({
            let t = on_name_ask(m, o, secret);
            &&& o is Commit ==> (t.answer.acts.len() == 1 && (t.answer.acts[0]
                matches Act::NamesFailed { phase, .. } && phase == NamePhase::Commit))
            &&& o is Register || o is RegisterXns ==> (t.answer.acts.len() == 1 && (
            t.answer.acts[0] matches Act::NamesFailed { phase, .. } && phase == NamePhase::Reveal))
            &&& o is Renew ==> (t.answer.acts.len() == 1 && (t.answer.acts[0]
                matches Act::NamesFailed { phase, .. } && phase == NamePhase::Renew))
            &&& o is SetRecipient ==> (t.answer.acts.len() == 1 && (t.answer.acts[0]
                matches Act::NamesFailed { phase, .. } && phase == NamePhase::Recipient))
            &&& t.state == m
        }),
        ({
            let t = on_name_write(m, sign);
            &&& t.state == m
            &&& t.answer.acts.len() == 1
            &&& t.answer.acts[0] is NamesFailed
        }),
{
}

/// A read is passed on as it was asked for, for the identity on screen, whatever else
/// goes on.
pub proof fn law_reads_are_passed_on(m: ScreenModel, o: NameOutcome, secret: Hash32)
    requires
        o is ReverseScan || o is Status || o is Search || o is Quote,
    ensures
        on_name_ask(m, o, secret).state == m,
        on_name_ask(m, o, secret).answer.acts == seq![
            Act::Plain(Effect::ReadNames { owner: asker(m), ask: o }),
        ],
{
}

// ── from the review to the signature ────────────────────────────────────────

/// A confirmed write is made as it was reviewed: by the Safe on screen with its owners,
/// or by the active account with the signer that lay on the desk. The names app is told
/// that it begins.
pub proof fn law_a_confirmed_write_is_made(m: ScreenModel, sign: NameSign)
    requires
        m.gate.review matches Some(r) && r.action == (SignAction::Name { sign }),
        !m.signing(),
        m.identity.active_safe is None || m.identity.name_ctx() is Some,
    ensures
        ({
            let t = on_confirm_review(m);
            &&& t.state.gate.review is None
            &&& t.state.gate.seq == m.gate.seq
            &&& t.answer.acts.len() == 2
            &&& t.answer.acts[0] matches Act::Plain(Effect::Names(NamesNotice::Begin(phase))) && {
                &&& sign is Commit ==> phase == NamePhase::Commit
                &&& sign is Register || sign is RegisterXns ==> phase == NamePhase::Reveal
                &&& sign is Renew ==> phase == NamePhase::Renew
                &&& sign is SetRecipient ==> phase == NamePhase::Recipient
            }
            &&& m.identity.active_safe is Some ==> (t.answer.acts[1]
                matches Act::WriteNameSafe { handoff, sign: s, ctx } && s == sign && Some(ctx)
                == m.identity.name_ctx() && handoff.cell == Some(m.desk.signer))
            &&& m.identity.active_safe is None ==> (t.answer.acts[1]
                matches Act::Plain(Effect::WriteName { handoff, desc, sign: s }) && s == sign
                && desc == m.identity.signer_desc() && handoff.cell == Some(m.desk.signer))
            &&& t.state.desk.order_op_in_flight
        }),
{
}

/// Where the call of a write cannot be worked out, its review closes and the page that
/// waits for it is told the reason.
pub proof fn law_an_unworkable_write_is_told(m: ScreenModel, sign: NameSign, why: String)
    requires
        m.gate.review matches Some(r) && r.action == (SignAction::Name { sign }),
    ensures
        ({
            let t = on_prepared(m, m.gate.review->0.seq, Err(why));
            &&& t.state.gate.review is None
            &&& t.state == (ScreenModel { gate: t.state.gate, ..m })
            &&& t.answer.acts.len() == 1
            &&& t.answer.acts[0] matches Act::NamesFailed { phase, why: w } && w == why@ && {
                &&& sign is Commit ==> phase == NamePhase::Commit
                &&& sign is Register || sign is RegisterXns ==> phase == NamePhase::Reveal
                &&& sign is Renew ==> phase == NamePhase::Renew
                &&& sign is SetRecipient ==> phase == NamePhase::Recipient
            }
        }),
{
}

// ── from the signature to the registry ──────────────────────────────────────

/// An account writes a name with its own signer; it is reported as written once it is
/// mined, under the transaction that was sent.
pub proof fn law_an_account_writes_a_name(sign: NameSign, h: Hash32)
    ensures
        ({
            let a = NameWrite::begun(sign, NameWriter::Account);
            let b = a.state.next(NameEvent::Crew(Ok(())));
            let c = b.state.next(NameEvent::Sent(Ok(h)));
            let d = c.state.next(NameEvent::Provider(true));
            let e = d.state.next(NameEvent::Mined(Ok(())));
            &&& a.state.sign == sign
            &&& a.act == NameAct::Gather(CrewKind::NameAccount)
            &&& b.act == NameAct::Submit
            &&& c.act == NameAct::FindProvider
            &&& d.act matches NameAct::AwaitReceipt { hash, .. } && hash == h
            &&& sign matches NameSign::Commit(p) ==> e.act == (NameAct::Committed {
                plan: p,
                hash: h,
            })
            &&& !(sign is Commit) ==> (e.act matches NameAct::Written { hash, .. } && hash == h)
            &&& c.state.next(NameEvent::Provider(false)).act is Failed
        }),
{
}

/// A Safe works the call out first, and makes it with its owners.
pub proof fn law_a_safe_writes_a_name(
    sign: NameSign,
    owners: usize,
    executor: Executor,
    h: Hash32,
)
    ensures
        ({
            let z = NameWrite::begun(sign, NameWriter::Safe { owners, executor });
            let a = z.state.next(NameEvent::Call(Ok(())));
            let b = a.state.next(NameEvent::Crew(Ok(())));
            let c = b.state.next(NameEvent::Sent(Ok(h)));
            let d = c.state.next(NameEvent::Provider(true));
            let e = d.state.next(NameEvent::Mined(Ok(())));
            &&& z.state.sign == sign
            &&& z.act == NameAct::BuildCall
            &&& a.act == NameAct::Gather(CrewKind::NameSafe { owners, executor })
            &&& b.act == NameAct::CallAsSafe
            &&& c.act == NameAct::FindProvider
            &&& d.act matches NameAct::AwaitReceipt { hash, .. } && hash == h
            &&& sign matches NameSign::Commit(p) ==> e.act == (NameAct::Committed {
                plan: p,
                hash: h,
            })
            &&& !(sign is Commit) ==> (e.act matches NameAct::Written { hash, .. } && hash == h)
        }),
{
}

/// A write that fails tells why.
pub proof fn law_writes_tell_why_they_failed(s: NameWrite, w: String)
    ensures
        s.stage == NameStage::Call ==> s.next(NameEvent::Call(Err(w))).act == NameAct::Failed(w@),
        s.stage == NameStage::Crew ==> s.next(NameEvent::Crew(Err(w))).act == NameAct::Failed(w@),
        s.stage == NameStage::Submission ==> s.next(NameEvent::Sent(Err(w))).act
            == NameAct::Failed(w@),
        s.stage == NameStage::Receipt ==> s.next(NameEvent::Mined(Err(w))).act == NameAct::Failed(
            w@,
        ),
{
}

// ── how a write is called ───────────────────────────────────────────────────

/// The ending that the names of a registry have.
pub open spec fn full_name(namespace: Namespace, label: Seq<char>) -> Seq<char> {
    match namespace {
        Namespace::Ens => label + ".eth"@,
        Namespace::Gns => label + ".gwei"@,
        Namespace::Wns => label + ".wei"@,
    }
}

/// A write that was sent is waited for, for sixty polls at most.
pub proof fn law_a_sent_write_is_waited_for(s: NameWrite, hash: Hash32)
    requires
        s.stage == NameStage::Provider,
        s.hash == Some(hash),
    ensures
        s.next(NameEvent::Provider(true)).act == (NameAct::AwaitReceipt { hash, polls: 60 }),
        s.next(NameEvent::Provider(true)).state == (NameWrite { stage: NameStage::Receipt, ..s }),
        s.next(NameEvent::Provider(false)).act == NameAct::Failed(
            "no Ethereum mainnet RPC configured"@,
        ),
{
}

/// A write is shown under the name that it writes, with what it does to it.
pub proof fn law_writes_are_called_by_their_name(sign: NameSign)
    ensures
        match sign {
            NameSign::Commit(p) => {
                &&& sign.name() == full_name(p.namespace, p.label@)
                &&& sign.leg_name() == "Commit "@ + sign.name()
                &&& labels_of(sign).title == "Register "@ + sign.name() + " — commit"@
            },
            NameSign::Register(p) => {
                &&& sign.name() == full_name(p.namespace, p.label@)
                &&& sign.leg_name() == "Register "@ + sign.name()
                &&& labels_of(sign).title == "Register "@ + sign.name() + " — reveal"@
            },
            NameSign::RegisterXns { namespace, label } => {
                &&& sign.name() == label@ + "."@ + namespace@
                &&& sign.leg_name() == "Register "@ + sign.name()
                &&& labels_of(sign).title == "Register "@ + sign.name()
            },
            NameSign::Renew { namespace, label, years } => {
                &&& sign.name() == full_name(namespace, label@)
                &&& sign.leg_name() == "Renew "@ + sign.name()
                &&& labels_of(sign).title == "Renew "@ + sign.name()
                &&& years == 1 ==> labels_of(sign).subtitle == Some("+"@ + dec(1) + " year"@ + ""@)
                &&& years != 1 ==> labels_of(sign).subtitle == Some(
                    "+"@ + dec(years as nat) + " year"@ + "s"@,
                )
            },
            NameSign::SetRecipient { namespace, label, .. } => {
                &&& sign.name() == full_name(namespace, label@)
                &&& sign.leg_name() == "Set recipient for "@ + sign.name()
                &&& labels_of(sign).title == "Set recipient for "@ + sign.name()
            },
        },
{
}

} // verus!
