//! What comes of what is known of orders, names and reviews.

use vstd::prelude::*;

use crate::name_writes::NamePhase;
use crate::screen::{silent, Env, EnvModel, NamesNotice, Reply, ScreenModel, Turn, WalletScreen};
use crate::screen_message::{Message, ReviewEvent};
use crate::screen_orders::{
    on_cancelled, on_name_read, on_name_written, on_orders, on_placed, on_poll, on_quote, on_status,
};
use crate::screen_swap::{on_confirm_review, on_prepared};
use crate::update_news::on_news;

verus! {

/// Something happens in the review.
pub open spec fn on_review(m: ScreenModel, e: ReviewEvent) -> Turn {
    let shut = silent(ScreenModel { gate: m.gate.closed(), ..m });
    match e {
        ReviewEvent::Confirm => on_confirm_review(m),
        ReviewEvent::Cancel => shut,
        ReviewEvent::Key(k) => if k.is_escape() {
            shut
        } else {
            silent(m)
        },
        _ => silent(m),
    }
}

/// What is known of orders, names and reviews.
#[verifier::opaque]
pub open spec fn on_order_news(m: ScreenModel, msg: Message, env: EnvModel) -> Turn {
    match msg {
        Message::SignReview(e) => on_review(m, e),
        Message::SignReviewPrepared { seq, legs } => on_prepared(m, seq, legs),
        Message::NameReverseScanned { owner } => on_name_read(m, owner, NamesNotice::Scanned),
        Message::NameStatusLoaded { owner } => on_name_read(m, owner, NamesNotice::StatusLoaded),
        Message::NameSearched { owner, seq } => on_name_read(m, owner, NamesNotice::Searched(seq)),
        Message::NameQuoted { owner, years } => on_name_read(
            m,
            owner,
            NamesNotice::Quoted(years),
        ),
        Message::NameCommitted { signer } => on_name_written(m, NamePhase::Commit, signer),
        Message::NameRegistered { signer } => on_name_written(m, NamePhase::Reveal, signer),
        Message::NameRenewed { signer } => on_name_written(m, NamePhase::Renew, signer),
        Message::NameRecipientSet { signer } => on_name_written(m, NamePhase::Recipient, signer),
        Message::CowQuote { host, result } => on_quote(m, host, result),
        Message::CowPlaced { host, result, signer } => on_placed(m, host, result, signer),
        Message::CowCancel { host, uid, result, signer } => on_cancelled(
            m,
            host,
            uid@,
            result,
            signer,
        ),
        Message::CowStatus { uid, result } => on_status(m, uid@, result),
        Message::CowPollTick => on_poll(m),
        Message::CowAccountOrders { address, result, .. } => on_orders(m, address, result),
        msg => on_news(m, msg, env),
    }
}

impl WalletScreen {
    /// Something happens in the review.
    fn review_event(&mut self, e: ReviewEvent) -> (r: Reply)
        ensures
            (Turn { state: final(self)@, answer: r@ }) == on_review(old(self)@, e),
    {
        match e {
            ReviewEvent::Confirm => self.confirm_sign_review(),
            ReviewEvent::Cancel => self.cancel_sign_review(),
            ReviewEvent::Key(k) => {
                if k.escape() {
                    return self.cancel_sign_review();
                }
                Reply::idle()
            },
            _ => Reply::idle(),
        }
    }

    /// Takes in what is known of orders, names and reviews; hands anything else on.
    pub(crate) fn update_orders(&mut self, msg: Message, env: &Env) -> (r: Reply)
        ensures
            (Turn { state: final(self)@, answer: r@ }) == on_order_news(old(self)@, msg, env@),
    {
        proof {
            reveal(on_order_news);
        }
        match msg {
            Message::SignReview(e) => {
                return self.review_event(e);
            },
            Message::SignReviewPrepared { seq, legs } => {
                return self.sign_review_prepared(seq, legs);
            },
            Message::NameReverseScanned { owner } => {
                return self.name_read(owner, NamesNotice::Scanned);
            },
            Message::NameStatusLoaded { owner } => {
                return self.name_read(
                    owner,
                    NamesNotice::StatusLoaded,
                );
            },
            Message::NameSearched { owner, seq } => {
                return self.name_read(
                    owner,
                    NamesNotice::Searched(seq),
                );
            },
            Message::NameQuoted { owner, years } => {
                return self.name_read(
                    owner,
                    NamesNotice::Quoted(years),
                );
            },
            Message::NameCommitted { signer } => {
                return self.name_written(NamePhase::Commit, signer);
            },
            Message::NameRegistered { signer } => {
                return self.name_written(NamePhase::Reveal, signer);
            },
            Message::NameRenewed { signer } => {
                return self.name_written(NamePhase::Renew, signer);
            },
            Message::NameRecipientSet { signer } => {
                return self.name_written(
                    NamePhase::Recipient,
                    signer,
                );
            },
            Message::CowQuote { host, result } => {
                return self.cow_quote(host, result);
            },
            Message::CowPlaced { host, result, signer } => {
                return self.cow_placed(host, result, signer);
            },
            Message::CowCancel { host, uid, result, signer } => {
                return self.cow_cancel(
                    host,
                    uid.as_str(),
                    result,
                    signer,
                );
            },
            Message::CowStatus { uid, result } => {
                return self.cow_status(uid.as_str(), result);
            },
            Message::CowPollTick => {
                return self.cow_poll_tick();
            },
            Message::CowAccountOrders { address, result, .. } => {
                return self.cow_account_orders(
                    address,
                    result,
                );
            },
            msg => {
                return self.update_news(msg, env);
            },
        }
    }
}

} // verus!
