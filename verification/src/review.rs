//! The review that stands before every signature: what is about to be signed is
//! shown, and signed only once the user confirms.

use vstd::prelude::*;

use crate::function_panel::DecodeResult;
use crate::name_writes::{labels_of, name_review_labels, opt_view, NameSign};
use crate::orders::{short_order_uid, CowHost, TrackedOrder};
use crate::swap::{OrderReview, QuoteResponse, SwapDraft};
use crate::text::{can_cut, join2, join5, middle_cut};
use crate::types::{Address, Amount, Chain};

verus! {

/// What is signed once the user confirms.
#[derive(Debug)]
pub enum SignAction {
    Cow { host: CowHost, draft: SwapDraft, quote: QuoteResponse },
    CowCancel { host: CowHost, uid: String },
    Name { sign: NameSign },
}

/// A call that is part of what is signed.
#[derive(Debug)]
pub struct ReviewLeg {
    pub title: String,
    pub to: Address,
    pub value: Amount,
    pub chain: Chain,
    pub decoded: DecodeResult,
}

/// A review.
#[derive(Debug)]
pub struct SignReview {
    pub title: String,
    pub subtitle: Option<String>,
    pub order: Option<OrderReview>,
    pub note: Option<String>,
    /// Which review this is.
    pub seq: u64,
    pub legs: Vec<ReviewLeg>,
    /// The calls are still being worked out.
    pub legs_loading: bool,
    pub action: SignAction,
}

/// What a `SignReview` holds.
pub struct ReviewModel {
    pub title: Seq<char>,
    pub subtitle: Option<Seq<char>>,
    pub order: Option<OrderReview>,
    pub note: Option<Seq<char>>,
    pub seq: u64,
    pub legs: Seq<ReviewLeg>,
    pub legs_loading: bool,
    pub action: SignAction,
}

impl View for SignReview {
    type V = ReviewModel;

    open spec fn view(&self) -> ReviewModel {
        ReviewModel {
            title: self.title@,
            subtitle: opt_view(self.subtitle),
            order: self.order,
            note: opt_view(self.note),
            seq: self.seq,
            legs: self.legs@,
            legs_loading: self.legs_loading,
            action: self.action,
        }
    }
}

/// What stands before a signature: the review that is open, if one is, and the number
/// of the last.
#[derive(Debug)]
pub struct ReviewGate {
    pub review: Option<SignReview>,
    pub seq: u64,
}

/// What a `ReviewGate` holds.
pub struct GateModel {
    pub review: Option<ReviewModel>,
    pub seq: u64,
}

impl View for ReviewGate {
    type V = GateModel;

    open spec fn view(&self) -> GateModel {
        GateModel {
            review: match self.review {
                Some(r) => Some(r@),
                None => None,
            },
            seq: self.seq,
        }
    }
}

/// The review of a name write.
pub open spec fn name_review(sign: NameSign, seq: u64) -> ReviewModel {
    let l = labels_of(sign);
    ReviewModel {
        title: l.title,
        subtitle: l.subtitle,
        order: None,
        note: l.note,
        seq,
        legs: Seq::empty(),
        legs_loading: true,
        action: SignAction::Name { sign },
    }
}

/// The review of an order.
pub open spec fn cow_review(
    host: CowHost,
    draft: SwapDraft,
    quote: QuoteResponse,
    order: OrderReview,
    seq: u64,
) -> ReviewModel {
    ReviewModel {
        title: "Swap "@ + order.sell_amount@ + " "@ + order.sell_symbol@ + " → "@
            + order.buy_symbol@,
        subtitle: None,
        order: Some(order),
        note: Some(
            if draft.is_native {
                "Selling native ETH is an on-chain order — you'll also pay gas."@
            } else {
                "ERC-20 orders are gasless — CoW solvers pay the settlement gas."@
            },
        ),
        seq,
        legs: Seq::empty(),
        legs_loading: true,
        action: SignAction::Cow { host, draft, quote },
    }
}

/// The review of a cancellation, given the text of the amount that is sold. There
/// is nothing to work out, so it can be confirmed at once.
pub open spec fn cancel_review(host: CowHost, o: TrackedOrder, sells: Seq<char>, seq: u64) -> ReviewModel {
    ReviewModel {
        title: "Cancel order — "@ + sells + " "@ + o.sell_symbol@ + " → "@ + o.buy_symbol@,
        subtitle: Some("Order "@ + middle_cut(o.uid@, 14, 8, 6)),
        order: None,
        note: Some(
            "Off-chain gasless cancellation — you sign an EIP-712 message; no transaction is sent."@,
        ),
        seq,
        legs: Seq::empty(),
        legs_loading: false,
        action: SignAction::CowCancel { host, uid: o.uid },
    }
}

/// The number after the given one; it stays at the largest.
pub open spec fn next_review(seq: u64) -> u64 {
    if seq == u64::MAX {
        seq
    } else {
        (seq + 1) as u64
    }
}

impl GateModel {
    /// After the calls of a review were worked out.
    pub open spec fn prepared(self, legs: Seq<ReviewLeg>) -> GateModel {
        match self.review {
            Some(r) => GateModel {
                review: Some(ReviewModel { legs, legs_loading: false, ..r }),
                ..self
            },
            None => self,
        }
    }

    /// Whether the given review is the one that is open.
    pub open spec fn awaits(self, seq: u64) -> bool {
        self.review matches Some(r) && r.seq == seq
    }

    /// With no review open.
    pub open spec fn closed(self) -> GateModel {
        GateModel { review: None, ..self }
    }

    /// With the given review open, as the one after the last.
    pub open spec fn opened(self, r: ReviewModel) -> GateModel {
        GateModel { review: Some(r), seq: next_review(self.seq) }
    }
}

impl ReviewGate {
    /// No review yet.
    pub fn new() -> (r: ReviewGate)
        ensures
            r@ == (GateModel { review: None, seq: 0 }),
    {
        ReviewGate { review: None, seq: 0 }
    }

    fn bump(&mut self) -> (r: u64)
        ensures
            r == next_review(old(self).seq),
            final(self).seq == r,
            final(self).review == old(self).review,
    {
        if self.seq < u64::MAX {
            self.seq = self.seq + 1;
        }
        self.seq
    }

    /// Opens the review of a name write, unless another review is open. Returns
    /// the number of the review that was opened.
    pub fn open_name_review(&mut self, sign: NameSign) -> (r: Option<u64>)
        ensures
            match old(self)@.review {
                Some(_) => *final(self) == *old(self) && r is None,
                None => {
                    &&& r == Some(next_review(old(self).seq))
                    &&& final(self)@ == old(self)@.opened(
                        name_review(sign, next_review(old(self).seq)),
                    )
                },
            },
    {
        if self.review.is_some() {
            return None;
        }
        let seq = self.bump();
        let labels = name_review_labels(&sign);
        self.review = Some(
            SignReview {
                title: labels.title,
                subtitle: labels.subtitle,
                order: None,
                note: labels.note,
                seq,
                legs: Vec::new(),
                legs_loading: true,
                action: SignAction::Name { sign },
            },
        );
        Some(seq)
    }

    /// Opens the review of an order, unless another review is open. Returns the
    /// number of the review that was opened.
    pub fn open_cow_review(
        &mut self,
        host: CowHost,
        draft: SwapDraft,
        quote: QuoteResponse,
        order: OrderReview,
    ) -> (r: Option<u64>)
        ensures
            match old(self)@.review {
                Some(_) => *final(self) == *old(self) && r is None,
                None => {
                    &&& r == Some(next_review(old(self).seq))
                    &&& final(self)@ == old(self)@.opened(
                        cow_review(host, draft, quote, order, next_review(old(self).seq)),
                    )
                },
            },
    {
        if self.review.is_some() {
            return None;
        }
        let seq = self.bump();
        let front = join5(
            "Swap ",
            order.sell_amount.as_str(),
            " ",
            order.sell_symbol.as_str(),
            " → ",
        );
        let title = join2(front.as_str(), order.buy_symbol.as_str());
        let note = if draft.is_native {
            "Selling native ETH is an on-chain order — you'll also pay gas."
        } else {
            "ERC-20 orders are gasless — CoW solvers pay the settlement gas."
        };
        self.review = Some(
            SignReview {
                title,
                subtitle: None,
                order: Some(order),
                note: Some(note.to_string()),
                seq,
                legs: Vec::new(),
                legs_loading: true,
                action: SignAction::Cow { host, draft, quote },
            },
        );
        Some(seq)
    }

    /// Opens the review of a cancellation, unless another review is open.
    pub fn open_cow_cancel_review(&mut self, host: CowHost, o: &TrackedOrder, sells: &str) -> (b:
        bool)
        requires
            can_cut(o.uid@, 14, 8, 6),
        ensures
            match old(self)@.review {
                Some(_) => *final(self) == *old(self) && !b,
                None => {
                    &&& b
                    &&& final(self)@ == old(self)@.opened(
                        cancel_review(host, *o, sells@, next_review(old(self).seq)),
                    )
                },
            },
    {
        if self.review.is_some() {
            return false;
        }
        let seq = self.bump();
        let front = join5("Cancel order — ", sells, " ", o.sell_symbol.as_str(), " → ");
        let title = join2(front.as_str(), o.buy_symbol.as_str());
        let uid = short_order_uid(o.uid.as_str());
        self.review = Some(
            SignReview {
                title,
                subtitle: Some(join2("Order ", uid.as_str())),
                order: None,
                note: Some(
                    "Off-chain gasless cancellation — you sign an EIP-712 message; no transaction is sent.".to_string(),
                ),
                seq,
                legs: Vec::new(),
                legs_loading: false,
                action: SignAction::CowCancel { host, uid: o.uid.clone() },
            },
        );
        true
    }

    /// The calls of a review were worked out. They count only for the review that
    /// is open.
    pub fn legs_ready(&mut self, seq: u64, legs: Vec<ReviewLeg>)
        ensures
            final(self)@ == if old(self)@.awaits(seq) {
                old(self)@.prepared(legs@)
            } else {
                old(self)@
            },
    {
        match self.review.take() {
            Some(mut r) => {
                if r.seq == seq {
                    r.legs = legs;
                    r.legs_loading = false;
                }
                self.review = Some(r);
            },
            None => {},
        }
    }

    /// Tells whether the given review is the one that is open.
    pub fn is_awaiting(&self, seq: u64) -> (b: bool)
        ensures
            b == self@.awaits(seq),
    {
        match &self.review {
            Some(r) => r.seq == seq,
            None => false,
        }
    }

    /// Closes the review and hands out what it was to sign.
    pub fn take_action(&mut self) -> (r: Option<SignAction>)
        ensures
            final(self)@ == old(self)@.closed(),
            r == match old(self)@.review {
                Some(v) => Some(v.action),
                None => None,
            },
    {
        match self.review.take() {
            Some(r) => Some(r.action),
            None => None,
        }
    }

    /// Closes the review. Nothing is signed.
    pub fn cancel_sign_review(&mut self)
        ensures
            final(self)@ == old(self)@.closed(),
    {
        self.review = None;
    }
}

// ── laws ────────────────────────────────────────────────────────────────────

/// The calls of a review that was closed or replaced never show up in another:
/// the next review has another number.
pub proof fn law_stale_calls_are_dropped(g: GateModel, r: ReviewModel)
    requires
        g.review is Some,
        g.review->0.seq <= g.seq < u64::MAX,
        r.seq == next_review(g.seq),
    ensures
        !g.closed().awaits(g.review->0.seq),
        !g.closed().opened(r).awaits(g.review->0.seq),
        g.closed().opened(r).awaits(r.seq),
{
}

/// Working out the calls of a review never changes what is signed.
pub proof fn law_preparing_keeps_the_action(g: GateModel, legs: Seq<ReviewLeg>)
    requires
        g.review is Some,
    ensures
        g.prepared(legs).review is Some,
        g.prepared(legs).review->0.action == g.review->0.action,
        g.prepared(legs).review->0.title == g.review->0.title,
        g.prepared(legs).review->0.order == g.review->0.order,
        !g.prepared(legs).review->0.legs_loading,
{
}

} // verus!
