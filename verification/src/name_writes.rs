//! Names that the user registers, renews or points elsewhere: what is signed, and
//! how it is called on screen.

use vstd::prelude::*;

use crate::text::{dec, decimal, join2, join3, join4};
use crate::types::{Address, Hash32};

verus! {

/// The registries with a fixed ending.
#[derive(Debug, Clone, Copy, PartialEq, Eq, Structural)]
pub enum Namespace {
    Ens,
    Gns,
    Wns,
}

impl Namespace {
    pub open spec fn ending(self) -> Seq<char> {
        match self {
            Namespace::Ens => ".eth"@,
            Namespace::Gns => ".gwei"@,
            Namespace::Wns => ".wei"@,
        }
    }

    /// What the names of the registry end in.
    pub fn tld(self) -> (r: &'static str)
        ensures
            r@ == self.ending(),
    {
        match self {
            Namespace::Ens => ".eth",
            Namespace::Gns => ".gwei",
            Namespace::Wns => ".wei",
        }
    }
}

/// The seconds of a year of 365 days.
pub const YEAR_SECS: u64 = 31_536_000;

/// How long a registration of so many years lasts, in seconds.
pub fn ens_duration_secs(years: u32) -> (r: u64)
    ensures
        r == years * YEAR_SECS,
{
    assert(years * YEAR_SECS <= u32::MAX * YEAR_SECS) by (nonlinear_arith)
        requires
            years <= u32::MAX,
    ;
    years as u64 * YEAR_SECS
}

/// A registration in two steps: the commitment hides the name until it is
/// revealed with the same secret.
#[derive(Debug)]
pub struct RegisterPlan {
    pub namespace: Namespace,
    pub label: String,
    pub owner: Address,
    pub duration_secs: u64,
    pub secret: Hash32,
}

impl Clone for RegisterPlan {
    fn clone(&self) -> (r: Self)
        ensures
            r == *self,
    {
        RegisterPlan {
            namespace: self.namespace,
            label: self.label.clone(),
            owner: self.owner,
            duration_secs: self.duration_secs,
            secret: self.secret,
        }
    }
}

/// A write to a registry.
#[derive(Debug)]
pub enum NameSign {
    Commit(RegisterPlan),
    Register(RegisterPlan),
    RegisterXns { namespace: String, label: String },
    Renew { namespace: Namespace, label: String, years: u32 },
    SetRecipient { namespace: Namespace, label: String, recipient: Address },
}

impl Clone for NameSign {
    fn clone(&self) -> (r: Self)
        ensures
            r == *self,
    {
        match self {
            NameSign::Commit(p) => NameSign::Commit(p.clone()),
            NameSign::Register(p) => NameSign::Register(p.clone()),
            NameSign::RegisterXns { namespace, label } => NameSign::RegisterXns {
                namespace: namespace.clone(),
                label: label.clone(),
            },
            NameSign::Renew { namespace, label, years } => NameSign::Renew {
                namespace: *namespace,
                label: label.clone(),
                years: *years,
            },
            NameSign::SetRecipient { namespace, label, recipient } => NameSign::SetRecipient {
                namespace: *namespace,
                label: label.clone(),
                recipient: *recipient,
            },
        }
    }
}

impl NameSign {
    /// The name that is written.
    pub open spec fn name(self) -> Seq<char> {
        match self {
            NameSign::Commit(p) => p.label@ + p.namespace.ending(),
            NameSign::Register(p) => p.label@ + p.namespace.ending(),
            NameSign::RegisterXns { namespace, label } => label@ + "."@ + namespace@,
            NameSign::Renew { namespace, label, .. } => label@ + namespace.ending(),
            NameSign::SetRecipient { namespace, label, .. } => label@ + namespace.ending(),
        }
    }

    /// The name that is written.
    pub fn written_name(&self) -> (r: String)
        ensures
            r@ == self.name(),
    {
        match self {
            NameSign::Commit(p) => join2(p.label.as_str(), p.namespace.tld()),
            NameSign::Register(p) => join2(p.label.as_str(), p.namespace.tld()),
            NameSign::RegisterXns { namespace, label } => join3(
                label.as_str(),
                ".",
                namespace.as_str(),
            ),
            NameSign::Renew { namespace, label, .. } => join2(label.as_str(), namespace.tld()),
            NameSign::SetRecipient { namespace, label, .. } => join2(
                label.as_str(),
                namespace.tld(),
            ),
        }
    }

    /// What the call is called among the calls that are shown before they are
    /// signed.
    pub open spec fn leg_name(self) -> Seq<char> {
        match self {
            NameSign::Commit(_) => "Commit "@ + self.name(),
            NameSign::Register(_) => "Register "@ + self.name(),
            NameSign::RegisterXns { .. } => "Register "@ + self.name(),
            NameSign::Renew { .. } => "Renew "@ + self.name(),
            NameSign::SetRecipient { .. } => "Set recipient for "@ + self.name(),
        }
    }

    /// The title of the call that is shown before it is signed.
    pub fn leg_title(&self) -> (r: String)
        ensures
            r@ == self.leg_name(),
    {
        let name = self.written_name();
        let what = match self {
            NameSign::Commit(_) => "Commit ",
            NameSign::Register(_) => "Register ",
            NameSign::RegisterXns { .. } => "Register ",
            NameSign::Renew { .. } => "Renew ",
            NameSign::SetRecipient { .. } => "Set recipient for ",
        };
        join2(what, name.as_str())
    }
}

/// What is written above and below a review.
#[derive(Debug)]
pub struct ReviewLabels {
    pub title: String,
    pub subtitle: Option<String>,
    pub note: Option<String>,
}

/// What is written above and below a review.
pub struct LabelsView {
    pub title: Seq<char>,
    pub subtitle: Option<Seq<char>>,
    pub note: Option<Seq<char>>,
}

/// The view of an optional text.
pub open spec fn opt_view(t: Option<String>) -> Option<Seq<char>> {
    match t {
        Some(s) => Some(s@),
        None => None,
    }
}

impl View for ReviewLabels {
    type V = LabelsView;

    open spec fn view(&self) -> LabelsView {
        LabelsView {
            title: self.title@,
            subtitle: opt_view(self.subtitle),
            note: opt_view(self.note),
        }
    }
}

/// What is said below a write that a hardware device cannot decode.
pub open spec fn blind_note() -> Seq<char> {
    "Verify these details here — a hardware wallet can't decode this call and will ask you to blind-sign the hash."@
}

/// The labels of the review of a write.
pub open spec fn labels_of(s: NameSign) -> LabelsView {
    match s {
        NameSign::Commit(_) => LabelsView {
            title: "Register "@ + s.name() + " — commit"@,
            subtitle: Some("Step 1 of 2 · front-run-proof commitment"@),
            note: Some(
                "The commitment is a blinded hash — it reveals nothing on-chain and sends no ETH. The fee is paid at step 2."@,
            ),
        },
        NameSign::Register(_) => LabelsView {
            title: "Register "@ + s.name() + " — reveal"@,
            subtitle: Some("Step 2 of 2 · pays the registration fee"@),
            note: Some(blind_note()),
        },
        NameSign::RegisterXns { .. } => LabelsView {
            title: "Register "@ + s.name(),
            subtitle: None,
            note: Some(blind_note()),
        },
        NameSign::Renew { years, .. } => LabelsView {
            title: "Renew "@ + s.name(),
            subtitle: Some(
                "+"@ + dec(years as nat) + " year"@ + if years == 1 {
                    ""@
                } else {
                    "s"@
                },
            ),
            note: Some(blind_note()),
        },
        NameSign::SetRecipient { .. } => LabelsView {
            title: "Set recipient for "@ + s.name(),
            subtitle: Some("Points the name at a resolution address"@),
            note: Some(blind_note()),
        },
    }
}

/// The labels of the review of a write.
pub fn name_review_labels(sign: &NameSign) -> (r: ReviewLabels)
    ensures
        r@ == labels_of(*sign),
{
    let name = sign.written_name();
    let blind =
        "Verify these details here — a hardware wallet can't decode this call and will ask you to blind-sign the hash.";
    match sign {
        NameSign::Commit(_) => ReviewLabels {
            title: join3("Register ", name.as_str(), " — commit"),
            subtitle: Some("Step 1 of 2 · front-run-proof commitment".to_string()),
            note: Some(
                "The commitment is a blinded hash — it reveals nothing on-chain and sends no ETH. The fee is paid at step 2.".to_string(),
            ),
        },
        NameSign::Register(_) => ReviewLabels {
            title: join3("Register ", name.as_str(), " — reveal"),
            subtitle: Some("Step 2 of 2 · pays the registration fee".to_string()),
            note: Some(blind.to_string()),
        },
        NameSign::RegisterXns { .. } => ReviewLabels {
            title: join2("Register ", name.as_str()),
            subtitle: None,
            note: Some(blind.to_string()),
        },
        NameSign::Renew { years, .. } => {
            let n = decimal(*years as u64);
            let s = if *years == 1 {
                ""
            } else {
                "s"
            };
            ReviewLabels {
                title: join2("Renew ", name.as_str()),
                subtitle: Some(join4("+", n.as_str(), " year", s)),
                note: Some(blind.to_string()),
            }
        },
        NameSign::SetRecipient { .. } => ReviewLabels {
            title: join2("Set recipient for ", name.as_str()),
            subtitle: Some("Points the name at a resolution address".to_string()),
            note: Some(blind.to_string()),
        },
    }
}

/// The page of the names app that waits for a write.
#[derive(Debug, Clone, Copy, PartialEq, Eq, Structural)]
pub enum NamePhase {
    Commit,
    Reveal,
    Renew,
    Recipient,
}

impl NameSign {
    pub open spec fn phase_of(self) -> NamePhase {
        match self {
            NameSign::Commit(_) => NamePhase::Commit,
            NameSign::Register(_) => NamePhase::Reveal,
            NameSign::RegisterXns { .. } => NamePhase::Reveal,
            NameSign::Renew { .. } => NamePhase::Renew,
            NameSign::SetRecipient { .. } => NamePhase::Recipient,
        }
    }

    /// The page of the names app that waits for this write, and is told of its
    /// failure.
    pub fn phase(&self) -> (r: NamePhase)
        ensures
            r == self.phase_of(),
    {
        match self {
            NameSign::Commit(_) => NamePhase::Commit,
            NameSign::Register(_) => NamePhase::Reveal,
            NameSign::RegisterXns { .. } => NamePhase::Reveal,
            NameSign::Renew { .. } => NamePhase::Renew,
            NameSign::SetRecipient { .. } => NamePhase::Recipient,
        }
    }
}

} // verus!
