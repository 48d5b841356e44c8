//! The signer of the active account, and how it is lent to an operation that
//! signs and taken back afterwards.

use vstd::prelude::*;

use crate::types::Address;

verus! {

/// A signer.
#[derive(Debug, PartialEq, Eq, Structural)]
pub enum Signer {
    /// An address without a key. It also holds the place of a signer that is
    /// lent out.
    ViewOnly(Address),
    /// A key, or a connected device, that can sign. The handle tells one from
    /// another.
    Live { address: Address, handle: u64 },
}

impl Signer {
    pub open spec fn signs_for(self) -> Address {
        match self {
            Signer::ViewOnly(a) => a,
            Signer::Live { address, .. } => address,
        }
    }

    /// The address that the signer signs for.
    pub fn address(&self) -> (r: Address)
        ensures
            r == self.signs_for(),
    {
        match self {
            Signer::ViewOnly(a) => *a,
            Signer::Live { address, .. } => *address,
        }
    }

    /// Tells whether it can sign.
    pub fn can_sign(&self) -> (b: bool)
        ensures
            b == (self is Live),
    {
        match self {
            Signer::ViewOnly(_) => false,
            Signer::Live { .. } => true,
        }
    }
}

/// What travels with an operation that signs: the signer it was lent, until the
/// operation takes it out.
#[derive(Debug, PartialEq, Eq, Structural)]
pub struct SignerHandoff {
    pub cell: Option<Signer>,
}

impl SignerHandoff {
    /// Takes the lent signer out, to sign with it.
    pub fn take_signer(&mut self) -> (r: Result<Signer, &'static str>)
        ensures
            final(self).cell is None,
            match (old(self).cell, r) {
                (Some(s), Ok(t)) => s == t,
                (None, Err(e)) => e@ == "signer not available"@,
                _ => false,
            },
    {
        match self.cell.take() {
            Some(s) => Ok(s),
            None => Err("signer not available"),
        }
    }

    /// Settles the attempt to reach the signer's device. Where it failed the
    /// signer goes back, so that the dashboard gets it again.
    pub fn settle_connection(&mut self, reached: Result<Signer, (Signer, String)>) -> (r: Result<
        Signer,
        String,
    >)
        ensures
            match reached {
                Ok(live) => r == Ok::<Signer, String>(live) && *final(self) == *old(self),
                Err(back) => r == Err::<Signer, String>(back.1) && final(self).cell == Some(back.0),
            },
    {
        match reached {
            Ok(live) => Ok(live),
            Err((back, why)) => {
                self.cell = Some(back);
                Err(why)
            },
        }
    }
}

/// The signer of the active account, and whether it is lent to an order or a
/// name write.
#[derive(Debug, PartialEq, Eq, Structural)]
pub struct SignerDesk {
    /// The active account.
    pub address: Address,
    pub signer: Signer,
    /// An order is being placed or cancelled, or a name written, and the signer
    /// is with it.
    pub order_op_in_flight: bool,
}

impl SignerDesk {
    pub open spec fn can_sign(self) -> bool {
        self.signer is Live
    }

    /// The desk after the signer was lent to a send.
    pub open spec fn lent(self) -> SignerDesk {
        SignerDesk { signer: Signer::ViewOnly(self.address), ..self }
    }

    /// The desk after the signer was lent to an order or a name write.
    pub open spec fn parked(self) -> SignerDesk {
        SignerDesk { order_op_in_flight: true, ..self.lent() }
    }

    /// The desk after a signer came back.
    pub open spec fn installed(self, back: SignerHandoff) -> SignerDesk {
        match back.cell {
            Some(s) => if s is Live && s.signs_for() == self.address {
                SignerDesk { signer: s, ..self }
            } else {
                self
            },
            None => self,
        }
    }

    /// The desk after the signer of an order or a name write came back.
    pub open spec fn reclaimed(self, back: SignerHandoff) -> SignerDesk {
        SignerDesk { order_op_in_flight: false, ..self.installed(back) }
    }

    /// Lends the signer to a send and leaves a placeholder.
    pub fn lend_signer(&mut self) -> (r: SignerHandoff)
        ensures
            *final(self) == old(self).lent(),
            r == (SignerHandoff { cell: Some(old(self).signer) }),
    {
        let mut signer = Signer::ViewOnly(self.address);
        std::mem::swap(&mut signer, &mut self.signer);
        SignerHandoff { cell: Some(signer) }
    }

    /// Lends the signer to an order or a name write and leaves a placeholder.
    pub fn park_signer_for_order(&mut self) -> (r: SignerHandoff)
        ensures
            *final(self) == old(self).parked(),
            r == (SignerHandoff { cell: Some(old(self).signer) }),
    {
        self.order_op_in_flight = true;
        self.lend_signer()
    }

    /// Takes a signer back, if it can sign and is the active account's. Any
    /// other is dropped.
    pub fn install_reclaimed_signer(&mut self, back: SignerHandoff)
        ensures
            *final(self) == old(self).installed(back),
    {
        match back.cell {
            Some(s) => {
                if s.can_sign() && s.address() == self.address {
                    self.signer = s;
                }
            },
            None => {},
        }
    }

    /// Takes back the signer of an order or a name write, which is over.
    pub fn reclaim_order_signer(&mut self, back: SignerHandoff)
        ensures
            *final(self) == old(self).reclaimed(back),
    {
        self.install_reclaimed_signer(back);
        self.order_op_in_flight = false;
    }
}

// ── laws ────────────────────────────────────────────────────────────────────

/// What is lent comes back: taking the lent signer back restores the desk, as
/// long as the account is still the same.
pub proof fn law_park_and_reclaim_restore(d: SignerDesk)
    requires
        d.signer.signs_for() == d.address,
    ensures
        d.parked().installed(SignerHandoff { cell: Some(d.signer) }).signer == d.signer,
        d.parked().reclaimed(SignerHandoff { cell: Some(d.signer) }) == (SignerDesk {
            order_op_in_flight: false,
            ..d
        }),
        d.lent().installed(SignerHandoff { cell: Some(d.signer) }) == d,
{
}

/// A signer that cannot sign, or that is another account's, never replaces the
/// one on the desk; nor does a desk that can sign lose that by taking back.
pub proof fn law_no_reclaim_weakens_the_desk(d: SignerDesk, back: SignerHandoff)
    ensures
        d.can_sign() ==> d.installed(back).can_sign() && d.reclaimed(back).can_sign(),
        back.cell is Some && (back.cell->0 is ViewOnly || back.cell->0.signs_for() != d.address)
            ==> d.installed(back) == d,
        d.signer.signs_for() == d.address ==> d.reclaimed(back).signer.signs_for() == d.address,
{
}

/// Two overlapping operations never strand the wallet: whichever of the two
/// comes back first, the desk ends with the signer it had.
pub proof fn law_double_park_is_harmless(d: SignerDesk)
    requires
        d.signer.signs_for() == d.address,
    ensures
        ({
            let first = SignerHandoff { cell: Some(d.signer) };
            let second = SignerHandoff { cell: Some(d.parked().signer) };
            let both = d.parked().parked();
            &&& both.reclaimed(first).reclaimed(second).signer == d.signer
            &&& both.reclaimed(second).reclaimed(first).signer == d.signer
        }),
{
}

} // verus!
