//! What the dashboard wants to be told of, and the names it knows addresses by.

use vstd::prelude::*;

use crate::apps::AppsListening;
use crate::contacts::{ContactView, ContactsBook};
use crate::contacts_settings::opt_book;
use crate::identity::{AccountDescriptor, SafeDescriptor};
use crate::keyed::Table;
use crate::keys::Listening;
use crate::nav::Nav;
use crate::orders::undecided;
use crate::pool_view::{pool_hears_keys, pool_moves};
use crate::screen::{Modal, ScreenModel, SettingsModel, SettingsPane, WalletScreen};
use crate::types::Address;

verus! {

// ── what the dashboard wants to be told of ──────────────────────────────────

/// What the dashboard wants to be told of.
#[derive(Debug, Clone, Copy, PartialEq, Eq, Structural)]
pub struct ScreenListening {
    /// Keyboard events go to the review.
    pub review: bool,
    /// The dialog wants to be told of what it needs.
    pub dialog: bool,
    /// The network wizard wants to be told of what it needs.
    pub wizard: bool,
    /// The wishes of the contact pane.
    pub contacts: Option<Listening>,
    /// The wishes of the Apps pane.
    pub apps: Option<AppsListening>,
    /// A tick for every frame, sixteen milliseconds apart.
    pub frames: bool,
    /// A tick every ten seconds, to ask for news of orders.
    pub poll: bool,
}

impl ScreenModel {
    /// Something on screen moves.
    pub open spec fn moves(self, toast: bool, now: u64) -> bool {
        self.chrome.animating(now) || self.clipboard.clear is Some || toast
    }

    /// Something can still become of an order.
    pub open spec fn follows_orders(self) -> bool {
        undecided(self.orders).len() > 0
    }
}

impl WalletScreen {
    /// Tells whether something can still become of an order.
    fn any_undecided(&self) -> (b: bool)
        ensures
            b == self@.follows_orders(),
    {
        let v = self.orders.polled();
        v.len() > 0
    }

    /// What the dashboard wants to be told of. `toast` tells that a note of a copy is
    /// on screen. While a review is open it alone gets the keyboard, and nothing
    /// beneath it listens; the Apps pane listens only where no dialog is open.
    pub fn subscription(&self, toast: bool, now: u64) -> (r: ScreenListening)
        ensures
            r.frames == self@.moves(toast, now),
            r.poll == self@.follows_orders(),
            r.review == (self@.gate.review is Some),
            self@.gate.review is Some ==> {
                &&& !r.dialog
                &&& !r.wizard
                &&& r.contacts is None
                &&& r.apps is None
            },
            self@.gate.review is None ==> {
                &&& r.dialog == !(self@.modal is Closed)
                &&& r.wizard == (self@.settings is NetworkWizard)
                &&& match (r.contacts, self@.settings) {
                    (Some(l), SettingsModel::Contacts(p)) => l.keys == (p.mode is Edit) && !l.frames,
                    (None, SettingsModel::Contacts(_)) => false,
                    (Some(_), _) => false,
                    (None, _) => true,
                }
                &&& r.apps is Some <==> self@.modal is Closed && self@.nav == Nav::Apps
                &&& r.apps matches Some(l) ==> {
                    &&& l.keys == (self@.apps.view != crate::apps::AppsView::Launcher)
                    &&& l.names == (self@.apps.view == crate::apps::AppsView::Names)
                    &&& l.pool is Some <==> self@.apps.view == crate::apps::AppsView::PrivacyPools
                    &&& l.pool matches Some(p) ==> {
                        &&& p.frames == pool_moves(self@.apps.pool)
                        &&& p.keys == pool_hears_keys(self@.apps.pool)
                    }
                }
            },
    {
        let frames = self.chrome.is_animating(now) || self.clipboard.clear.is_some() || toast;
        let poll = self.any_undecided();
        if self.gate.review.is_some() {
            return ScreenListening {
                review: true,
                dialog: false,
                wizard: false,
                contacts: None,
                apps: None,
                frames,
                poll,
            };
        }
        let closed = match &self.modal {
            Modal::Closed => true,
            _ => false,
        };
        let wizard = match &self.settings {
            SettingsPane::NetworkWizard => true,
            _ => false,
        };
        let contacts = match &self.settings {
            SettingsPane::Contacts(p) => Some(p.subscription()),
            _ => None,
        };
        let apps = if closed && self.nav == Nav::Apps {
            Some(self.apps.subscription())
        } else {
            None
        };
        ScreenListening { review: false, dialog: !closed, wizard, contacts, apps, frames, poll }
    }

    /// Who is left out where a recipient is picked in the send dialog, by their place
    /// among the accounts and among the Safes: the sender. All accounts stay where a
    /// Safe sends, since it often sends to its owners.
    pub fn recipient_exclusions(&self) -> (r: Option<(Option<usize>, Option<usize>)>)
        ensures
            r == match self@.modal {
                Modal::Send(p) => Some(
                    if p.is_safe {
                        (None::<usize>, self@.identity.active_safe)
                    } else {
                        (Some(self@.identity.active_index), None::<usize>)
                    },
                ),
                _ => None,
            },
    {
        match &self.modal {
            Modal::Send(p) => {
                if p.is_safe {
                    Some((None, self.identity.active_safe))
                } else {
                    Some((Some(self.identity.active_index), None))
                }
            },
            _ => None,
        }
    }
}

// ── the names of addresses ──────────────────────────────────────────────────

/// The names of the wallet's accounts.
pub open spec fn account_names(a: Seq<AccountDescriptor>) -> Map<Address, Seq<char>>
    decreases a.len(),
{
    if a.len() == 0 {
        Map::empty()
    } else {
        let known = account_names(a.drop_last());
        match a.last().owner() {
            Some(at) => known.insert(at, a.last().shown_name((a.len() - 1) as nat)),
            None => known,
        }
    }
}

/// With the names of the wallet's Safes.
pub open spec fn with_safe_names(known: Map<Address, Seq<char>>, s: Seq<SafeDescriptor>) -> Map<
    Address,
    Seq<char>,
>
    decreases s.len(),
{
    if s.len() == 0 {
        known
    } else {
        with_safe_names(known, s.drop_last()).insert(
            s.last().address,
            s.last().shown_name((s.len() - 1) as nat),
        )
    }
}

/// With the names of contacts.
pub open spec fn with_contact_names(known: Map<Address, Seq<char>>, c: Seq<ContactView>) -> Map<
    Address,
    Seq<char>,
>
    decreases c.len(),
{
    if c.len() == 0 {
        known
    } else {
        with_contact_names(known, c.drop_last()).insert(c.last().address, c.last().name)
    }
}

/// The names that the wallet knows addresses by: those of its accounts, of its Safes,
/// and of the contacts; of two names for an address, the latter kind counts.
pub open spec fn local_names(
    accounts: Seq<AccountDescriptor>,
    safes: Seq<SafeDescriptor>,
    book: Option<Seq<ContactView>>,
) -> Map<Address, Seq<char>> {
    let own = with_safe_names(account_names(accounts), safes);
    match book {
        Some(c) => with_contact_names(own, c),
        None => own,
    }
}

/// What a table of names holds.
pub open spec fn spelled(m: Map<Address, String>) -> Map<Address, Seq<char>> {
    Map::new(|k: Address| m.dom().contains(k), |k: Address| m[k]@)
}

proof fn lemma_spelled_insert(m: Map<Address, String>, k: Address, v: String)
    ensures
        spelled(m.insert(k, v)) == spelled(m).insert(k, v@),
{
    assert(spelled(m.insert(k, v)) =~= spelled(m).insert(k, v@));
}

/// The names that the wallet knows addresses by. Contacts count only where the book
/// can be read.
pub fn build_local_names(
    accounts: &Vec<AccountDescriptor>,
    safes: &Vec<SafeDescriptor>,
    book: Option<&ContactsBook>,
) -> (r: Table<Address, String>)
    ensures
        spelled(r@) == local_names(accounts@, safes@, opt_book(book)),
{
    let mut names: Table<Address, String> = Table::new();
    assert(spelled(names@) =~= Map::<Address, Seq<char>>::empty());
    let mut i: usize = 0;
    while i < accounts.len()
        invariant
            i <= accounts.len(),
            spelled(names@) == account_names(accounts@.take(i as int)),
        decreases accounts.len() - i,
    {
        assert(accounts@.take(i + 1).drop_last() =~= accounts@.take(i as int));
        if let Some(at) = accounts[i].account_address() {
            let name = accounts[i].display_name(i);
            proof {
                lemma_spelled_insert(names@, at, name);
            }
            names.insert(at, name);
        }
        i += 1;
    }
    assert(accounts@.take(accounts@.len() as int) =~= accounts@);
    let ghost first = account_names(accounts@);
    let mut j: usize = 0;
    while j < safes.len()
        invariant
            j <= safes.len(),
            spelled(names@) == with_safe_names(first, safes@.take(j as int)),
        decreases safes.len() - j,
    {
        assert(safes@.take(j + 1).drop_last() =~= safes@.take(j as int));
        let name = safes[j].display_name(j);
        proof {
            lemma_spelled_insert(names@, safes@[j as int].address, name);
        }
        names.insert(safes[j].address, name);
        j += 1;
    }
    assert(safes@.take(safes@.len() as int) =~= safes@);
    let ghost own = with_safe_names(first, safes@);
    if let Some(b) = book {
        let mut k: usize = 0;
        while k < b.contacts.len()
            invariant
                k <= b.contacts.len(),
                spelled(names@) == with_contact_names(own, b@.take(k as int)),
            decreases b.contacts.len() - k,
        {
            assert(b@.take(k + 1).drop_last() =~= b@.take(k as int));
            let name = b.contacts[k].name.clone();
            proof {
                lemma_spelled_insert(names@, b.contacts@[k as int].address, name);
            }
            names.insert(b.contacts[k].address, name);
            k += 1;
        }
        assert(b@.take(b@.len() as int) =~= b@);
    }
    names
}

// ── laws ────────────────────────────────────────────────────────────────────

/// An address in the contact book is known by the name of its last contact.
pub proof fn law_contacts_name_addresses_first(
    known: Map<Address, Seq<char>>,
    c: Seq<ContactView>,
    i: int,
)
    requires
        0 <= i < c.len(),
        forall|j: int| i < j < c.len() ==> (#[trigger] c[j]).address != c[i].address,
    ensures
        with_contact_names(known, c).dom().contains(c[i].address),
        with_contact_names(known, c)[c[i].address] == c[i].name,
    decreases c.len(),
{
    if i < c.len() - 1 {
        assert(c.drop_last()[i] == c[i]);
        assert forall|j: int| i < j < c.drop_last().len() implies (#[trigger]
        c.drop_last()[j]).address != c.drop_last()[i].address by {
            assert(c.drop_last()[j] == c[j]);
        }
        law_contacts_name_addresses_first(known, c.drop_last(), i);
        assert(c[c.len() - 1].address != c[i].address);
    }
}

} // verus!
