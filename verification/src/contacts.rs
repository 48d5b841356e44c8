//! The address book: saved contacts, at most one per address.

use vstd::prelude::*;

use crate::types::Address;

verus! {

/// A name that stands for a contact's address, and what it resolved to when the
/// contact was saved.
#[derive(Debug)]
pub struct ContactEns {
    pub name: String,
    pub last_resolved_addr: Address,
}

/// A saved contact.
#[derive(Debug)]
pub struct Contact {
    pub name: String,
    pub address: Address,
    /// The contact's face; empty where none was chosen.
    pub kaomoji: String,
    pub notes: String,
    pub ens: Option<ContactEns>,
}

impl Clone for ContactEns {
    fn clone(&self) -> (r: Self)
        ensures
            r == *self,
    {
        ContactEns { name: self.name.clone(), last_resolved_addr: self.last_resolved_addr }
    }
}

impl Clone for Contact {
    fn clone(&self) -> (r: Self)
        ensures
            r == *self,
    {
        let ens = match &self.ens {
            Some(e) => Some(e.clone()),
            None => None,
        };
        Contact {
            name: self.name.clone(),
            address: self.address,
            kaomoji: self.kaomoji.clone(),
            notes: self.notes.clone(),
            ens,
        }
    }
}

/// A contact, with texts as character sequences.
pub struct ContactView {
    pub name: Seq<char>,
    pub address: Address,
    pub kaomoji: Seq<char>,
    pub notes: Seq<char>,
    pub ens: Option<(Seq<char>, Address)>,
}

impl View for Contact {
    type V = ContactView;

    open spec fn view(&self) -> ContactView {
        ContactView {
            name: self.name@,
            address: self.address,
            kaomoji: self.kaomoji@,
            notes: self.notes@,
            ens: match self.ens {
                Some(e) => Some((e.name@, e.last_resolved_addr)),
                None => None,
            },
        }
    }
}

/// A list of contacts, viewed.
pub open spec fn contact_views(v: Seq<Contact>) -> Seq<ContactView> {
    v.map_values(|c: Contact| c@)
}

/// The address book.
#[derive(Debug)]
pub struct ContactsBook {
    pub contacts: Vec<Contact>,
}

impl View for ContactsBook {
    type V = Seq<ContactView>;

    open spec fn view(&self) -> Seq<ContactView> {
        contact_views(self.contacts@)
    }
}

/// The position of the first contact with address `a`, or the number of
/// contacts where there is none.
pub open spec fn contact_position(s: Seq<ContactView>, a: Address) -> int
    decreases s.len(),
{
    if s.len() == 0 || s[0].address == a {
        0
    } else {
        1 + contact_position(s.drop_first(), a)
    }
}

/// There is a contact with address `a`.
pub open spec fn has_contact(s: Seq<ContactView>, a: Address) -> bool {
    contact_position(s, a) < s.len()
}

/// No two contacts have the same address.
pub open spec fn addresses_distinct(s: Seq<ContactView>) -> bool {
    forall|i: int, j: int|
        0 <= i < j < s.len() ==> (#[trigger] s[i]).address != (#[trigger] s[j]).address
}

/// `contact_position` finds the first contact with an address.
pub proof fn lemma_contact_position(s: Seq<ContactView>, a: Address)
    ensures
        0 <= contact_position(s, a) <= s.len(),
        contact_position(s, a) < s.len() ==> s[contact_position(s, a)].address == a,
        forall|j: int| 0 <= j < contact_position(s, a) ==> s[j].address != a,
    decreases s.len(),
{
    if s.len() > 0 && s[0].address != a {
        lemma_contact_position(s.drop_first(), a);
        assert forall|j: int| 0 <= j < contact_position(s, a) implies s[j].address != a by {
            if j > 0 {
                assert(s.drop_first()[j - 1].address != a);
            }
        }
    }
}

/// The book with `c` in it: in the place of the contact with its address, or at
/// the end.
pub open spec fn upserted(s: Seq<ContactView>, c: ContactView) -> Seq<ContactView> {
    if has_contact(s, c.address) {
        s.update(contact_position(s, c.address), c)
    } else {
        s.push(c)
    }
}

/// The book without its `i`th contact.
pub open spec fn without(s: Seq<ContactView>, i: int) -> Seq<ContactView> {
    if 0 <= i < s.len() {
        s.remove(i)
    } else {
        s
    }
}

/// Putting a contact into a book, or taking one out, keeps addresses distinct.
pub proof fn law_book_keeps_addresses_distinct(s: Seq<ContactView>, c: ContactView, i: int)
    requires
        addresses_distinct(s),
    ensures
        addresses_distinct(upserted(s, c)),
        addresses_distinct(without(s, i)),
        has_contact(upserted(s, c), c.address),
        upserted(s, c)[contact_position(upserted(s, c), c.address)] == c,
{
    lemma_contact_position(s, c.address);
    let t = upserted(s, c);
    let p = contact_position(s, c.address);
    assert(t[p] == c);
    assert forall|j: int| 0 <= j < s.len() && j != p implies (#[trigger] s[j]).address
        != c.address by {
        if p < s.len() {
            assert(s[p].address == c.address);
        }
    }
    assert forall|a: int, b: int| 0 <= a < b < t.len() implies (#[trigger] t[a]).address != (
    #[trigger] t[b]).address by {
        if a != p {
            assert(t[a] == s[a]);
        }
        if b != p {
            assert(t[b] == s[b]);
        }
    }
    lemma_contact_position(t, c.address);
    let q = contact_position(t, c.address);
    if q != p {
        assert(q < p);
        assert(t[q] == s[q]);
    }
    let w = without(s, i);
    if 0 <= i < s.len() {
        assert forall|a: int, b: int| 0 <= a < b < w.len() implies (#[trigger] w[a]).address != (
        #[trigger] w[b]).address by {
            let a2 = if a < i {
                a
            } else {
                a + 1
            };
            let b2 = if b < i {
                b
            } else {
                b + 1
            };
            assert(w[a] == s[a2]);
            assert(w[b] == s[b2]);
        }
    }
}

impl Clone for ContactsBook {
    fn clone(&self) -> (r: Self)
        ensures
            r@ == self@,
            r.contacts@ == self.contacts@,
    {
        let mut out: Vec<Contact> = Vec::new();
        let mut i: usize = 0;
        while i < self.contacts.len()
            invariant
                i <= self.contacts.len(),
                out@ == self.contacts@.take(i as int),
            decreases self.contacts.len() - i,
        {
            out.push(self.contacts[i].clone());
            assert(self.contacts@.take(i + 1) =~= self.contacts@.take(i as int).push(
                self.contacts@[i as int],
            ));
            i += 1;
        }
        assert(self.contacts@.take(self.contacts@.len() as int) =~= self.contacts@);
        ContactsBook { contacts: out }
    }
}

impl ContactsBook {
    /// The index of the first contact with address `a`.
    pub fn position(&self, a: Address) -> (r: Option<usize>)
        ensures
            match r {
                Some(i) => i == contact_position(self@, a) && i < self@.len(),
                None => contact_position(self@, a) == self@.len(),
            },
    {
        proof {
            lemma_contact_position(self@, a);
        }
        let mut i: usize = 0;
        while i < self.contacts.len()
            invariant
                i <= self.contacts.len(),
                self@.len() == self.contacts@.len(),
                0 <= contact_position(self@, a) <= self@.len(),
                contact_position(self@, a) < self@.len() ==> self@[contact_position(
                    self@,
                    a,
                )].address == a,
                forall|j: int| 0 <= j < contact_position(self@, a) ==> self@[j].address != a,
                forall|j: int| 0 <= j < i ==> self@[j].address != a,
            decreases self.contacts.len() - i,
        {
            assert(self@[i as int] == self.contacts@[i as int]@);
            if self.contacts[i].address == a {
                return Some(i);
            }
            i += 1;
        }
        None
    }

    /// The name of the contact with address `a`.
    pub fn name_for(&self, a: Address) -> (r: Option<String>)
        ensures
            match r {
                Some(n) => has_contact(self@, a) && n@ == self@[contact_position(self@, a)].name,
                None => !has_contact(self@, a),
            },
    {
        match self.position(a) {
            Some(i) => {
                assert(self@[i as int] == self.contacts@[i as int]@);
                Some(self.contacts[i].name.clone())
            },
            None => {
                proof {
                    lemma_contact_position(self@, a);
                }
                None
            },
        }
    }

    /// Puts a contact in the place of the one with its address, or at the end.
    pub fn upsert(&mut self, c: Contact)
        ensures
            final(self)@ == upserted(old(self)@, c@),
    {
        let ghost before = self@;
        match self.position(c.address) {
            Some(i) => {
                self.contacts.set(i, c);
            },
            None => {
                self.contacts.push(c);
            },
        }
        assert(self@ =~= upserted(before, c@));
    }

    /// Takes the `i`th contact out, where there is one.
    pub fn remove(&mut self, i: usize)
        ensures
            final(self)@ == without(old(self)@, i as int),
    {
        let ghost before = self@;
        if i < self.contacts.len() {
            let _ = self.contacts.remove(i);
        }
        assert(self@ =~= without(before, i as int));
    }
}

} // verus!
