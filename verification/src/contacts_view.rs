//! What the contacts pane shows, and what holds of it as a whole.

use vstd::prelude::*;

use crate::contacts::{
    addresses_distinct, contact_position, has_contact, law_book_keeps_addresses_distinct, without,
    Contact, ContactView,
};
use crate::contacts_settings::{
    collides, edited, field_address, field_error, form_contact, lookup_done, reset, saved, stepped,
    with_address, AddressResolution, Asked, Field, Message, PaneModel,
};
use crate::kaomoji::{face, face_at};
use crate::names::{namespace_label, service_label};
use crate::text::{join3, join4, trimmed};
use crate::types::{short_address, short_address_of, Address};

verus! {

// ── what is shown ───────────────────────────────────────────────────────────

/// The line below the address field, and whether it is good news.
pub open spec fn hint_line(f: Field) -> Option<(Seq<char>, bool)> {
    match f {
        Field::Empty => None,
        Field::Hex(_) => Some(("✓ valid address"@, true)),
        Field::Resolving { name } => Some(("(；・∀・) resolving "@ + name + "…"@, true)),
        Field::Resolved { name, addr } => Some(
            ("✓ "@ + name + " →  "@ + short_address_of(addr), true),
        ),
        Field::NotFound { name } => Some(("“"@ + name + "” has no address record"@, false)),
        Field::Error { name, msg } => Some(
            ("Name lookup for “"@ + name + "” failed: "@ + msg, false),
        ),
        Field::Invalid => Some(("Not a valid 0x… address or name"@, false)),
    }
}

/// The line below the address field, and whether it is good news.
pub fn address_parse_hint(r: &AddressResolution) -> (h: Option<(String, bool)>)
    ensures
        match h {
            Some((line, good)) => hint_line(r@) == Some((line@, good)),
            None => hint_line(r@) is None,
        },
{
    match r {
        AddressResolution::Empty => None,
        AddressResolution::Hex(_) => Some(("✓ valid address".to_owned(), true)),
        AddressResolution::Resolving { name } => Some(
            (join3("(；・∀・) resolving ", name.as_str(), "…"), true),
        ),
        AddressResolution::Resolved { name, addr } => {
            let short = short_address(*addr);
            Some((join4("✓ ", name.as_str(), " →  ", short.as_str()), true))
        },
        AddressResolution::NotFound { name } => Some(
            (join3("“", name.as_str(), "” has no address record"), false),
        ),
        AddressResolution::Error { name, msg } => Some(
            (join4("Name lookup for “", name.as_str(), "” failed: ", msg.as_str()), false),
        ),
        AddressResolution::Invalid => Some(
            ("Not a valid 0x… address or name".to_owned(), false),
        ),
    }
}

/// What a card of the list shows of its contact.
#[derive(Debug)]
pub struct CardText {
    pub kaomoji: String,
    /// The contact's name with the service that vouches for it; empty where it
    /// has none.
    pub service: String,
}

/// What a card of the list shows of its contact.
pub fn card_text(c: &Contact) -> (r: CardText)
    ensures
        r.kaomoji@ == if c@.kaomoji.len() == 0 {
            face(0)
        } else {
            c@.kaomoji
        },
        r.service@ == match c@.ens {
            Some((name, _)) => service_label(name) + ": "@ + name,
            None => Seq::empty(),
        },
{
    let kaomoji = if c.kaomoji.as_str().is_empty() {
        face_at(0).to_owned()
    } else {
        c.kaomoji.clone()
    };
    let service = match &c.ens {
        Some(e) => join3(namespace_label(e.name.as_str()), ": ", e.name.as_str()),
        None => String::new(),
    };
    CardText { kaomoji, service }
}

// ── what holds ──────────────────────────────────────────────────────────────

/// Whatever the pane asks to save has at most one contact per address, where
/// the book has.
pub proof fn law_saved_books_keep_addresses_distinct(
    s: PaneModel,
    m: Message,
    book: Seq<ContactView>,
    roll: Seq<char>,
)
    requires
        addresses_distinct(book),
    ensures
        stepped(s, m, Some(book), roll).out matches Asked::Save(b) ==> addresses_distinct(b),
{
    let c = form_contact(s);
    law_book_keeps_addresses_distinct(book, c, 0);
    match edited(s.mode) {
        Some(prev) => {
            let rest = without(book, contact_position(book, prev));
            law_book_keeps_addresses_distinct(book, c, contact_position(book, prev));
            law_book_keeps_addresses_distinct(rest, c, 0);
        },
        None => {},
    }
    match m {
        Message::Delete(i) => {
            law_book_keeps_addresses_distinct(book, c, i as int);
        },
        _ => {},
    }
}

/// A saved form is in the book that is saved, under its address.
pub proof fn law_saved_contact_is_found(s: PaneModel, book: Seq<ContactView>)
    requires
        addresses_distinct(book),
        saved(s, Some(book)).out is Save,
    ensures
        ({
            let b = saved(s, Some(book)).out->Save_0;
            let c = form_contact(s);
            has_contact(b, c.address) && b[contact_position(b, c.address)] == c
        }),
{
    let c = form_contact(s);
    law_book_keeps_addresses_distinct(book, c, 0);
    match edited(s.mode) {
        Some(prev) => {
            let rest = without(book, contact_position(book, prev));
            law_book_keeps_addresses_distinct(book, c, contact_position(book, prev));
            law_book_keeps_addresses_distinct(rest, c, 0);
        },
        None => {},
    }
}

/// A form with something wrong is never saved: without a name, without an
/// address that has been made out, or with another contact's address.
pub proof fn law_incomplete_form_is_refused(s: PaneModel, book: Seq<ContactView>)
    requires
        trimmed(s.draft.name).len() == 0 || field_address(s.resolution) is None || collides(
            s,
            Some(book),
        ),
    ensures
        saved(s, Some(book)).out is Nothing,
        s.mode is Edit ==> saved(s, Some(book)).state.validation.len() > 0,
        s.mode is Edit ==> saved(s, Some(book)).state.draft == s.draft,
{
    if field_address(s.resolution) is None {
        assert(field_error(s.resolution).len() == 1);
    }
}

/// Nothing is deleted by one press: the first press on a contact asks for
/// nothing, and only a second one on the same contact does.
pub proof fn law_deleting_takes_two_presses(
    s: PaneModel,
    i: usize,
    j: usize,
    book: Seq<ContactView>,
    roll: Seq<char>,
)
    requires
        s.pending_delete is None,
        i != j,
    ensures
        ({
            let once = stepped(s, Message::Delete(i), Some(book), roll);
            &&& once.out is Nothing
            &&& stepped(once.state, Message::Delete(j), Some(book), roll).out is Nothing
            &&& stepped(once.state, Message::Delete(i), Some(book), roll).out == Asked::Save(
                without(book, i as int),
            )
            &&& stepped(once.state, Message::CancelDelete, Some(book), roll).state == s
        }),
{
}

/// A result for an earlier input of the address field changes nothing.
pub proof fn law_stale_lookup_dropped(
    s: PaneModel,
    raw: Seq<char>,
    name: Seq<char>,
    result: Result<Option<Address>, Seq<char>>,
)
    ensures
        lookup_done(with_address(s, raw), s.seq, name, result) == with_address(s, raw),
{
}

/// Leaving the form, by whatever way but saving, asks for nothing and forgets
/// what was typed.
pub proof fn law_leaving_the_form_saves_nothing(
    s: PaneModel,
    book: Option<Seq<ContactView>>,
    roll: Seq<char>,
)
    requires
        s.mode is Edit,
    ensures
        stepped(s, Message::Back, book, roll).out is Nothing,
        stepped(s, Message::Back, book, roll).state == reset(s),
        stepped(s, Message::CancelEdit, book, roll).out is Nothing,
        stepped(s, Message::CancelEdit, book, roll).state == reset(s),
        stepped(
            s,
            Message::Key(
                crate::keys::Event::KeyPressed { key: crate::keys::Key::Escape, shift: false },
            ),
            book,
            roll,
        ).state == reset(s),
{
}

} // verus!
