//! The contacts pane of the settings: list, add, edit and delete contacts.
//!
//! The pane does not own the address book. It reads the book it is handed, and
//! asks its coordinator to save a new one.

use vstd::prelude::*;

use crate::contacts::{
    contact_position, contact_views, has_contact, upserted, without, Contact, ContactEns,
    ContactView, ContactsBook,
};
use crate::kaomoji::{could_be_drawn, face, face_at, pick_random_kaomoji};
use crate::keys::{Event, Key, Listening};
use crate::names::{known_name, looks_like_known_name};
use crate::pool_app::{next_seq, result_text};
use crate::text::{is_blank, join3, join4, same_text, texts, trim, trimmed};
use crate::types::{address_of_hex, checksum, checksum_of, parse_address, Address};

verus! {

/// What happens to the pane.
#[derive(Debug)]
pub enum Message {
    /// An address was copied; nothing else happens.
    AddressCopied,
    Back,
    OpenAdd,
    OpenEdit(usize),
    /// The first one marks a contact for deletion, a second one on the same
    /// contact deletes it.
    Delete(usize),
    CancelDelete,
    NameChanged(String),
    /// An address or a name was typed.
    AddressChanged(String),
    /// The lookup of a name came back.
    EnsResolved { seq: u64, name: String, result: Result<Option<Address>, String> },
    KaomojiChanged(String),
    RandomizeKaomoji,
    NotesChanged(String),
    Save,
    CancelEdit,
    Key(Event),
}

/// What the pane asks of its coordinator.
#[derive(Debug)]
pub enum Outcome {
    /// Close the pane.
    Closed,
    /// Save these contacts in place of the book.
    SaveRequested(Vec<Contact>),
}

/// Where the input focus goes.
#[derive(Debug, Clone, Copy, PartialEq, Eq, Structural)]
pub enum Focus {
    Stay,
    NameField,
    Next,
    Previous,
}

/// The contact being written.
#[derive(Debug)]
pub struct Draft {
    pub name: String,
    pub address_input: String,
    pub kaomoji: String,
    pub notes: String,
}

/// How far the address field has been made out.
#[derive(Debug)]
pub enum AddressResolution {
    Empty,
    Invalid,
    Hex(Address),
    Resolving { name: String },
    Resolved { name: String, addr: Address },
    NotFound { name: String },
    Error { name: String, msg: String },
}

/// The list, or the form for one contact.
#[derive(Debug, Clone, Copy)]
pub enum Mode {
    List,
    /// The contact being edited; none where a new one is added.
    Edit { editing_addr: Option<Address> },
}

/// The pane's state.
#[derive(Debug)]
pub struct ContactsPane {
    pub mode: Mode,
    pub draft: Draft,
    pub resolution: AddressResolution,
    /// Counts the changes of the address field, so that a late result is
    /// dropped.
    pub resolution_seq: u64,
    /// The count for which a lookup was last handed out.
    pub last_dispatched_seq: Option<u64>,
    pub validation: Vec<String>,
    /// The contact that is marked for deletion.
    pub pending_delete: Option<usize>,
}

// ── the model ───────────────────────────────────────────────────────────────

/// How far the address field has been made out, with texts as character
/// sequences.
pub enum Field {
    Empty,
    Invalid,
    Hex(Address),
    Resolving { name: Seq<char> },
    Resolved { name: Seq<char>, addr: Address },
    NotFound { name: Seq<char> },
    Error { name: Seq<char>, msg: Seq<char> },
}

impl View for AddressResolution {
    type V = Field;

    open spec fn view(&self) -> Field {
        match self {
            AddressResolution::Empty => Field::Empty,
            AddressResolution::Invalid => Field::Invalid,
            AddressResolution::Hex(a) => Field::Hex(*a),
            AddressResolution::Resolving { name } => Field::Resolving { name: name@ },
            AddressResolution::Resolved { name, addr } => Field::Resolved {
                name: name@,
                addr: *addr,
            },
            AddressResolution::NotFound { name } => Field::NotFound { name: name@ },
            AddressResolution::Error { name, msg } => Field::Error { name: name@, msg: msg@ },
        }
    }
}

/// The contact being written, with texts as character sequences.
pub struct DraftView {
    pub name: Seq<char>,
    pub address_input: Seq<char>,
    pub kaomoji: Seq<char>,
    pub notes: Seq<char>,
}

impl View for Draft {
    type V = DraftView;

    open spec fn view(&self) -> DraftView {
        DraftView {
            name: self.name@,
            address_input: self.address_input@,
            kaomoji: self.kaomoji@,
            notes: self.notes@,
        }
    }
}

/// The pane's state, with texts as character sequences.
pub struct PaneModel {
    pub mode: Mode,
    pub draft: DraftView,
    pub resolution: Field,
    pub seq: u64,
    pub dispatched: Option<u64>,
    pub validation: Seq<Seq<char>>,
    pub pending_delete: Option<usize>,
}

impl View for ContactsPane {
    type V = PaneModel;

    open spec fn view(&self) -> PaneModel {
        PaneModel {
            mode: self.mode,
            draft: self.draft@,
            resolution: self.resolution@,
            seq: self.resolution_seq,
            dispatched: self.last_dispatched_seq,
            validation: texts(self.validation@),
            pending_delete: self.pending_delete,
        }
    }
}

/// What is asked of the coordinator, viewed.
pub enum Asked {
    Nothing,
    Close,
    Save(Seq<ContactView>),
}

/// An optional outcome, viewed.
pub open spec fn asked(o: Option<Outcome>) -> Asked {
    match o {
        None => Asked::Nothing,
        Some(Outcome::Closed) => Asked::Close,
        Some(Outcome::SaveRequested(v)) => Asked::Save(contact_views(v@)),
    }
}

/// The state after a message, where the focus goes, and what is asked for.
pub struct Step {
    pub state: PaneModel,
    pub focus: Focus,
    pub out: Asked,
}

/// A step that only changes the state.
pub open spec fn quiet(state: PaneModel) -> Step {
    Step { state, focus: Focus::Stay, out: Asked::Nothing }
}

/// A draft with nothing in it.
pub open spec fn blank_draft() -> DraftView {
    DraftView {
        name: Seq::empty(),
        address_input: Seq::empty(),
        kaomoji: Seq::empty(),
        notes: Seq::empty(),
    }
}

/// What an address field stands for.
pub open spec fn classified(raw: Seq<char>) -> Field {
    let t = trimmed(raw);
    if t.len() == 0 {
        Field::Empty
    } else if address_of_hex(t) is Some {
        Field::Hex(address_of_hex(t)->0)
    } else if known_name(t) {
        Field::Resolving { name: t }
    } else {
        Field::Invalid
    }
}

/// The pane after `raw` was typed into the address field.
pub open spec fn with_address(s: PaneModel, raw: Seq<char>) -> PaneModel {
    PaneModel {
        draft: DraftView { address_input: raw, ..s.draft },
        seq: next_seq(s.seq),
        validation: Seq::empty(),
        resolution: classified(raw),
        ..s
    }
}

/// Back to the list: the form is forgotten.
pub open spec fn reset(s: PaneModel) -> PaneModel {
    PaneModel {
        mode: Mode::List,
        draft: blank_draft(),
        resolution: Field::Empty,
        seq: next_seq(s.seq),
        validation: Seq::empty(),
        pending_delete: None,
        ..s
    }
}

/// The text that the address field of a contact starts with: its name where it
/// has one, so that the name is looked up again, and else its address.
pub open spec fn address_text(c: ContactView) -> Seq<char> {
    match c.ens {
        Some((name, _)) => name,
        None => checksum_of(c.address@),
    }
}

/// The form was opened for a contact of the book.
pub open spec fn edit_opened(s: PaneModel, c: ContactView) -> PaneModel {
    with_address(
        PaneModel {
            draft: DraftView {
                name: c.name,
                address_input: Seq::empty(),
                kaomoji: if c.kaomoji.len() == 0 {
                    face(0)
                } else {
                    c.kaomoji
                },
                notes: c.notes,
            },
            mode: Mode::Edit { editing_addr: Some(c.address) },
            pending_delete: None,
            ..s
        },
        address_text(c),
    )
}

/// The address that the form stands for, and the name it came from.
pub open spec fn field_address(f: Field) -> Option<Address> {
    match f {
        Field::Hex(a) => Some(a),
        Field::Resolved { addr, .. } => Some(addr),
        _ => None,
    }
}

/// What is wrong with the address field.
pub open spec fn field_error(f: Field) -> Seq<Seq<char>> {
    match f {
        Field::Hex(_) => Seq::empty(),
        Field::Resolved { .. } => Seq::empty(),
        Field::Empty => seq!["Address or name required"@],
        Field::Invalid => seq!["Not a valid 0x… address or name"@],
        Field::Resolving { .. } => seq!["Resolving name… try again in a sec"@],
        Field::NotFound { name } => seq!["“"@ + name + "” has no address record"@],
        Field::Error { name, msg } => seq!["Name lookup for “"@ + name + "” failed: "@ + msg],
    }
}

/// The contact that is being edited.
pub open spec fn edited(m: Mode) -> Option<Address> {
    match m {
        Mode::List => None,
        Mode::Edit { editing_addr } => editing_addr,
    }
}

/// Another contact than the one being edited has the form's address.
pub open spec fn collides(s: PaneModel, book: Option<Seq<ContactView>>) -> bool {
    &&& field_address(s.resolution) is Some
    &&& edited(s.mode) != field_address(s.resolution)
    &&& book is Some
    &&& has_contact(book->0, field_address(s.resolution)->0)
}

/// Everything that is wrong with the form, in the order it is shown.
pub open spec fn form_errors(s: PaneModel, book: Option<Seq<ContactView>>) -> Seq<Seq<char>> {
    (if trimmed(s.draft.name).len() == 0 {
        seq!["Name is required"@]
    } else {
        Seq::empty()
    }) + field_error(s.resolution) + (if collides(s, book) {
        seq!["A contact with that address already exists"@]
    } else {
        Seq::empty()
    })
}

/// The contact that the form describes.
pub open spec fn form_contact(s: PaneModel) -> ContactView {
    ContactView {
        name: trimmed(s.draft.name),
        address: field_address(s.resolution)->0,
        kaomoji: if trimmed(s.draft.kaomoji).len() == 0 {
            Seq::empty()
        } else {
            s.draft.kaomoji
        },
        notes: s.draft.notes,
        ens: match s.resolution {
            Field::Resolved { name, addr } => Some((name, addr)),
            _ => None,
        },
    }
}

/// The book with the form's contact in it. Where the edited contact's address
/// changed, its old entry goes.
pub open spec fn saved_book(s: PaneModel, book: Seq<ContactView>) -> Seq<ContactView> {
    let c = form_contact(s);
    let rest = match edited(s.mode) {
        Some(prev) => if prev != c.address {
            without(book, contact_position(book, prev))
        } else {
            book
        },
        None => book,
    };
    upserted(rest, c)
}

/// The form was submitted.
pub open spec fn saved(s: PaneModel, book: Option<Seq<ContactView>>) -> Step {
    match s.mode {
        Mode::List => quiet(s),
        Mode::Edit { .. } => if form_errors(s, book).len() > 0 {
            quiet(PaneModel { validation: form_errors(s, book), ..s })
        } else if book is None {
            quiet(s)
        } else {
            Step {
                state: reset(s),
                focus: Focus::Stay,
                out: Asked::Save(saved_book(s, book->0)),
            }
        },
    }
}

/// A key went down: only the form reacts.
pub open spec fn keyed(s: PaneModel, e: Event, book: Option<Seq<ContactView>>) -> Step {
    match (s.mode, e) {
        (Mode::Edit { .. }, Event::KeyPressed { key, shift }) => match key {
            Key::Tab => Step {
                state: s,
                focus: if shift {
                    Focus::Previous
                } else {
                    Focus::Next
                },
                out: Asked::Nothing,
            },
            Key::Enter => saved(s, book),
            Key::Escape => quiet(reset(s)),
            Key::Other => quiet(s),
        },
        _ => quiet(s),
    }
}

/// A contact's delete button was pressed: the first press marks the contact,
/// the second deletes it.
pub open spec fn delete_pressed(s: PaneModel, i: usize, book: Option<Seq<ContactView>>) -> Step {
    if s.pending_delete != Some(i) {
        quiet(PaneModel { pending_delete: Some(i), ..s })
    } else {
        Step {
            state: PaneModel { pending_delete: None, ..s },
            focus: Focus::Stay,
            out: match book {
                Some(b) => Asked::Save(without(b, i as int)),
                None => Asked::Nothing,
            },
        }
    }
}

/// A lookup came back; it counts for the name that is being resolved, under the
/// current count.
pub open spec fn lookup_done(
    s: PaneModel,
    seq: u64,
    name: Seq<char>,
    result: Result<Option<Address>, Seq<char>>,
) -> PaneModel {
    match s.resolution {
        Field::Resolving { name: pending } if seq == s.seq && pending == name => PaneModel {
            resolution: match result {
                Ok(Some(addr)) => Field::Resolved { name, addr },
                Ok(None) => Field::NotFound { name },
                Err(msg) => Field::Error { name, msg },
            },
            ..s
        },
        _ => s,
    }
}

/// What a message does. `book` is the address book, where it can be read;
/// `roll` is the face that a random draw gave.
pub open spec fn stepped(
    s: PaneModel,
    m: Message,
    book: Option<Seq<ContactView>>,
    roll: Seq<char>,
) -> Step {
    match m {
        Message::AddressCopied => quiet(s),
        Message::Back => match s.mode {
            Mode::Edit { .. } => quiet(reset(s)),
            Mode::List => Step { state: s, focus: Focus::Stay, out: Asked::Close },
        },
        Message::OpenAdd => Step {
            state: PaneModel {
                mode: Mode::Edit { editing_addr: None },
                draft: DraftView { kaomoji: face(0), ..blank_draft() },
                resolution: Field::Empty,
                seq: next_seq(s.seq),
                validation: Seq::empty(),
                pending_delete: None,
                ..s
            },
            focus: Focus::NameField,
            out: Asked::Nothing,
        },
        Message::OpenEdit(i) => if book is Some && i < book->0.len() {
            Step {
                state: edit_opened(s, book->0[i as int]),
                focus: Focus::NameField,
                out: Asked::Nothing,
            }
        } else {
            quiet(s)
        },
        Message::Delete(i) => delete_pressed(s, i, book),
        Message::CancelDelete => quiet(PaneModel { pending_delete: None, ..s }),
        Message::NameChanged(v) => quiet(
            PaneModel {
                draft: DraftView { name: v@, ..s.draft },
                validation: Seq::empty(),
                ..s
            },
        ),
        Message::AddressChanged(v) => quiet(with_address(s, v@)),
        Message::EnsResolved { seq, name, result } => quiet(
            lookup_done(s, seq, name@, result_text(result)),
        ),
        Message::KaomojiChanged(v) => quiet(
            PaneModel { draft: DraftView { kaomoji: v@, ..s.draft }, ..s },
        ),
        Message::RandomizeKaomoji => quiet(
            PaneModel { draft: DraftView { kaomoji: roll, ..s.draft }, ..s },
        ),
        Message::NotesChanged(v) => quiet(
            PaneModel { draft: DraftView { notes: v@, ..s.draft }, ..s },
        ),
        Message::CancelEdit => quiet(reset(s)),
        Message::Save => saved(s, book),
        Message::Key(e) => keyed(s, e, book),
    }
}

/// The name whose lookup has not been handed out yet.
pub open spec fn lookup_due(s: PaneModel) -> Option<Seq<char>> {
    match s.resolution {
        Field::Resolving { name } if s.dispatched != Some(s.seq) => Some(name),
        _ => None,
    }
}

/// The book, viewed, where it can be read.
pub open spec fn opt_book(b: Option<&ContactsBook>) -> Option<Seq<ContactView>> {
    match b {
        Some(b) => Some(b@),
        None => None,
    }
}

// ── the pane ────────────────────────────────────────────────────────────────

/// Makes out what an address field stands for.
fn classify(raw: &str) -> (r: AddressResolution)
    ensures
        r@ == classified(raw@),
{
    let t = trim(raw);
    if t.as_str().is_empty() {
        AddressResolution::Empty
    } else {
        match parse_address(t.as_str()) {
            Some(a) => AddressResolution::Hex(a),
            None => if looks_like_known_name(t.as_str()) {
                AddressResolution::Resolving { name: t }
            } else {
                AddressResolution::Invalid
            },
        }
    }
}

/// A draft with nothing in it.
fn no_draft() -> (r: Draft)
    ensures
        r@ == blank_draft(),
{
    Draft {
        name: String::new(),
        address_input: String::new(),
        kaomoji: String::new(),
        notes: String::new(),
    }
}

/// No text.
fn no_texts() -> (r: Vec<String>)
    ensures
        texts(r@) == Seq::<Seq<char>>::empty(),
{
    let v: Vec<String> = Vec::new();
    assert(texts(v@) =~= Seq::<Seq<char>>::empty());
    v
}

/// Appends a text to a list of texts.
fn push_text(v: &mut Vec<String>, s: String)
    ensures
        texts(final(v)@) == texts(old(v)@).push(s@),
{
    v.push(s);
    assert(texts(v@) =~= texts(old(v)@).push(s@));
}

impl ContactsPane {
    /// The pane on its list.
    pub fn new() -> (r: ContactsPane)
        ensures
            r@ == (PaneModel {
                mode: Mode::List,
                draft: blank_draft(),
                resolution: Field::Empty,
                seq: 0,
                dispatched: None,
                validation: Seq::empty(),
                pending_delete: None,
            }),
    {
        ContactsPane {
            mode: Mode::List,
            draft: no_draft(),
            resolution: AddressResolution::Empty,
            resolution_seq: 0,
            last_dispatched_seq: None,
            validation: no_texts(),
            pending_delete: None,
        }
    }

    /// The pane on the form for a new contact, filled in with a recipient: its
    /// name where it has one, else its address.
    pub fn new_with_prefill(address: Address, ens: Option<String>) -> (r: ContactsPane)
        ensures
            r@ == with_address(
                PaneModel {
                    mode: Mode::Edit { editing_addr: None },
                    draft: DraftView { kaomoji: face(0), ..blank_draft() },
                    resolution: Field::Empty,
                    seq: 0,
                    dispatched: None,
                    validation: Seq::empty(),
                    pending_delete: None,
                },
                match ens {
                    Some(name) => name@,
                    None => checksum_of(address@),
                },
            ),
    {
        let input = match ens {
            Some(name) => name,
            None => checksum(address),
        };
        let mut pane = ContactsPane::new();
        pane.mode = Mode::Edit { editing_addr: None };
        pane.draft.kaomoji = face_at(0).to_owned();
        pane.set_address(input);
        pane
    }

    /// Handles a message. `book` is the address book, where it can be read.
    pub fn update(&mut self, msg: Message, book: Option<&ContactsBook>) -> (r: (
        Focus,
        Option<Outcome>,
    ))
        ensures
            exists|roll: Seq<char>| #[trigger]
                could_be_drawn(old(self)@.draft.kaomoji, roll) && ({
                    let step = stepped(old(self)@, msg, opt_book(book), roll);
                    &&& final(self)@ == step.state
                    &&& r.0 == step.focus
                    &&& asked(r.1) == step.out
                }),
    {
        let ghost before = self@;
        let ghost k = before.draft.kaomoji;
        proof {
            crate::kaomoji::lemma_drawn(k, Seq::empty());
        }
        let ghost any = crate::kaomoji::drawn(k, Seq::empty());
        assert(could_be_drawn(k, any));
        match msg {
            Message::AddressCopied => {
                return (Focus::Stay, None);
            },
            Message::Back => {
                match self.mode {
                    Mode::Edit { .. } => {
                        self.reset_to_list();
                        return (Focus::Stay, None);
                    },
                    Mode::List => {
                        return (Focus::Stay, Some(Outcome::Closed));
                    },
                }
            },
            Message::OpenAdd => {
                self.mode = Mode::Edit { editing_addr: None };
                self.draft = no_draft();
                self.draft.kaomoji = face_at(0).to_owned();
                self.resolution = AddressResolution::Empty;
                self.resolution_seq = self.resolution_seq.wrapping_add(1);
                self.validation = no_texts();
                self.pending_delete = None;
                return (Focus::NameField, None);
            },
            Message::OpenEdit(i) => {
                if let Some(b) = book {
                    if i < b.contacts.len() {
                        self.open_edit(&b.contacts[i]);
                        assert(b@[i as int] == b.contacts@[i as int]@);
                        return (Focus::NameField, None);
                    }
                }
                return (Focus::Stay, None);
            },
            Message::Delete(i) => {
                return self.press_delete(i, book);
            },
            Message::CancelDelete => {
                self.pending_delete = None;
                return (Focus::Stay, None);
            },
            Message::NameChanged(v) => {
                self.draft.name = v;
                self.validation = no_texts();
                return (Focus::Stay, None);
            },
            Message::AddressChanged(v) => {
                self.set_address(v);
                return (Focus::Stay, None);
            },
            Message::EnsResolved { seq, name, result } => {
                self.finish_lookup(seq, name, result);
                return (Focus::Stay, None);
            },
            Message::KaomojiChanged(v) => {
                self.draft.kaomoji = v;
                return (Focus::Stay, None);
            },
            Message::RandomizeKaomoji => {
                let face = pick_random_kaomoji(self.draft.kaomoji.as_str());
                let ghost roll = face@;
                self.draft.kaomoji = face;
                assert(could_be_drawn(k, roll));
                return (Focus::Stay, None);
            },
            Message::NotesChanged(v) => {
                self.draft.notes = v;
                return (Focus::Stay, None);
            },
            Message::CancelEdit => {
                self.reset_to_list();
                return (Focus::Stay, None);
            },
            Message::Save => {
                return self.handle_save(book);
            },
            Message::Key(event) => {
                return self.handle_key(event, book);
            },
        }
    }

    fn press_delete(&mut self, i: usize, book: Option<&ContactsBook>) -> (r: (
        Focus,
        Option<Outcome>,
    ))
        ensures
            ({
                let step = delete_pressed(old(self)@, i, opt_book(book));
                &&& final(self)@ == step.state
                &&& r.0 == step.focus
                &&& asked(r.1) == step.out
            }),
    {
        let marked = match self.pending_delete {
            Some(j) => i == j,
            None => false,
        };
        if !marked {
            self.pending_delete = Some(i);
            return (Focus::Stay, None);
        }
        self.pending_delete = None;
        match book {
            Some(b) => {
                let mut copy = b.clone();
                copy.remove(i);
                (Focus::Stay, Some(Outcome::SaveRequested(copy.contacts)))
            },
            None => (Focus::Stay, None),
        }
    }

    fn open_edit(&mut self, c: &Contact)
        ensures
            final(self)@ == edit_opened(old(self)@, c@),
    {
        let input = match &c.ens {
            Some(e) => e.name.clone(),
            None => checksum(c.address),
        };
        let kaomoji = if c.kaomoji.as_str().is_empty() {
            face_at(0).to_owned()
        } else {
            c.kaomoji.clone()
        };
        self.draft = Draft {
            name: c.name.clone(),
            address_input: String::new(),
            kaomoji,
            notes: c.notes.clone(),
        };
        self.mode = Mode::Edit { editing_addr: Some(c.address) };
        self.pending_delete = None;
        self.set_address(input);
    }

    fn finish_lookup(&mut self, seq: u64, name: String, result: Result<Option<Address>, String>)
        ensures
            final(self)@ == lookup_done(old(self)@, seq, name@, result_text(result)),
    {
        if seq != self.resolution_seq {
            return;
        }
        let pending = match &self.resolution {
            AddressResolution::Resolving { name: n } => same_text(n.as_str(), name.as_str()),
            _ => false,
        };
        if pending {
            self.resolution =
            match result {
                Ok(Some(addr)) => AddressResolution::Resolved { name, addr },
                Ok(None) => AddressResolution::NotFound { name },
                Err(msg) => AddressResolution::Error { name, msg },
            };
        }
    }

    /// Handles a key: Tab moves the focus, Enter saves, Escape goes back to the
    /// list. Only the form reacts.
    pub fn handle_key(&mut self, event: Event, book: Option<&ContactsBook>) -> (r: (
        Focus,
        Option<Outcome>,
    ))
        ensures
            ({
                let step = keyed(old(self)@, event, opt_book(book));
                &&& final(self)@ == step.state
                &&& r.0 == step.focus
                &&& asked(r.1) == step.out
            }),
    {
        match (self.mode, event) {
            (Mode::Edit { .. }, Event::KeyPressed { key, shift }) => match key {
                Key::Tab => {
                    let focus = if shift {
                        Focus::Previous
                    } else {
                        Focus::Next
                    };
                    return (focus, None);
                },
                Key::Enter => {
                    return self.handle_save(book);
                },
                Key::Escape => {
                    self.reset_to_list();
                    return (Focus::Stay, None);
                },
                Key::Other => {
                    return (Focus::Stay, None);
                },
            },
            _ => {
                return (Focus::Stay, None);
            },
        }
    }

    /// What the pane listens to: keys, while the form is open.
    pub fn subscription(&self) -> (r: Listening)
        ensures
            r.keys == (self@.mode is Edit),
            !r.frames,
    {
        let keys = match self.mode {
            Mode::Edit { .. } => true,
            Mode::List => false,
        };
        Listening { keys, frames: false }
    }

    /// Where the focus goes when the pane is opened on its form.
    pub fn focus_initial_task() -> (r: Focus)
        ensures
            r == Focus::NameField,
    {
        Focus::NameField
    }

    /// The name that has to be looked up, with the count it belongs to. It is
    /// handed out once per change of the address field.
    pub fn take_pending_ens(&mut self) -> (r: Option<(u64, String)>)
        ensures
            match r {
                Some((seq, name)) => {
                    &&& seq == old(self)@.seq
                    &&& lookup_due(old(self)@) == Some(name@)
                    &&& final(self)@ == PaneModel {
                        dispatched: Some(old(self)@.seq),
                        ..old(self)@
                    }
                },
                None => lookup_due(old(self)@) is None && final(self)@ == old(self)@,
            },
            lookup_due(final(self)@) is None,
    {
        let fresh = match self.last_dispatched_seq {
            Some(n) => n != self.resolution_seq,
            None => true,
        };
        if !fresh {
            return None;
        }
        let name = match &self.resolution {
            AddressResolution::Resolving { name } => name.clone(),
            _ => {
                return None;
            },
        };
        let seq: u64 = self.resolution_seq;
        self.last_dispatched_seq = Some(seq);
        Some((seq, name))
    }

    /// Sets the address field from what was typed.
    pub fn set_address(&mut self, raw: String)
        ensures
            final(self)@ == with_address(old(self)@, raw@),
    {
        self.resolution = classify(raw.as_str());
        self.draft.address_input = raw;
        self.resolution_seq = self.resolution_seq.wrapping_add(1);
        self.validation = no_texts();
    }

    /// Back to the list: the form is forgotten.
    pub fn reset_to_list(&mut self)
        ensures
            final(self)@ == reset(old(self)@),
    {
        self.mode = Mode::List;
        self.draft = no_draft();
        self.resolution = AddressResolution::Empty;
        self.resolution_seq = self.resolution_seq.wrapping_add(1);
        self.validation = no_texts();
        self.pending_delete = None;
    }

    /// Everything that is wrong with the form.
    fn errors(&self, book: Option<&ContactsBook>) -> (r: Vec<String>)
        ensures
            texts(r@) == form_errors(self@, opt_book(book)),
    {
        let mut errs = no_texts();
        if is_blank(self.draft.name.as_str()) {
            push_text(&mut errs, "Name is required".to_owned());
        }
        let ghost first = texts(errs@);
        match &self.resolution {
            AddressResolution::Hex(_) => {},
            AddressResolution::Resolved { .. } => {},
            AddressResolution::Empty => {
                push_text(&mut errs, "Address or name required".to_owned());
            },
            AddressResolution::Invalid => {
                push_text(&mut errs, "Not a valid 0x… address or name".to_owned());
            },
            AddressResolution::Resolving { .. } => {
                push_text(&mut errs, "Resolving name… try again in a sec".to_owned());
            },
            AddressResolution::NotFound { name } => {
                push_text(&mut errs, join3("“", name.as_str(), "” has no address record"));
            },
            AddressResolution::Error { name, msg } => {
                push_text(
                    &mut errs,
                    join4("Name lookup for “", name.as_str(), "” failed: ", msg.as_str()),
                );
            },
        }
        let ghost second = texts(errs@);
        assert(second =~= first + field_error(self@.resolution));
        if self.collision(book) {
            push_text(&mut errs, "A contact with that address already exists".to_owned());
        }
        assert(texts(errs@) =~= form_errors(self@, opt_book(book)));
        errs
    }

    /// The address that the form stands for.
    fn address(&self) -> (r: Option<Address>)
        ensures
            r == field_address(self@.resolution),
    {
        match &self.resolution {
            AddressResolution::Hex(a) => Some(*a),
            AddressResolution::Resolved { addr, .. } => Some(*addr),
            _ => None,
        }
    }

    /// Whether another contact than the one being edited has the form's address.
    fn collision(&self, book: Option<&ContactsBook>) -> (b: bool)
        ensures
            b == collides(self@, opt_book(book)),
    {
        let addr = match self.address() {
            Some(a) => a,
            None => {
                return false;
            },
        };
        let same = match self.mode {
            Mode::Edit { editing_addr: Some(e) } => e == addr,
            _ => false,
        };
        if same {
            return false;
        }
        match book {
            Some(b) => {
                proof {
                    crate::contacts::lemma_contact_position(b@, addr);
                }
                b.position(addr).is_some()
            },
            None => false,
        }
    }

    /// Checks the form and, where nothing is wrong with it, asks for the book
    /// with its contact in it.
    pub fn handle_save(&mut self, book: Option<&ContactsBook>) -> (r: (Focus, Option<Outcome>))
        ensures
            ({
                let step = saved(old(self)@, opt_book(book));
                &&& final(self)@ == step.state
                &&& r.0 == step.focus
                &&& asked(r.1) == step.out
            }),
    {
        let editing_addr = match self.mode {
            Mode::Edit { editing_addr } => editing_addr,
            Mode::List => {
                return (Focus::Stay, None);
            },
        };
        let errs = self.errors(book);
        let ghost all = texts(errs@);
        if errs.len() > 0 {
            self.validation = errs;
            return (Focus::Stay, None);
        }
        assert(all.len() == 0);
        assert(field_address(self@.resolution) is Some) by {
            if field_address(self@.resolution) is None {
                assert(field_error(self@.resolution).len() == 1);
            }
        }
        let addr = match self.address() {
            Some(a) => a,
            None => {
                return (Focus::Stay, None);
            },
        };
        let b = match book {
            Some(b) => b,
            None => {
                return (Focus::Stay, None);
            },
        };
        let kaomoji = if is_blank(self.draft.kaomoji.as_str()) {
            String::new()
        } else {
            self.draft.kaomoji.clone()
        };
        let ens = match &self.resolution {
            AddressResolution::Resolved { name, addr: a } => Some(
                ContactEns { name: name.clone(), last_resolved_addr: *a },
            ),
            _ => None,
        };
        let contact = Contact {
            name: trim(self.draft.name.as_str()),
            address: addr,
            kaomoji,
            notes: self.draft.notes.clone(),
            ens,
        };
        assert(contact@ == form_contact(self@));
        let mut copy = b.clone();
        if let Some(prev) = editing_addr {
            if prev != addr {
                proof {
                    crate::contacts::lemma_contact_position(copy@, prev);
                }
                if let Some(p) = copy.position(prev) {
                    copy.remove(p);
                }
            }
        }
        copy.upsert(contact);
        assert(copy@ == saved_book(old(self)@, b@));
        self.reset_to_list();
        (Focus::Stay, Some(Outcome::SaveRequested(copy.contacts)))
    }
}

} // verus!
