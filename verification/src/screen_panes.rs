//! The dashboard's clipboard, its smaller dialogs, and its settings.

use vstd::prelude::*;

use crate::contacts::ContactsBook;
use crate::contacts_settings::{
    self, asked, blank_draft, lookup_due, opt_book, stepped, with_address, Asked, ContactsPane,
    DraftView, Field, Focus, Mode, PaneModel,
};
use crate::kaomoji::{could_be_drawn, face};
use crate::nav::Nav;
use crate::screen::{
    acts, doing, idle, silent, wishing, Act, Answer, Effect, Env, EnvModel, Modal, Outcome, Reply,
    ScreenModel, SettingsModel, SettingsPane, Turn, WalletScreen, Wish,
};
use crate::screen_send::copying;
use crate::types::{checksum_of, Address};

verus! {

// ── the clipboard ───────────────────────────────────────────────────────────

/// The timer of a copy ran out.
pub open spec fn on_clear_timer(m: ScreenModel, generation: u64) -> Turn {
    if m.clipboard.awaits(generation) {
        Turn {
            state: m,
            answer: doing(seq![Act::Plain(Effect::ReadClipboard(generation))]),
        }
    } else {
        silent(m)
    }
}

/// The clipboard was read.
pub open spec fn on_clipboard_read(m: ScreenModel, generation: u64, actual: Option<String>) -> Turn {
    let state = ScreenModel { clipboard: m.clipboard.probed(generation), ..m };
    if m.clipboard.owns(generation, actual) {
        Turn { state, answer: doing(seq![Act::Plain(Effect::ClearClipboard)]) }
    } else {
        silent(state)
    }
}

impl WalletScreen {
    /// The timer of a copy ran out: the clipboard is read, unless there was a later
    /// copy.
    pub fn clipboard_clear_armed(&mut self, generation: u64) -> (r: Reply)
        ensures
            (Turn { state: final(self)@, answer: r@ }) == on_clear_timer(old(self)@, generation),
    {
        if self.clipboard.timer_ran_out(generation) {
            return Reply::one(Effect::ReadClipboard(generation));
        }
        Reply::idle()
    }

    /// The clipboard was read: it is cleared where it still holds what was copied.
    pub fn clipboard_clear_probe(&mut self, generation: u64, actual: Option<String>) -> (r: Reply)
        ensures
            (Turn { state: final(self)@, answer: r@ }) == on_clipboard_read(
                old(self)@,
                generation,
                actual,
            ),
    {
        if self.clipboard.clipboard_read(generation, actual) {
            return Reply::one(Effect::ClearClipboard);
        }
        Reply::idle()
    }
}

// ── smaller dialogs ─────────────────────────────────────────────────────────

/// What the dialog with the details of a transaction asks of the dashboard.
#[derive(Debug)]
pub enum TxDetailsOutcome {
    Closed,
    CopyText(String),
}

/// Something happened in the receive dialog.
pub open spec fn on_receive(m: ScreenModel, closed: bool, env: EnvModel) -> Turn {
    if m.modal is Receive && closed {
        silent(m.closing(env.now))
    } else {
        silent(m)
    }
}

/// Something happened in the dialog with the details of a transaction.
pub open spec fn on_tx_details(m: ScreenModel, o: Option<TxDetailsOutcome>, env: EnvModel) -> Turn {
    if m.modal is TxDetails {
        match o {
            Some(TxDetailsOutcome::Closed) => silent(m.closing(env.now)),
            Some(TxDetailsOutcome::CopyText(t)) => Turn {
                state: ScreenModel { clipboard: m.clipboard.armed(t, env.now), ..m },
                answer: doing(copying(t, crate::clipboard::next_copy(m.clipboard.generation))),
            },
            None => silent(m),
        }
    } else {
        silent(m)
    }
}

/// A frame passed.
pub open spec fn on_tick(m: ScreenModel, env: EnvModel) -> Turn {
    silent(
        ScreenModel {
            chrome: m.chrome.ticked(env.now),
            modal: if m.chrome.settles(env.now) {
                Modal::Closed
            } else {
                m.modal
            },
            ..m
        },
    )
}

impl WalletScreen {
    /// Something happened in the receive dialog.
    pub fn receive(&mut self, closed: bool, env: &Env) -> (r: Reply)
        ensures
            (Turn { state: final(self)@, answer: r@ }) == on_receive(old(self)@, closed, env@),
    {
        match &self.modal {
            Modal::Receive(_) => {
                if closed {
                    self.chrome.start_close(env.now);
                }
            },
            _ => {},
        }
        Reply::idle()
    }

    /// Something happened in the dialog with the details of a transaction.
    pub fn tx_details(&mut self, o: Option<TxDetailsOutcome>, env: &Env) -> (r: Reply)
        ensures
            (Turn { state: final(self)@, answer: r@ }) == on_tx_details(old(self)@, o, env@),
    {
        match &self.modal {
            Modal::TxDetails(_) => {},
            _ => {
                return Reply::idle();
            },
        }
        match o {
            Some(TxDetailsOutcome::Closed) => {
                self.chrome.start_close(env.now);
                Reply::idle()
            },
            Some(TxDetailsOutcome::CopyText(t)) => Reply::all(self.arm_clipboard_clear(t, env)),
            None => Reply::idle(),
        }
    }

    /// A frame passed: a dialog that has closed goes.
    pub fn tick(&mut self, env: &Env) -> (r: Reply)
        ensures
            (Turn { state: final(self)@, answer: r@ }) == on_tick(old(self)@, env@),
    {
        if self.chrome.tick_settled(env.now) {
            self.modal = Modal::Closed;
        }
        Reply::idle()
    }
}

// ── settings ────────────────────────────────────────────────────────────────

/// What the settings of the Safes ask of the dashboard.
#[derive(Debug)]
pub enum SafesOutcome {
    Closed,
    SetServiceUrl { index: usize, url: Option<String> },
}

/// Something happened in the settings of the Safes.
pub open spec fn on_safes_settings(m: ScreenModel, o: Option<SafesOutcome>) -> Turn {
    if m.settings is Safes {
        match o {
            Some(SafesOutcome::Closed) => silent(
                ScreenModel { settings: SettingsModel::Root, ..m },
            ),
            Some(SafesOutcome::SetServiceUrl { index, url }) => Turn {
                state: m,
                answer: wishing(Wish::SetSafeServiceUrl { index, url }),
            },
            None => silent(m),
        }
    } else {
        silent(m)
    }
}

/// Something happened in the network wizard; it is done, or not.
pub open spec fn on_wizard(m: ScreenModel, done: bool) -> Turn {
    if m.settings is NetworkWizard && done {
        Turn {
            state: ScreenModel { settings: SettingsModel::Root, ..m },
            answer: doing(seq![Act::Plain(Effect::RefreshLater)]),
        }
    } else {
        silent(m)
    }
}

/// The contact list as it is opened.
pub open spec fn contact_list() -> PaneModel {
    PaneModel {
        mode: Mode::List,
        draft: blank_draft(),
        resolution: Field::Empty,
        seq: 0,
        dispatched: None,
        validation: Seq::empty(),
        pending_delete: None,
    }
}

/// The contact form as it is opened for a recipient.
pub open spec fn contact_form(address: Address, ens: Option<String>) -> PaneModel {
    with_address(
        PaneModel {
            mode: Mode::Edit { editing_addr: None },
            draft: DraftView { kaomoji: face(0), ..blank_draft() },
            ..contact_list()
        },
        match ens {
            Some(name) => name@,
            None => checksum_of(address@),
        },
    )
}

/// A recipient is to be saved as a contact.
pub open spec fn on_save_contact(
    m: ScreenModel,
    address: Address,
    ens: Option<String>,
    env: EnvModel,
) -> Turn {
    Turn {
        state: ScreenModel {
            nav: Nav::Settings,
            settings: SettingsModel::Contacts(contact_form(address, ens)),
            ..m.closing(env.now)
        },
        answer: doing(seq![Act::Plain(Effect::FocusContacts(Focus::NameField))]),
    }
}

/// The contact pane after the name that it has to look up was handed out.
pub open spec fn handed_out(p: PaneModel) -> PaneModel {
    match lookup_due(p) {
        Some(_) => PaneModel { dispatched: Some(p.seq), ..p },
        None => p,
    }
}

/// Something happened in the contact pane; `roll` is the face that is drawn where
/// one is asked for.
pub open spec fn on_contacts(
    m: ScreenModel,
    msg: contacts_settings::Message,
    book: Option<Seq<crate::contacts::ContactView>>,
    roll: Seq<char>,
) -> Turn {
    match m.settings {
        SettingsModel::Contacts(p) => {
            let step = stepped(p, msg, book, roll);
            let focus: Seq<Act> = match step.focus {
                Focus::Stay => Seq::empty(),
                f => seq![Act::Plain(Effect::FocusContacts(f))],
            };
            let lookup: Seq<Act> = match lookup_due(step.state) {
                Some(name) => seq![Act::ResolveContact { seq: step.state.seq, name }],
                None => Seq::empty(),
            };
            Turn {
                state: ScreenModel {
                    settings: match step.out {
                        Asked::Close => SettingsModel::Root,
                        _ => SettingsModel::Contacts(handed_out(step.state)),
                    },
                    ..m
                },
                answer: Answer {
                    acts: focus + lookup,
                    wish: match step.out {
                        Asked::Save(v) => Some(Wish::SaveContacts(v)),
                        _ => None,
                    },
                },
            }
        },
        _ => silent(m),
    }
}

/// The face that stands in the contact form.
pub open spec fn form_face(m: ScreenModel) -> Seq<char> {
    match m.settings {
        SettingsModel::Contacts(p) => p.draft.kaomoji,
        _ => Seq::empty(),
    }
}

impl WalletScreen {
    /// Something happened in the settings of the Safes.
    pub fn safes_settings(&mut self, o: Option<SafesOutcome>) -> (r: Reply)
        ensures
            (Turn { state: final(self)@, answer: r@ }) == on_safes_settings(old(self)@, o),
    {
        match &self.settings {
            SettingsPane::Safes => {},
            _ => {
                return Reply::idle();
            },
        }
        match o {
            Some(SafesOutcome::Closed) => {
                self.settings = SettingsPane::Root;
                Reply::idle()
            },
            Some(SafesOutcome::SetServiceUrl { index, url }) => Reply::ask(
                Outcome::SetSafeServiceUrl { index, url },
            ),
            None => Reply::idle(),
        }
    }

    /// Something happened in the network wizard. Once it is done, balances are
    /// fetched, since the networks may have changed.
    pub fn network_wizard(&mut self, done: bool) -> (r: Reply)
        ensures
            (Turn { state: final(self)@, answer: r@ }) == on_wizard(old(self)@, done),
    {
        match &self.settings {
            SettingsPane::NetworkWizard => {},
            _ => {
                return Reply::idle();
            },
        }
        if done {
            self.settings = SettingsPane::Root;
            return Reply::one(Effect::RefreshLater);
        }
        Reply::idle()
    }

    /// A recipient is to be saved as a contact: the form comes up, filled in.
    pub fn open_contacts_pane_with(&mut self, address: Address, ens: Option<String>, env: &Env) -> (r:
        Reply)
        ensures
            (Turn { state: final(self)@, answer: r@ }) == on_save_contact(
                old(self)@,
                address,
                ens,
                env@,
            ),
    {
        self.nav = Nav::Settings;
        self.settings = SettingsPane::Contacts(ContactsPane::new_with_prefill(address, ens));
        self.chrome.start_close(env.now);
        Reply::one(Effect::FocusContacts(ContactsPane::focus_initial_task()))
    }

    /// Something happened in the contact pane.
    pub fn contacts(&mut self, msg: contacts_settings::Message, book: Option<&ContactsBook>) -> (r:
        Reply)
        ensures
            exists|roll: Seq<char>| #[trigger]
                could_be_drawn(form_face(old(self)@), roll) && (Turn {
                    state: final(self)@,
                    answer: r@,
                }) == on_contacts(old(self)@, msg, opt_book(book), roll),
    {
        let ghost m = self@;
        let mut pane = SettingsPane::Root;
        std::mem::swap(&mut pane, &mut self.settings);
        match pane {
            SettingsPane::Contacts(mut p) => {
                let ghost before = p@;
                let (focus, outcome) = p.update(msg, book);
                let ghost roll = choose|roll: Seq<char>| #[trigger]
                    could_be_drawn(before.draft.kaomoji, roll) && ({
                        let step = stepped(before, msg, opt_book(book), roll);
                        &&& p@ == step.state
                        &&& focus == step.focus
                        &&& asked(outcome) == step.out
                    });
                let ghost step = stepped(before, msg, opt_book(book), roll);
                let lookup = p.take_pending_ens();
                let mut out: Vec<Effect> = Vec::new();
                match focus {
                    Focus::Stay => {},
                    f => {
                        out.push(Effect::FocusContacts(f));
                    },
                }
                match lookup {
                    Some((seq, name)) => {
                        out.push(Effect::ResolveContact { seq, name });
                    },
                    None => {},
                }
                let ghost want = on_contacts(m, msg, opt_book(book), roll);
                assert(acts(out@) =~= want.answer.acts);
                assert(could_be_drawn(form_face(m), roll));
                match outcome {
                    Some(contacts_settings::Outcome::Closed) => {
                        self.settings = SettingsPane::Root;
                        let r = Reply { effects: out, outcome: None };
                        assert((Turn { state: self@, answer: r@ }) == want);
                        r
                    },
                    Some(contacts_settings::Outcome::SaveRequested(v)) => {
                        self.settings = SettingsPane::Contacts(p);
                        let r = Reply { effects: out, outcome: Some(Outcome::SaveContacts(v)) };
                        assert((Turn { state: self@, answer: r@ }) == want);
                        r
                    },
                    None => {
                        self.settings = SettingsPane::Contacts(p);
                        let r = Reply { effects: out, outcome: None };
                        assert((Turn { state: self@, answer: r@ }) == want);
                        r
                    },
                }
            },
            other => {
                self.settings = other;
                let r = Reply::idle();
                proof {
                    let roll = crate::kaomoji::drawn(form_face(m), Seq::empty());
                    crate::kaomoji::lemma_drawn(form_face(m), Seq::empty());
                    assert(could_be_drawn(form_face(m), roll));
                    assert((Turn { state: self@, answer: r@ }) == on_contacts(
                        m,
                        msg,
                        opt_book(book),
                        roll,
                    ));
                }
                r
            },
        }
    }
}

} // verus!
