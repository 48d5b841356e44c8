//! What comes of a message to the dashboard.

use vstd::prelude::*;

use crate::contacts::{ContactView, ContactsBook};
use crate::contacts_settings::opt_book;
use crate::kaomoji::could_be_drawn;
use crate::name_writes::opt_view;
use crate::screen::{Env, EnvModel, Reply, ScreenModel, Turn, WalletScreen};
use crate::screen_fetch::{cleaned, on_commit_rename, on_name_found};
use crate::screen_message::Message;
use crate::screen_orders::on_apps;
use crate::screen_panes::{form_face, on_contacts};
use crate::types::Hash32;
use crate::update_pane::on_pane;

verus! {

/// What a message leaves open.
pub struct Luck {
    /// The secret that is drawn for a name.
    pub secret: Hash32,
    /// The face that is drawn for a contact.
    pub roll: Seq<char>,
    /// The name that is made out of what was typed or found.
    pub name: Option<String>,
}

/// What a message may leave open.
pub open spec fn may_be(m: ScreenModel, msg: Message, luck: Luck) -> bool {
    match msg {
        Message::Contacts(_) => could_be_drawn(form_face(m), luck.roll),
        Message::CommitRename => opt_view(luck.name) == cleaned(
            match m.rename_draft {
                Some(d) => d,
                None => Seq::empty(),
            },
        ),
        Message::EnsAutoNameResolved { result, .. } => opt_view(luck.name) == cleaned(
            match result {
                Ok(Some(t)) => t@,
                _ => Seq::empty(),
            },
        ),
        _ => true,
    }
}

/// What comes of a message.
pub open spec fn on_message(
    m: ScreenModel,
    msg: Message,
    env: EnvModel,
    book: Option<Seq<ContactView>>,
    luck: Luck,
) -> Turn {
    match msg {
        Message::Contacts(c) => on_contacts(m, c, book, luck.roll),
        Message::Apps(a) => on_apps(m, a, luck.secret, env),
        Message::CommitRename => on_commit_rename(m, luck.name),
        Message::EnsAutoNameResolved { address, result } => on_name_found(
            m,
            address,
            result,
            luck.name,
        ),
        msg => on_pane(m, msg, env),
    }
}

impl WalletScreen {
    /// Handles a message. `book` is the contact book, where it can be read.
    pub fn update(&mut self, msg: Message, env: &Env, book: Option<&ContactsBook>) -> (r: Reply)
        ensures
            exists|luck: Luck|
                may_be(old(self)@, msg, luck) && (Turn { state: final(self)@, answer: r@ })
                    == #[trigger] on_message(old(self)@, msg, env@, opt_book(book), luck),
    {
        let ghost m = self@;
        let ghost any: Luck = arbitrary();
        match msg {
            Message::Contacts(c) => {
                let r = self.contacts(c, book);
                proof {
                    let roll = choose|roll: Seq<char>| #[trigger]
                        could_be_drawn(form_face(m), roll) && (Turn {
                            state: self@,
                            answer: r@,
                        }) == on_contacts(m, c, opt_book(book), roll);
                    let luck = Luck { roll, ..any };
                    assert(may_be(m, msg, luck));
                    assert((Turn { state: self@, answer: r@ }) == on_message(
                        m,
                        msg,
                        env@,
                        opt_book(book),
                        luck,
                    ));
                }
                r
            },
            Message::Apps(a) => {
                let r = self.apps(a, env);
                proof {
                    let secret = choose|secret: Hash32|
                        (Turn { state: self@, answer: r@ }) == #[trigger] on_apps(
                            m,
                            a,
                            secret,
                            env@,
                        );
                    let luck = Luck { secret, ..any };
                    assert((Turn { state: self@, answer: r@ }) == on_message(
                        m,
                        msg,
                        env@,
                        opt_book(book),
                        luck,
                    ));
                }
                r
            },
            Message::CommitRename => {
                let r = self.commit_rename();
                proof {
                    let name = choose|n: Option<String>| #[trigger]
                        opt_view(n) == cleaned(
                            match m.rename_draft {
                                Some(d) => d,
                                None => Seq::empty(),
                            },
                        ) && (Turn { state: self@, answer: r@ }) == on_commit_rename(m, n);
                    let luck = Luck { name, ..any };
                    assert((Turn { state: self@, answer: r@ }) == on_message(
                        m,
                        msg,
                        env@,
                        opt_book(book),
                        luck,
                    ));
                }
                r
            },
            Message::EnsAutoNameResolved { address, result } => {
                let r = self.ens_auto_name(address, result);
                proof {
                    let name = choose|n: Option<String>| #[trigger]
                        opt_view(n) == cleaned(
                            match result {
                                Ok(Some(t)) => t@,
                                _ => Seq::empty(),
                            },
                        ) && (Turn { state: self@, answer: r@ }) == on_name_found(
                            m,
                            address,
                            result,
                            n,
                        );
                    let luck = Luck { name, ..any };
                    assert((Turn { state: self@, answer: r@ }) == on_message(
                        m,
                        msg,
                        env@,
                        opt_book(book),
                        luck,
                    ));
                }
                r
            },
            msg => {
                let r = self.update_pane(msg, env);
                assert((Turn { state: self@, answer: r@ }) == on_message(
                    m,
                    msg,
                    env@,
                    opt_book(book),
                    any,
                ));
                r
            },
        }
    }
}

} // verus!
