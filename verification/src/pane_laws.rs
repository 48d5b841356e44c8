//! What the user's clicks beside the dialogs do.

use vstd::prelude::*;

use crate::account_dropdown;
use crate::contacts::ContactView;
use crate::contacts_settings::{
    self, classified, form_errors, lookup_done, stepped, Asked, Field, Focus, Mode, PaneModel,
};
use crate::deed_laws::else_same;
use crate::identity::{AccountDescriptor, SafeDescriptor};
use crate::keys::Event;
use crate::name_writes::opt_view;
use crate::names::known_name;
use crate::nav::Nav;
use crate::pool_app::Relayer;
use crate::portfolio::{LiveToken, Slot};
use crate::screen::{
    fetching_history, idle, silent, Act, Effect, EnvModel, Modal, ScreenModel, SettingsModel, Wish,
};
use crate::screen_fetch::{
    cleaned, on_begin_rename, on_commit_rename, on_name_found, on_nav, on_picker, on_reconnect,
    on_theme,
};
use crate::screen_panes::{
    contact_list, on_clear_timer, on_clipboard_read, on_contacts, on_receive, on_safes_settings,
    on_save_contact, on_tick, on_tx_details, on_wizard, SafesOutcome, TxDetailsOutcome,
};
use crate::screen_send::{on_open_receive, on_open_tx};
use crate::signer::Signer;
use crate::text::trimmed;
use crate::types::{address_of_hex, checksum_of, Address};

verus! {

// ── the rail ────────────────────────────────────────────────────────────────

/// The pane that was picked is shown; leaving the settings starts them afresh; and the
/// activity pane asks for the history the first time it is looked at.
pub proof fn law_the_picked_pane_is_shown(m: ScreenModel, nav: Nav, env: EnvModel)
    ensures
        ({
            let t = on_nav(m, nav, env);
            let asks = nav == Nav::Activity && !m.history.loaded && !m.history.loading;
            &&& t.answer.wish is None
            &&& t.state.nav == nav
            &&& m.nav != nav ==> t.state.settings is Root
            &&& m.nav == nav ==> t.state.settings == m.settings
            &&& asks ==> t.state.history.loading && t.state.history.pending
                == m.identity.history_chains(env.config) && t.answer.acts == fetching_history(
                m.identity,
                env.config,
            )
            &&& !asks ==> t.state.history == m.history && t.answer.acts.len() == 0
            &&& t.state.identity == m.identity && t.state.modal == m.modal && t.state.desk
                == m.desk && t.state.portfolio == m.portfolio && t.state.orders == m.orders
                && t.state.apps == m.apps && t.state.gate == m.gate
        }),
{
}

/// A theme that is picked is shown and stored.
pub proof fn law_the_picked_theme_is_stored(m: ScreenModel, theme: u8)
    ensures
        on_theme(m, theme).state == (ScreenModel { theme, ..m }),
        on_theme(m, theme).answer.acts == seq![Act::Plain(Effect::SaveTheme(theme))],
        on_theme(m, theme).answer.wish is None,
{
}

/// A device is connected for an account that has one, and for no other.
pub proof fn law_only_devices_are_connected(m: ScreenModel)
    requires
        m.identity.active_index < m.identity.accounts.len(),
    ensures
        ({
            let a = m.identity.accounts[m.identity.active_index as int];
            let t = on_reconnect(m);
            &&& t.state == m
            &&& t.answer.acts.len() == 0
            &&& a is Ledger || a is Trezor ==> t.answer.wish == Some(
                Wish::NeedsHardwareReconnect { open_send: false },
            )
            &&& !(a is Ledger || a is Trezor) ==> t.answer.wish is None
        }),
{
}

// ── the picker ──────────────────────────────────────────────────────────────

/// Another account that is picked is switched to; the active one is shown again where a
/// Safe was, with its balances asked for; and the picker closes.
pub proof fn law_the_picked_account_is_switched_to(m: ScreenModel, i: usize, env: EnvModel)
    requires
        m.modal is AccountDropdown,
        i < m.identity.accounts.len(),
    ensures
        ({
            let t = on_picker(m, account_dropdown::Message::Select(i), env);
            &&& t.state.modal is Closed
            &&& t.state.identity.active_safe is None
            &&& t.state.identity.accounts == m.identity.accounts
            &&& t.state.identity.active_index == m.identity.active_index
            &&& i != m.identity.active_index ==> t.answer.wish == Some(Wish::Switch(i))
                && t.answer.acts.len() == 0
            &&& i == m.identity.active_index ==> t.answer.wish is None
            &&& i == m.identity.active_index && m.identity.active_safe is None
                ==> t.answer.acts.len() == 0
            &&& i == m.identity.active_index && m.identity.active_safe is Some ==> {
                &&& t.answer.acts.len() >= 1
                &&& t.answer.acts[0] == Act::Plain(
                    Effect::RefreshVerification(m.identity.address),
                )
                &&& forall|k: int|
                    1 <= k < t.answer.acts.len() ==> (#[trigger] t.answer.acts[k] matches Act::Plain(
                        Effect::FetchBalances { address, .. },
                    ) && address == m.identity.address)
                &&& t.state.history.rows.len() == 0 && !t.state.history.loaded
                &&& t.state.queue.pending.len() == 0
            }
            &&& t.state.desk == m.desk && t.state.orders == m.orders && t.state.gate == m.gate
        }),
{
}

/// The picker adds an account, and closes; Escape closes it, a click inside does not.
pub proof fn law_the_picker_is_left(m: ScreenModel, e: Event, env: EnvModel)
    requires
        m.modal is AccountDropdown,
    ensures
        on_picker(m, account_dropdown::Message::Add, env).answer.wish == Some(Wish::Add),
        on_picker(m, account_dropdown::Message::Add, env).state == (ScreenModel {
            modal: Modal::Closed,
            ..m
        }),
        on_picker(m, account_dropdown::Message::Close, env).state == (ScreenModel {
            modal: Modal::Closed,
            ..m
        }),
        on_picker(m, account_dropdown::Message::Close, env).answer == idle(),
        on_picker(m, account_dropdown::Message::BoxClickIgnored, env) == silent(m),
        e.is_escape() ==> on_picker(m, account_dropdown::Message::Key(e), env).state
            == (ScreenModel { modal: Modal::Closed, ..m }),
        !e.is_escape() ==> on_picker(m, account_dropdown::Message::Key(e), env) == silent(m),
{
}

// ── names of accounts ───────────────────────────────────────────────────────

/// The rename begins with the name that the active account has.
pub proof fn law_a_rename_begins_with_the_name(m: ScreenModel)
    requires
        m.identity.active_index < m.identity.accounts.len(),
    ensures
        ({
            let t = on_begin_rename(m);
            let name = m.identity.accounts[m.identity.active_index as int].given_name();
            &&& t.answer.acts == seq![Act::Plain(Effect::FocusRename)]
            &&& name is Some ==> t.state.rename_draft == Some(name->0@)
            &&& name is None ==> t.state.rename_draft == Some(Seq::<char>::empty())
            &&& t.state == (ScreenModel { rename_draft: t.state.rename_draft, ..m })
        }),
{
}

/// The name that was typed is given to the active account, and to no other, and is
/// stored; white space around it does not count, and without anything else the name is
/// taken away.
pub proof fn law_a_rename_names_the_active_account(
    m: ScreenModel,
    n: Option<String>,
    typed: Seq<char>,
    other: int,
)
    requires
        m.rename_draft == Some(typed),
        opt_view(n) == cleaned(typed),
        m.identity.active_index < m.identity.accounts.len(),
        0 <= other < m.identity.accounts.len(),
        other != m.identity.active_index,
    ensures
        ({
            let t = on_commit_rename(m, n);
            let k = m.identity.active_index as int;
            &&& t.state.rename_draft is None
            &&& t.state.identity.accounts.len() == m.identity.accounts.len()
            &&& t.state.identity.accounts[k].given_name() == n
            &&& t.state.identity.accounts[other] == m.identity.accounts[other]
            &&& t.state.identity.address == m.identity.address
            &&& t.state.identity.safes == m.identity.safes
            &&& t.answer.acts.len() == 0
            &&& trimmed(typed).len() == 0 ==> n is None && t.answer.wish == Some(
                Wish::RenameActive(None),
            )
            &&& trimmed(typed).len() > 0 ==> n is Some && n->0@ == trimmed(typed) && t.answer.wish
                == Some(Wish::RenameActive(Some(trimmed(typed))))
            &&& t.state.desk == m.desk && t.state.modal == m.modal && t.state.portfolio
                == m.portfolio
        }),
{
    crate::identity_laws::law_renaming_changes_the_name_alone(
        m.identity.accounts[m.identity.active_index as int],
        n,
    );
}

/// A name that was found for the active account names it where the user has not; what
/// was found for another address, or was not found, changes nothing.
pub proof fn law_a_found_name_names_a_nameless_account(
    m: ScreenModel,
    address: Address,
    found: String,
    why: String,
    n: Option<String>,
)
    requires
        m.identity.active_index < m.identity.accounts.len(),
    ensures
        ({
            let a = m.identity.accounts[m.identity.active_index as int];
            let t = on_name_found(m, address, Ok(Some(found)), n);
            let takes = address == m.identity.address && a.given_name() is None;
            &&& takes ==> {
                &&& t.answer.wish == Some(Wish::RenameActive(Some(found@)))
                &&& t.state.identity.accounts[m.identity.active_index as int].given_name() == n
                &&& t.state.desk == m.desk && t.state.modal == m.modal
            }
            &&& !takes ==> t.state == m && t.answer == idle()
        }),
        on_name_found(m, address, Ok(None), n) == silent(m),
        on_name_found(m, address, Err(why), n) == silent(m),
{
    crate::identity_laws::law_renaming_changes_the_name_alone(
        m.identity.accounts[m.identity.active_index as int],
        n,
    );
}

// ── dialogs ─────────────────────────────────────────────────────────────────

/// The receive dialog shows the address of the identity on screen.
pub proof fn law_the_receive_dialog_shows_the_address(m: ScreenModel, env: EnvModel)
    requires
        m.chrome.open,
    ensures
        ({
            let t = on_open_receive(m, env);
            &&& t.answer == idle()
            &&& t.state.modal == Modal::Receive(m.identity.shown())
            &&& t.state.chrome.open && !t.state.chrome.closing && t.state.chrome.start == env.now
            &&& else_same(m, t.state) && t.state.desk == m.desk && t.state.gate == m.gate
        }),
        m.modal is Receive ==> {
            let t = on_receive(m, true, env);
            &&& t.answer == idle()
            &&& t.state.chrome.closing && t.state.modal == m.modal
            &&& else_same(m, t.state) && t.state.desk == m.desk && t.state.gate == m.gate
        },
        on_receive(m, false, env) == silent(m),
{
}

/// The transaction that was picked in the feed is shown.
pub proof fn law_the_picked_row_is_shown(m: ScreenModel, i: usize, text: String, env: EnvModel)
    requires
        m.chrome.open,
    ensures
        i < m.history.rows.len() ==> {
            let t = on_open_tx(m, i, env);
            &&& t.answer == idle()
            &&& t.state.modal == Modal::TxDetails(m.history.rows[i as int])
            &&& t.state.chrome.open && !t.state.chrome.closing && t.state.chrome.start == env.now
            &&& else_same(m, t.state) && t.state.desk == m.desk && t.state.gate == m.gate
        },
        i >= m.history.rows.len() ==> on_open_tx(m, i, env) == silent(m),
        m.modal is TxDetails ==> {
            let t = on_tx_details(m, Some(TxDetailsOutcome::Closed), env);
            let c = on_tx_details(m, Some(TxDetailsOutcome::CopyText(text)), env);
            &&& t.answer == idle() && t.state.chrome.closing && t.state.modal == m.modal
            &&& c.answer.acts.len() == 2
            &&& c.answer.acts[0] == Act::Plain(Effect::WriteClipboard(text))
            &&& c.answer.acts[1] == Act::Plain(
                Effect::StartClearTimer(c.state.clipboard.generation),
            )
            &&& c.state.clipboard.clear is Some && c.state.clipboard.clear->0.expected == text
            &&& c.state.modal == m.modal && c.state.chrome == m.chrome
        },
{
}

/// A dialog that closes is gone once its transition is over, which takes 220
/// milliseconds; until then, and while it is open, it stays.
pub proof fn law_a_closing_dialog_goes(m: ScreenModel, env: EnvModel)
    requires
        env.now >= m.chrome.start,
    ensures
        m.chrome.closing && env.now - m.chrome.start >= 220 ==> on_tick(m, env).state.modal is Closed
            && !on_tick(m, env).state.chrome.open && !on_tick(m, env).state.chrome.closing,
        !m.chrome.closing || env.now - m.chrome.start < 220 ==> on_tick(m, env).state == m,
        on_tick(m, env).answer == idle(),
        on_tick(m, env).state.desk == m.desk && on_tick(m, env).state.orders == m.orders,
{
}

/// A copied text is read back when its time is up, unless something was copied since,
/// and cleared where it is still there.
pub proof fn law_the_clipboard_is_cleared(m: ScreenModel, generation: u64, actual: Option<String>)
    ensures
        ({
            let own = m.clipboard.clear is Some && m.clipboard.clear->0.generation == generation;
            let timer = on_clear_timer(m, generation);
            let read = on_clipboard_read(m, generation, actual);
            let there = actual is Some && actual->0@ == m.clipboard.clear->0.expected@;
            &&& timer.state == m
            &&& own ==> timer.answer.acts == seq![Act::Plain(Effect::ReadClipboard(generation))]
            &&& !own ==> timer.answer == idle() && read == silent(m)
            &&& own ==> read.state.clipboard.clear is None && read.state.clipboard.generation
                == m.clipboard.generation
            &&& own && there ==> read.answer.acts == seq![Act::Plain(Effect::ClearClipboard)]
            &&& own && !there ==> read.answer == idle()
            &&& read.state == (ScreenModel { clipboard: read.state.clipboard, ..m })
        }),
{
}

// ── settings ────────────────────────────────────────────────────────────────

/// The list of Safes is left, and a service set for the Safe that was picked; a wizard
/// that is done is left and the balances fetched.
pub proof fn law_settings_are_left(m: ScreenModel, index: usize, url: Option<String>)
    ensures
        m.settings is Safes ==> {
            &&& on_safes_settings(m, Some(SafesOutcome::Closed)) == silent(
                ScreenModel { settings: SettingsModel::Root, ..m },
            )
            &&& on_safes_settings(m, Some(SafesOutcome::SetServiceUrl { index, url })).state == m
            &&& on_safes_settings(
                m,
                Some(SafesOutcome::SetServiceUrl { index, url }),
            ).answer.wish == Some(Wish::SetSafeServiceUrl { index, url })
        },
        m.settings is NetworkWizard ==> {
            &&& on_wizard(m, true).state == (ScreenModel { settings: SettingsModel::Root, ..m })
            &&& on_wizard(m, true).answer.acts == seq![Act::Plain(Effect::RefreshLater)]
        },
        on_wizard(m, false) == silent(m),
{
}

/// An address that is saved from a dialog opens the contact form with it, or with its
/// name, as a new contact, and closes the dialog.
pub proof fn law_a_contact_is_saved_from_a_dialog(
    m: ScreenModel,
    address: Address,
    ens: Option<String>,
    env: EnvModel,
)
    requires
        m.chrome.open,
    ensures
        ({
            let t = on_save_contact(m, address, ens, env);
            &&& t.answer.acts == seq![Act::Plain(Effect::FocusContacts(Focus::NameField))]
            &&& t.answer.wish is None
            &&& t.state.nav == Nav::Settings
            &&& t.state.settings is Contacts
            &&& ({
                let p = t.state.settings->Contacts_0;
                &&& p.mode == (Mode::Edit { editing_addr: None })
                &&& ens is Some ==> p.draft.address_input == ens->0@
                &&& ens is None ==> p.draft.address_input == checksum_of(address@)
                &&& p.resolution == classified(p.draft.address_input)
                &&& p.draft.name.len() == 0 && p.draft.notes.len() == 0
                &&& p.pending_delete is None && p.validation.len() == 0
            })
            &&& t.state.chrome.closing
            &&& t.state.modal == m.modal && t.state.desk == m.desk && t.state.identity
                == m.identity
        }),
{
}

/// The contact pane opens with its list.
pub proof fn law_contacts_open_with_the_list()
    ensures
        contact_list().mode is List,
        contact_list().draft.name.len() == 0,
        contact_list().draft.address_input.len() == 0,
        contact_list().resolution is Empty,
        contact_list().pending_delete is None,
        contact_list().validation.len() == 0,
{
}

/// A book that the contact pane asks to store is stored; a pane that closes goes back to
/// the settings; and a name that was typed is looked up once.
pub proof fn law_the_contact_panes_wishes_are_met(
    m: ScreenModel,
    p: PaneModel,
    msg: contacts_settings::Message,
    book: Option<Seq<ContactView>>,
    roll: Seq<char>,
)
    requires
        m.settings == SettingsModel::Contacts(p),
    ensures
        ({
            let s = stepped(p, msg, book, roll);
            let t = on_contacts(m, msg, book, roll);
            let due = s.state.resolution is Resolving && s.state.dispatched != Some(s.state.seq);
            &&& s.out matches Asked::Save(v) ==> t.answer.wish == Some(Wish::SaveContacts(v))
            &&& !(s.out is Save) ==> t.answer.wish is None
            &&& s.out is Close ==> t.state.settings is Root
            &&& !(s.out is Close) ==> t.state.settings is Contacts
                && t.state.settings->Contacts_0.draft == s.state.draft
                && t.state.settings->Contacts_0.mode == s.state.mode
                && t.state.settings->Contacts_0.resolution == s.state.resolution
            &&& due ==> t.answer.acts.last() == (Act::ResolveContact {
                seq: s.state.seq,
                name: s.state.resolution->Resolving_name,
            })
            &&& due && !(s.out is Close) ==> t.state.settings->Contacts_0.dispatched == Some(
                s.state.seq,
            )
            &&& !due && s.focus is Stay ==> t.answer.acts.len() == 0
            &&& s.focus is NameField ==> t.answer.acts[0] == Act::Plain(
                Effect::FocusContacts(Focus::NameField),
            )
            &&& t.state == (ScreenModel { settings: t.state.settings, ..m })
        }),
{
}

// ── the contact form ────────────────────────────────────────────────────────

/// What is typed in the address field is an address where it reads as one, a name to be
/// looked up where it reads as one, and else not valid.
pub proof fn law_the_address_field_is_read(raw: Seq<char>, a: Address)
    ensures
        trimmed(raw).len() == 0 <==> classified(raw) is Empty,
        trimmed(raw).len() > 0 && address_of_hex(trimmed(raw)) == Some(a) ==> classified(raw)
            == Field::Hex(a),
        classified(raw) is Hex ==> address_of_hex(trimmed(raw)) == Some(classified(raw)->Hex_0),
        classified(raw) matches Field::Resolving { name } ==> name == trimmed(raw) && known_name(
            name,
        ),
        trimmed(raw).len() > 0 && address_of_hex(trimmed(raw)) is None && known_name(trimmed(raw))
            ==> classified(raw) is Resolving,
        trimmed(raw).len() > 0 && address_of_hex(trimmed(raw)) is None && !known_name(trimmed(raw))
            ==> classified(raw) is Invalid,
{
}

/// What is entered in the contact form is in the form, field by field.
pub proof fn law_the_contact_form_takes_in_what_is_entered(
    s: PaneModel,
    book: Option<Seq<ContactView>>,
    roll: Seq<char>,
    v: String,
)
    ensures
        ({
            let t = stepped(s, contacts_settings::Message::NameChanged(v), book, roll);
            &&& t.out is Nothing && t.focus is Stay
            &&& t.state.draft.name == v@
            &&& t.state.draft.address_input == s.draft.address_input
            &&& t.state.draft.kaomoji == s.draft.kaomoji
            &&& t.state.draft.notes == s.draft.notes
            &&& t.state.resolution == s.resolution && t.state.mode == s.mode
        }),
        ({
            let t = stepped(s, contacts_settings::Message::AddressChanged(v), book, roll);
            &&& t.out is Nothing && t.focus is Stay
            &&& t.state.draft.address_input == v@
            &&& t.state.resolution == classified(v@)
            &&& t.state.seq != s.seq
            &&& t.state.draft.name == s.draft.name
            &&& t.state.draft.kaomoji == s.draft.kaomoji
            &&& t.state.draft.notes == s.draft.notes
            &&& t.state.mode == s.mode
        }),
        ({
            let t = stepped(s, contacts_settings::Message::NotesChanged(v), book, roll);
            &&& t.out is Nothing && t.focus is Stay
            &&& t.state.draft.notes == v@
            &&& t.state.draft.name == s.draft.name
            &&& t.state.draft.address_input == s.draft.address_input
            &&& t.state.draft.kaomoji == s.draft.kaomoji
            &&& t.state.resolution == s.resolution && t.state.mode == s.mode
        }),
        ({
            let t = stepped(s, contacts_settings::Message::KaomojiChanged(v), book, roll);
            &&& t.out is Nothing && t.focus is Stay
            &&& t.state.draft.kaomoji == v@
            &&& t.state.draft.name == s.draft.name
            &&& t.state.draft.address_input == s.draft.address_input
            &&& t.state.draft.notes == s.draft.notes
            &&& t.state.resolution == s.resolution && t.state.mode == s.mode
        }),
        ({
            let t = stepped(s, contacts_settings::Message::RandomizeKaomoji, book, roll);
            &&& t.state.draft.kaomoji == roll
            &&& t.state.draft.name == s.draft.name
        }),
{
}

/// A contact that is edited fills the form: its name, its notes, its face, and its own
/// name where it has one, else its address.
pub proof fn law_an_edited_contact_fills_the_form(
    s: PaneModel,
    book: Seq<ContactView>,
    roll: Seq<char>,
    i: usize,
)
    requires
        i < book.len(),
    ensures
        ({
            let c = book[i as int];
            let t = stepped(s, contacts_settings::Message::OpenEdit(i), Some(book), roll);
            &&& t.out is Nothing && t.focus is NameField
            &&& t.state.mode == (Mode::Edit { editing_addr: Some(c.address) })
            &&& t.state.draft.name == c.name
            &&& t.state.draft.notes == c.notes
            &&& c.kaomoji.len() > 0 ==> t.state.draft.kaomoji == c.kaomoji
            &&& c.kaomoji.len() == 0 ==> t.state.draft.kaomoji == "(◕‿◕)"@
            &&& c.ens matches Some((name, _)) ==> t.state.draft.address_input == name
            &&& c.ens is None ==> t.state.draft.address_input == checksum_of(c.address@)
            &&& t.state.resolution == classified(t.state.draft.address_input)
            &&& t.state.pending_delete is None
        }),
        ({
            let t = stepped(s, contacts_settings::Message::OpenAdd, Some(book), roll);
            &&& t.out is Nothing && t.focus is NameField
            &&& t.state.mode == (Mode::Edit { editing_addr: None })
            &&& t.state.draft.name.len() == 0 && t.state.draft.address_input.len() == 0
            &&& t.state.draft.notes.len() == 0 && t.state.draft.kaomoji == "(◕‿◕)"@
            &&& t.state.resolution is Empty
        }),
{
}

/// A lookup that is still wanted is told as it came out.
pub proof fn law_a_lookup_is_told(
    s: PaneModel,
    name: Seq<char>,
    a: Address,
    why: Seq<char>,
)
    requires
        s.resolution == (Field::Resolving { name }),
    ensures
        lookup_done(s, s.seq, name, Ok(Some(a))).resolution == (Field::Resolved { name, addr: a }),
        lookup_done(s, s.seq, name, Ok(None)).resolution == (Field::NotFound { name }),
        lookup_done(s, s.seq, name, Err(why)).resolution == (Field::Error { name, msg: why }),
        lookup_done(s, s.seq, name, Ok(Some(a))).draft == s.draft,
        lookup_done(s, s.seq, name, Ok(Some(a))).mode == s.mode,
{
}

/// A new contact whose form is complete is added at the end of the book, as the form
/// shows it, and the form closes.
pub proof fn law_a_complete_contact_is_added(
    s: PaneModel,
    book: Seq<ContactView>,
    roll: Seq<char>,
    a: Address,
)
    requires
        s.mode == (Mode::Edit { editing_addr: None }),
        trimmed(s.draft.name).len() > 0,
        s.resolution == Field::Hex(a),
        forall|i: int| 0 <= i < book.len() ==> (#[trigger] book[i]).address != a,
    ensures
        ({
            let t = stepped(s, contacts_settings::Message::Save, Some(book), roll);
            &&& t.out is Save
            &&& t.out->Save_0.len() == book.len() + 1
            &&& t.out->Save_0.drop_last() == book
            &&& t.out->Save_0.last().name == trimmed(s.draft.name)
            &&& t.out->Save_0.last().address == a
            &&& t.out->Save_0.last().notes == s.draft.notes
            &&& t.out->Save_0.last().ens is None
            &&& trimmed(s.draft.kaomoji).len() > 0 ==> t.out->Save_0.last().kaomoji
                == s.draft.kaomoji
            &&& trimmed(s.draft.kaomoji).len() == 0 ==> t.out->Save_0.last().kaomoji.len() == 0
            &&& t.state.mode is List
        }),
{
    crate::contacts::lemma_contact_position(book, a);
    let t = stepped(s, contacts_settings::Message::Save, Some(book), roll);
    assert(form_errors(s, Some(book)) =~= Seq::<Seq<char>>::empty());
    assert(t.out->Save_0.drop_last() =~= book);
}

/// A contact that is edited keeps its place in the book, with what the form shows.
pub proof fn law_an_edited_contact_keeps_its_place(
    s: PaneModel,
    book: Seq<ContactView>,
    roll: Seq<char>,
    name: Seq<char>,
    a: Address,
    k: int,
    other: int,
)
    requires
        s.mode == (Mode::Edit { editing_addr: Some(a) }),
        trimmed(s.draft.name).len() > 0,
        s.resolution == (Field::Resolved { name, addr: a }),
        0 <= k < book.len(),
        book[k].address == a,
        forall|i: int| 0 <= i < book.len() && i != k ==> (#[trigger] book[i]).address != a,
        0 <= other < book.len(),
        other != k,
    ensures
        ({
            let t = stepped(s, contacts_settings::Message::Save, Some(book), roll);
            &&& t.out is Save
            &&& t.out->Save_0.len() == book.len()
            &&& t.out->Save_0[k].name == trimmed(s.draft.name)
            &&& t.out->Save_0[k].address == a
            &&& t.out->Save_0[k].notes == s.draft.notes
            &&& t.out->Save_0[k].ens == Some((name, a))
            &&& t.out->Save_0[other] == book[other]
        }),
{
    crate::contacts::lemma_contact_position(book, a);
    let p = crate::contacts::contact_position(book, a);
    if p < book.len() && p != k {
        assert(book[p].address != a);
    }
    assert(form_errors(s, Some(book)) =~= Seq::<Seq<char>>::empty());
}

/// The form says what is missing: a name, an address that can be used, and an address
/// that no other contact has.
pub proof fn law_the_contact_form_says_what_is_missing(
    s: PaneModel,
    book: Seq<ContactView>,
    a: Address,
    k: int,
)
    ensures
        trimmed(s.draft.name).len() == 0 ==> form_errors(s, Some(book)).len() > 0 && form_errors(
            s,
            Some(book),
        )[0] == "Name is required"@,
        trimmed(s.draft.name).len() > 0 && s.resolution is Empty ==> form_errors(s, Some(book))
            == seq!["Address or name required"@],
        trimmed(s.draft.name).len() > 0 && s.resolution is Invalid ==> form_errors(s, Some(book))
            == seq!["Not a valid 0x… address or name"@],
        trimmed(s.draft.name).len() > 0 && s.resolution is Resolving ==> form_errors(s, Some(book))
            == seq!["Resolving name… try again in a sec"@],
        trimmed(s.draft.name).len() > 0 && s.resolution == Field::Hex(a) && s.mode == (Mode::Edit {
            editing_addr: None,
        }) && 0 <= k < book.len() && book[k].address == a ==> form_errors(s, Some(book)) == seq![
            "A contact with that address already exists"@,
        ],
{
    crate::contacts::lemma_contact_position(book, a);
    let e = form_errors(s, Some(book));
    if trimmed(s.draft.name).len() > 0 {
        if s.resolution is Empty {
            assert(e =~= seq!["Address or name required"@]);
        }
        if s.resolution is Invalid {
            assert(e =~= seq!["Not a valid 0x… address or name"@]);
        }
        if s.resolution is Resolving {
            assert(e =~= seq!["Resolving name… try again in a sec"@]);
        }
        if s.resolution == Field::Hex(a) && s.mode == (Mode::Edit { editing_addr: None }) && 0 <= k
            < book.len() && book[k].address == a {
            assert(crate::contacts::contact_position(book, a) <= k);
            assert(e =~= seq!["A contact with that address already exists"@]);
        }
    }
}

// ── the dashboard ───────────────────────────────────────────────────────────

/// A new dashboard shows the signer's account, with nothing open, nothing followed and
/// nothing under review, on the pane it is told, else on Home.
pub proof fn law_a_new_dashboard_shows_the_signer(
    signer: Signer,
    accounts: Seq<AccountDescriptor>,
    safes: Seq<SafeDescriptor>,
    active_index: usize,
    cache: Map<Slot, Seq<LiveToken>>,
    nav: Option<Nav>,
    theme: u8,
    relayers: Seq<Relayer>,
    now: u64,
)
    ensures
        ({
            let m = ScreenModel::fresh(
                signer,
                accounts,
                safes,
                active_index,
                cache,
                nav,
                theme,
                relayers,
                now,
            );
            let address = match signer {
                Signer::ViewOnly(a) => a,
                Signer::Live { address, .. } => address,
            };
            &&& m.identity.address == address && m.desk.address == address
            &&& m.desk.signer == signer && !m.desk.order_op_in_flight
            &&& m.identity.accounts == accounts && m.identity.safes == safes
            &&& m.identity.active_index == active_index && m.identity.active_safe is None
            &&& m.identity.shown() == address
            &&& nav is Some ==> m.nav == nav->0
            &&& nav is None ==> m.nav == Nav::Home
            &&& m.theme == theme
            &&& m.modal is Closed && !m.chrome.open && m.settings is Root
            &&& m.orders.len() == 0 && m.gate.review is None && m.rename_draft is None
            &&& m.history.rows.len() == 0 && m.queue.pending.len() == 0
            &&& m.clipboard.clear is None
            &&& m.portfolio.cache == cache
        }),
{
}

/// A signature is being made while a dialog is busy or an order or a name is under way;
/// the Apps pane is drawn only where there are apps.
pub proof fn law_the_dashboard_knows_what_goes_on(m: ScreenModel)
    ensures
        m.desk.order_op_in_flight ==> m.signing(),
        m.modal matches Modal::Send(p) ==> (m.signing() <==> p.busy || m.desk.order_op_in_flight),
        m.modal matches Modal::SafeTxDetail(p) ==> (m.signing() <==> p.busy
            || m.desk.order_op_in_flight),
        m.modal is Closed || m.modal is Swap || m.modal is Receive ==> (m.signing()
            <==> m.desk.order_op_in_flight),
        m.nav != Nav::Apps ==> m.drawn() == m.nav,
        m.nav == Nav::Apps && (m.identity.swaps(m.desk.signer is Live)
            || m.desk.order_op_in_flight) ==> m.drawn() == Nav::Apps,
        m.nav == Nav::Apps && !m.identity.swaps(m.desk.signer is Live)
            && !m.desk.order_op_in_flight ==> m.drawn() == Nav::Home,
{
}

} // verus!
