//! What comes of what the user does beside the dialogs.

use vstd::prelude::*;

use crate::contacts_settings::ContactsPane;
use crate::screen::{
    silent, Env, EnvModel, Reply, ScreenModel, SettingsModel, SettingsPane, Turn, WalletScreen,
};
use crate::screen_fetch::{on_begin_rename, on_nav, on_reconnect, on_theme};
use crate::screen_message::Message;
use crate::screen_panes::{contact_list, on_safes_settings, on_save_contact, on_wizard};
use crate::update_dialog::on_dialog;

verus! {

/// What the user does beside the dialogs.
#[verifier::opaque]
pub open spec fn on_pane(m: ScreenModel, msg: Message, env: EnvModel) -> Turn {
    match msg {
        Message::SelectNav(nav) => on_nav(m, nav, env),
        Message::SelectTheme(theme) => on_theme(m, theme),
        Message::ReconnectHardware => on_reconnect(m),
        Message::OpenNetworksSettings => silent(
            ScreenModel { settings: SettingsModel::NetworkWizard, ..m },
        ),
        Message::NetworkWizard(done) => on_wizard(m, done),
        Message::OpenSafesSettings => silent(ScreenModel { settings: SettingsModel::Safes, ..m }),
        Message::SafesSettings(o) => on_safes_settings(m, o),
        Message::OpenAppearanceSettings => silent(
            ScreenModel { settings: SettingsModel::Appearance, ..m },
        ),
        Message::CloseAppearanceSettings => silent(
            ScreenModel { settings: SettingsModel::Root, ..m },
        ),
        Message::OpenContactsSettings => silent(
            ScreenModel { settings: SettingsModel::Contacts(contact_list()), ..m },
        ),
        Message::OpenContactsPaneWith { address, ens } => on_save_contact(m, address, ens, env),
        Message::BeginRenameAccount => on_begin_rename(m),
        Message::RenameInput(s) => silent(
            ScreenModel {
                rename_draft: if m.rename_draft is Some {
                    Some(s@)
                } else {
                    None
                },
                ..m
            },
        ),
        Message::CancelRename => silent(ScreenModel { rename_draft: None, ..m }),
        msg => on_dialog(m, msg, env),
    }
}

impl WalletScreen {
    /// Handles what the user does beside the dialogs; hands anything else on.
    pub(crate) fn update_pane(&mut self, msg: Message, env: &Env) -> (r: Reply)
        ensures
            (Turn { state: final(self)@, answer: r@ }) == on_pane(old(self)@, msg, env@),
    {
        proof {
            reveal(on_pane);
        }
        match msg {
            Message::SelectNav(nav) => {
                return self.select_nav(nav, env);
            },
            Message::SelectTheme(theme) => {
                return self.select_theme(theme);
            },
            Message::ReconnectHardware => {
                return self.reconnect_hardware();
            },
            Message::OpenNetworksSettings => {
                self.settings = SettingsPane::NetworkWizard;
                return Reply::idle();
            },
            Message::NetworkWizard(done) => {
                return self.network_wizard(done);
            },
            Message::OpenSafesSettings => {
                self.settings = SettingsPane::Safes;
                return Reply::idle();
            },
            Message::SafesSettings(o) => {
                return self.safes_settings(o);
            },
            Message::OpenAppearanceSettings => {
                self.settings = SettingsPane::Appearance;
                return Reply::idle();
            },
            Message::CloseAppearanceSettings => {
                self.settings = SettingsPane::Root;
                return Reply::idle();
            },
            Message::OpenContactsSettings => {
                self.settings = SettingsPane::Contacts(ContactsPane::new());
                return Reply::idle();
            },
            Message::OpenContactsPaneWith { address, ens } => {
                return self.open_contacts_pane_with(
                    address,
                    ens,
                    env,
                );
            },
            Message::BeginRenameAccount => {
                return self.begin_rename();
            },
            Message::RenameInput(s) => {
                if self.rename_draft.is_some() {
                    self.rename_draft = Some(s);
                }
                return Reply::idle();
            },
            Message::CancelRename => {
                self.rename_draft = None;
                return Reply::idle();
            },
            msg => {
                return self.update_dialog(msg, env);
            },
        }
    }
}

} // verus!
