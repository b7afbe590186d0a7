use vstd::prelude::*;

use crate::crypto::{decrypt, decrypt_spec, CryptoError, DecryptFailure, MasterKey};
use crate::text::{joined, owned};
use crate::model::{Field, Mode, Revealed, RevealedView, Tab};
use crate::wipe::wipe_string;

verus! {

/// A stored account: website, user name and the sealed password.
#[derive(Clone, Debug)]
pub struct Account {
    pub id: i64,
    pub website: String,
    pub username: String,
    /// Encrypted password (base64 nonce||ciphertext+tag).
    pub password: String,
}

pub ghost struct AccountView {
    pub id: i64,
    pub website: Seq<char>,
    pub username: Seq<char>,
    pub password: Seq<char>,
}

impl View for Account {
    type V = AccountView;

    open spec fn view(&self) -> AccountView {
        AccountView {
            id: self.id,
            website: self.website@,
            username: self.username@,
            password: self.password@,
        }
    }
}

impl Account {
    /// A copy of this account.
    pub fn copied(&self) -> (r: Account)
        ensures
            r@ == self@,
    {
        Account {
            id: self.id,
            website: self.website.clone(),
            username: self.username.clone(),
            password: self.password.clone(),
        }
    }
}

/// A stored API credential; the API key and client secret are sealed, and an
/// empty stored value means the optional field was not set.
#[derive(Clone, Debug)]
pub struct ApiCredential {
    pub id: i64,
    pub name: String,
    /// Encrypted (base64 nonce||ciphertext+tag).
    pub api_key: String,
    pub client_id: String,
    /// Encrypted (base64 nonce||ciphertext+tag).
    pub client_secret: String,
}

pub ghost struct ApiCredentialView {
    pub id: i64,
    pub name: Seq<char>,
    pub api_key: Seq<char>,
    pub client_id: Seq<char>,
    pub client_secret: Seq<char>,
}

impl View for ApiCredential {
    type V = ApiCredentialView;

    open spec fn view(&self) -> ApiCredentialView {
        ApiCredentialView {
            id: self.id,
            name: self.name@,
            api_key: self.api_key@,
            client_id: self.client_id@,
            client_secret: self.client_secret@,
        }
    }
}

impl ApiCredential {
    /// A copy of this credential.
    pub fn copied(&self) -> (r: ApiCredential)
        ensures
            r@ == self@,
    {
        ApiCredential {
            id: self.id,
            name: self.name.clone(),
            api_key: self.api_key.clone(),
            client_id: self.client_id.clone(),
            client_secret: self.client_secret.clone(),
        }
    }
}

/// The vault's state: what is unlocked, listed, selected, typed and shown.
pub struct App {
    pub master_key: Option<MasterKey>,
    pub tab: Tab,
    pub accounts: Vec<Account>,
    pub api_credentials: Vec<ApiCredential>,
    pub selected: usize,
    pub mode: Mode,
    pub field: Field,
    // Account form inputs
    pub input_website: String,
    pub input_username: String,
    pub input_password: String,
    // API credential form inputs
    pub input_name: String,
    pub input_api_key: String,
    pub input_client_id: String,
    pub input_client_secret: String,
    // Auth inputs
    pub input_master: String,
    pub input_master_confirm: String,
    // Reset master password inputs
    pub input_old_master: String,
    pub input_new_master: String,
    pub input_new_master_confirm: String,
    pub revealed: Revealed,
    pub editing_id: Option<i64>,
    pub message: String,
    pub should_quit: bool,
}

/// The state of an `App`, with every string as its characters.
#[verifier::ext_equal]
pub ghost struct AppView {
    pub master_key: Option<Seq<u8>>,
    pub tab: Tab,
    pub accounts: Seq<AccountView>,
    pub api_credentials: Seq<ApiCredentialView>,
    pub selected: int,
    pub mode: Mode,
    pub field: Field,
    pub input_website: Seq<char>,
    pub input_username: Seq<char>,
    pub input_password: Seq<char>,
    pub input_name: Seq<char>,
    pub input_api_key: Seq<char>,
    pub input_client_id: Seq<char>,
    pub input_client_secret: Seq<char>,
    pub input_master: Seq<char>,
    pub input_master_confirm: Seq<char>,
    pub input_old_master: Seq<char>,
    pub input_new_master: Seq<char>,
    pub input_new_master_confirm: Seq<char>,
    pub revealed: RevealedView,
    pub editing_id: Option<i64>,
    pub message: Seq<char>,
    pub should_quit: bool,
}

pub open spec fn key_view(k: Option<MasterKey>) -> Option<Seq<u8>> {
    match k {
        Some(k) => Some(k@),
        None => None,
    }
}

impl View for App {
    type V = AppView;

    open spec fn view(&self) -> AppView {
        AppView {
            master_key: key_view(self.master_key),
            tab: self.tab,
            accounts: self.accounts@.map_values(|a: Account| a@),
            api_credentials: self.api_credentials@.map_values(|c: ApiCredential| c@),
            selected: self.selected as int,
            mode: self.mode,
            field: self.field,
            input_website: self.input_website@,
            input_username: self.input_username@,
            input_password: self.input_password@,
            input_name: self.input_name@,
            input_api_key: self.input_api_key@,
            input_client_id: self.input_client_id@,
            input_client_secret: self.input_client_secret@,
            input_master: self.input_master@,
            input_master_confirm: self.input_master_confirm@,
            input_old_master: self.input_old_master@,
            input_new_master: self.input_new_master@,
            input_new_master_confirm: self.input_new_master_confirm@,
            revealed: self.revealed@,
            editing_id: self.editing_id,
            message: self.message@,
            should_quit: self.should_quit,
        }
    }
}

/// The form inputs, one per text box.
#[derive(Clone, Copy, Debug, PartialEq, Eq, Structural)]
pub enum InputSlot {
    Website,
    Username,
    Password,
    Name,
    ApiKey,
    ClientId,
    ClientSecret,
    Master,
    MasterConfirm,
    OldMaster,
    NewMaster,
    NewMasterConfirm,
}

/// Which input receives typing for a tab and a focused field. The auth and
/// reset forms use their inputs on either tab; any other pairing falls back
/// to the website input.
pub open spec fn active_slot(tab: Tab, field: Field) -> InputSlot {
    match (tab, field) {
        (Tab::Accounts, Field::Website) => InputSlot::Website,
        (Tab::Accounts, Field::Username) => InputSlot::Username,
        (Tab::Accounts, Field::Password) => InputSlot::Password,
        (Tab::ApiKeys, Field::Name) => InputSlot::Name,
        (Tab::ApiKeys, Field::ApiKey) => InputSlot::ApiKey,
        (Tab::ApiKeys, Field::ClientId) => InputSlot::ClientId,
        (Tab::ApiKeys, Field::ClientSecret) => InputSlot::ClientSecret,
        (_, Field::Master) => InputSlot::Master,
        (_, Field::MasterConfirm) => InputSlot::MasterConfirm,
        (_, Field::OldMaster) => InputSlot::OldMaster,
        (_, Field::NewMaster) => InputSlot::NewMaster,
        (_, Field::NewMasterConfirm) => InputSlot::NewMasterConfirm,
        _ => InputSlot::Website,
    }
}

/// `msg` reads `prefix` followed by the text of an error that stands for `f`.
pub open spec fn reports_failure(msg: Seq<char>, prefix: Seq<char>, f: DecryptFailure) -> bool {
    exists|e: CryptoError| e.decrypt_failure() == Some(f) && msg == prefix + e.message_spec()
}

/// An optional sealed field: empty means not set and opens to the empty text.
pub open spec fn open_optional_spec(key: Seq<u8>, blob: Seq<char>) -> Result<
    Seq<char>,
    DecryptFailure,
> {
    if blob.len() == 0 {
        Ok(Seq::<char>::empty())
    } else {
        decrypt_spec(key, blob)
    }
}

/// Text to put on the clipboard, and the name of what it is.
pub struct ClipboardRequest {
    pub text: String,
    pub label: String,
}

pub open spec fn request_view(r: Option<ClipboardRequest>) -> Option<(Seq<char>, Seq<char>)> {
    match r {
        Some(q) => Some((q.text@, q.label@)),
        None => None,
    }
}

/// The message after putting `label` on the clipboard went as `outcome` says.
pub open spec fn copy_report(label: Seq<char>, outcome: Result<(), String>) -> Seq<char> {
    match outcome {
        Ok(()) => label + " copied to clipboard."@,
        Err(e) => "Clipboard error: "@ + e@,
    }
}

pub open spec fn empty() -> Seq<char> {
    Seq::<char>::empty()
}

impl AppView {
    /// Number of items in the active tab's list.
    pub open spec fn current_len(self) -> int {
        match self.tab {
            Tab::Accounts => self.accounts.len() as int,
            Tab::ApiKeys => self.api_credentials.len() as int,
        }
    }

    /// The selection points at an item of the active list, or is 0 when that
    /// list is empty.
    pub open spec fn selection_valid(self) -> bool {
        if self.current_len() == 0 {
            self.selected == 0
        } else {
            0 <= self.selected < self.current_len()
        }
    }

    /// The selection clamped to the active list's bounds.
    pub open spec fn clamped(self) -> AppView {
        let len = self.current_len();
        if len == 0 {
            AppView { selected: 0, ..self }
        } else if self.selected >= len {
            AppView { selected: len - 1, ..self }
        } else {
            self
        }
    }

    /// The secret-bearing form inputs emptied.
    pub open spec fn without_secret_inputs(self) -> AppView {
        AppView {
            input_password: empty(),
            input_api_key: empty(),
            input_client_secret: empty(),
            ..self
        }
    }

    /// The vault locked: no key, nothing revealed, no secret typed anywhere,
    /// and the non-secret form inputs emptied too.
    pub open spec fn locked(self) -> AppView {
        AppView {
            master_key: None,
            revealed: RevealedView::Nothing,
            input_website: empty(),
            input_username: empty(),
            input_name: empty(),
            input_client_id: empty(),
            input_master: empty(),
            input_master_confirm: empty(),
            input_old_master: empty(),
            input_new_master: empty(),
            input_new_master_confirm: empty(),
            ..self.without_secret_inputs()
        }
    }

    /// No secret is held: no key, nothing revealed, no secret input.
    pub open spec fn holds_no_secret(self) -> bool {
        &&& self.master_key is None
        &&& self.revealed == RevealedView::Nothing
        &&& self.input_password == empty()
        &&& self.input_api_key == empty()
        &&& self.input_client_secret == empty()
        &&& self.input_master == empty()
        &&& self.input_master_confirm == empty()
        &&& self.input_old_master == empty()
        &&& self.input_new_master == empty()
        &&& self.input_new_master_confirm == empty()
    }

    /// What the input `slot` holds.
    pub open spec fn input(self, slot: InputSlot) -> Seq<char> {
        match slot {
            InputSlot::Website => self.input_website,
            InputSlot::Username => self.input_username,
            InputSlot::Password => self.input_password,
            InputSlot::Name => self.input_name,
            InputSlot::ApiKey => self.input_api_key,
            InputSlot::ClientId => self.input_client_id,
            InputSlot::ClientSecret => self.input_client_secret,
            InputSlot::Master => self.input_master,
            InputSlot::MasterConfirm => self.input_master_confirm,
            InputSlot::OldMaster => self.input_old_master,
            InputSlot::NewMaster => self.input_new_master,
            InputSlot::NewMasterConfirm => self.input_new_master_confirm,
        }
    }

    /// This state with the input `slot` replaced by `s`.
    pub open spec fn with_input(self, slot: InputSlot, s: Seq<char>) -> AppView {
        match slot {
            InputSlot::Website => AppView { input_website: s, ..self },
            InputSlot::Username => AppView { input_username: s, ..self },
            InputSlot::Password => AppView { input_password: s, ..self },
            InputSlot::Name => AppView { input_name: s, ..self },
            InputSlot::ApiKey => AppView { input_api_key: s, ..self },
            InputSlot::ClientId => AppView { input_client_id: s, ..self },
            InputSlot::ClientSecret => AppView { input_client_secret: s, ..self },
            InputSlot::Master => AppView { input_master: s, ..self },
            InputSlot::MasterConfirm => AppView { input_master_confirm: s, ..self },
            InputSlot::OldMaster => AppView { input_old_master: s, ..self },
            InputSlot::NewMaster => AppView { input_new_master: s, ..self },
            InputSlot::NewMasterConfirm => AppView { input_new_master_confirm: s, ..self },
        }
    }

    /// The input that typing goes to.
    pub open spec fn active_slot(self) -> InputSlot {
        active_slot(self.tab, self.field)
    }

    /// A character typed into the active input.
    pub open spec fn after_type(self, c: char) -> AppView {
        self.with_input(self.active_slot(), self.input(self.active_slot()).push(c))
    }

    /// The active input's last character removed, if it has one.
    pub open spec fn after_backspace(self) -> AppView {
        let s = self.input(self.active_slot());
        if s.len() == 0 {
            self
        } else {
            self.with_input(self.active_slot(), s.drop_last())
        }
    }

    pub open spec fn after_quit(self) -> AppView {
        AppView { should_quit: true, ..self.locked() }
    }

    pub open spec fn after_switch_tab(self) -> AppView {
        if self.mode == Mode::List || self.mode == Mode::View {
            AppView {
                tab: self.tab.toggled(),
                mode: Mode::List,
                revealed: RevealedView::Nothing,
                message: empty(),
                ..self
            }.clamped()
        } else {
            self
        }
    }

    pub open spec fn after_list_up(self) -> AppView {
        if self.current_len() > 0 {
            AppView {
                selected: if self.selected > 0 {
                    self.selected - 1
                } else {
                    0
                },
                revealed: RevealedView::Nothing,
                ..self
            }
        } else {
            self
        }
    }

    pub open spec fn after_list_down(self) -> AppView {
        let len = self.current_len();
        if len > 0 {
            AppView {
                selected: if self.selected + 1 < len - 1 {
                    self.selected + 1
                } else {
                    len - 1
                },
                revealed: RevealedView::Nothing,
                ..self
            }
        } else {
            self
        }
    }

    pub open spec fn after_start_add(self) -> AppView {
        let v = self.without_secret_inputs();
        match self.tab {
            Tab::Accounts => AppView {
                mode: Mode::Add,
                field: Field::Website,
                input_website: empty(),
                input_username: empty(),
                editing_id: None,
                message: empty(),
                ..v
            },
            Tab::ApiKeys => AppView {
                mode: Mode::Add,
                field: Field::Name,
                input_name: empty(),
                input_client_id: empty(),
                editing_id: None,
                message: empty(),
                ..v
            },
        }
    }

    pub open spec fn after_cancel_form(self) -> AppView {
        AppView {
            mode: Mode::List,
            editing_id: None,
            message: empty(),
            ..self.without_secret_inputs()
        }
    }

    pub open spec fn after_start_reset_master(self) -> AppView {
        if self.master_key is None {
            AppView { message: "Vault is locked."@, ..self }
        } else {
            AppView {
                mode: Mode::ResetMaster,
                field: Field::OldMaster,
                input_old_master: empty(),
                input_new_master: empty(),
                input_new_master_confirm: empty(),
                message: empty(),
                ..self
            }
        }
    }

    pub open spec fn after_cancel_reset_master(self) -> AppView {
        AppView {
            input_old_master: empty(),
            input_new_master: empty(),
            input_new_master_confirm: empty(),
            mode: Mode::List,
            message: empty(),
            ..self
        }
    }

    pub open spec fn after_start_view(self) -> AppView {
        if self.current_len() == 0 {
            self
        } else {
            AppView {
                mode: Mode::View,
                revealed: RevealedView::Nothing,
                message: empty(),
                ..self
            }
        }
    }

    /// `post` differs from this state at most in its message.
    pub open spec fn only_message_changed(self, post: AppView) -> bool {
        post == AppView { message: post.message, ..self }
    }

    /// Opening the selected entry into the edit form.
    pub open spec fn start_edit_rel(self, post: AppView) -> bool {
        match self.master_key {
            None => post == AppView { message: "Vault is locked."@, ..self },
            Some(key) => match self.tab {
                Tab::Accounts => if 0 <= self.selected < self.accounts.len() {
                    let a = self.accounts[self.selected];
                    match decrypt_spec(key, a.password) {
                        Ok(p) => post == AppView {
                            mode: Mode::Edit,
                            field: Field::Website,
                            editing_id: Some(a.id),
                            input_website: a.website,
                            input_username: a.username,
                            input_password: p,
                            message: empty(),
                            ..self
                        },
                        Err(f) => self.only_message_changed(post) && reports_failure(
                            post.message,
                            "Cannot decrypt password: "@,
                            f,
                        ),
                    }
                } else {
                    post == self
                },
                Tab::ApiKeys => if 0 <= self.selected < self.api_credentials.len() {
                    let c = self.api_credentials[self.selected];
                    match open_optional_spec(key, c.api_key) {
                        Err(f) => self.only_message_changed(post) && reports_failure(
                            post.message,
                            "Cannot decrypt api key: "@,
                            f,
                        ),
                        Ok(api_key) => match open_optional_spec(key, c.client_secret) {
                            Err(f) => self.only_message_changed(post) && reports_failure(
                                post.message,
                                "Cannot decrypt client secret: "@,
                                f,
                            ),
                            Ok(secret) => post == AppView {
                                mode: Mode::Edit,
                                field: Field::Name,
                                editing_id: Some(c.id),
                                input_name: c.name,
                                input_api_key: api_key,
                                input_client_id: c.client_id,
                                input_client_secret: secret,
                                message: empty(),
                                ..self
                            },
                        },
                    }
                } else {
                    post == self
                },
            },
        }
    }

    /// Showing or hiding the selected entry's secrets in the View screen.
    pub open spec fn toggle_reveal_rel(self, post: AppView) -> bool {
        match self.master_key {
            None => post == self,
            Some(key) => if self.mode != Mode::View {
                post == self
            } else if self.revealed != RevealedView::Nothing {
                post == AppView { revealed: RevealedView::Nothing, ..self }
            } else {
                match self.tab {
                    Tab::Accounts => if 0 <= self.selected < self.accounts.len() {
                        match decrypt_spec(key, self.accounts[self.selected].password) {
                            Ok(p) => post == AppView {
                                revealed: RevealedView::AccountPassword(p),
                                ..self
                            },
                            Err(f) => self.only_message_changed(post) && reports_failure(
                                post.message,
                                "Decrypt failed: "@,
                                f,
                            ),
                        }
                    } else {
                        post == self
                    },
                    Tab::ApiKeys => if 0 <= self.selected < self.api_credentials.len() {
                        let c = self.api_credentials[self.selected];
                        match open_optional_spec(key, c.api_key) {
                            Err(f) => self.only_message_changed(post) && reports_failure(
                                post.message,
                                "Decrypt failed: "@,
                                f,
                            ),
                            Ok(api_key) => match open_optional_spec(key, c.client_secret) {
                                Err(f) => self.only_message_changed(post) && reports_failure(
                                    post.message,
                                    "Decrypt failed: "@,
                                    f,
                                ),
                                Ok(secret) => post == AppView {
                                    revealed: RevealedView::Api {
                                        api_key: api_key,
                                        client_secret: secret,
                                    },
                                    ..self
                                },
                            },
                        }
                    } else {
                        post == self
                    },
                }
            },
        }
    }

    /// Opening `blob` under `key` for the clipboard; `label` names it.
    pub open spec fn copy_secret_rel(
        self,
        key: Seq<u8>,
        blob: Seq<char>,
        label: Seq<char>,
        post: AppView,
        r: Option<(Seq<char>, Seq<char>)>,
    ) -> bool {
        if blob.len() == 0 {
            r is None && post == AppView { message: label + " is not set."@, ..self }
        } else {
            match decrypt_spec(key, blob) {
                Ok(p) => r == Some((p, label)) && post == self,
                Err(f) => r is None && self.only_message_changed(post) && reports_failure(
                    post.message,
                    "Decrypt failed: "@,
                    f,
                ),
            }
        }
    }

    /// Copying a sealed field, named `label`, of the selected entry: `blob` is
    /// that field, or `None` when no entry is selected.
    pub open spec fn copy_sealed_rel(
        self,
        blob: Option<Seq<char>>,
        label: Seq<char>,
        post: AppView,
        r: Option<(Seq<char>, Seq<char>)>,
    ) -> bool {
        match self.master_key {
            None => r is None && post == AppView { message: "Vault is locked."@, ..self },
            Some(key) => match blob {
                None => r is None && post == self,
                Some(b) => self.copy_secret_rel(key, b, label, post, r),
            },
        }
    }

    /// The selected account, if the selection points at one.
    pub open spec fn selected_account(self) -> Option<AccountView> {
        if 0 <= self.selected < self.accounts.len() {
            Some(self.accounts[self.selected])
        } else {
            None
        }
    }

    /// The selected API credential, if there is one.
    pub open spec fn selected_credential(self) -> Option<ApiCredentialView> {
        if 0 <= self.selected < self.api_credentials.len() {
            Some(self.api_credentials[self.selected])
        } else {
            None
        }
    }

    pub open spec fn after_close_view(self) -> AppView {
        AppView { mode: Mode::List, revealed: RevealedView::Nothing, message: empty(), ..self }
    }
}

impl App {
    /// A fresh vault screen: unlock when the vault already has a salt,
    /// setup otherwise.
    pub fn new(has_salt: bool) -> (app: App)
        ensures
            app@.master_key is None,
            app@.tab == Tab::Accounts,
            app@.accounts.len() == 0,
            app@.api_credentials.len() == 0,
            app@.selected == 0,
            app@.mode == (if has_salt {
                Mode::Unlock
            } else {
                Mode::Setup
            }),
            app@.field == Field::Master,
            app@.holds_no_secret(),
            app@.input_website == empty(),
            app@.input_username == empty(),
            app@.input_name == empty(),
            app@.input_client_id == empty(),
            app@.editing_id is None,
            app@.message == empty(),
            !app@.should_quit,
            app@.selection_valid(),
    {
        let app = App {
            master_key: None,
            tab: Tab::Accounts,
            accounts: Vec::new(),
            api_credentials: Vec::new(),
            selected: 0,
            mode: if has_salt {
                Mode::Unlock
            } else {
                Mode::Setup
            },
            field: Field::Master,
            input_website: String::new(),
            input_username: String::new(),
            input_password: String::new(),
            input_name: String::new(),
            input_api_key: String::new(),
            input_client_id: String::new(),
            input_client_secret: String::new(),
            input_master: String::new(),
            input_master_confirm: String::new(),
            input_old_master: String::new(),
            input_new_master: String::new(),
            input_new_master_confirm: String::new(),
            revealed: Revealed::Nothing,
            editing_id: None,
            message: String::new(),
            should_quit: false,
        };
        assert(app@.accounts =~= Seq::<AccountView>::empty());
        assert(app@.api_credentials =~= Seq::<ApiCredentialView>::empty());
        app
    }

    pub fn quit(&mut self)
        ensures
            final(self)@ == old(self)@.after_quit(),
    {
        self.lock();
        self.should_quit = true;
    }

    /// Lock the vault: zeroize the master key, decrypted reveals, and any
    /// secret-bearing form inputs. Non-secret inputs (website, user name,
    /// name, client id) are simply cleared.
    pub fn lock(&mut self)
        ensures
            final(self)@ == old(self)@.locked(),
            final(self)@.holds_no_secret(),
    {
        if let Some(mut key) = self.master_key.take() {
            key.zeroize();
        }
        self.revealed.clear();
        self.clear_secret_inputs();
        wipe_string(&mut self.input_master);
        wipe_string(&mut self.input_master_confirm);
        wipe_string(&mut self.input_old_master);
        wipe_string(&mut self.input_new_master);
        wipe_string(&mut self.input_new_master_confirm);
        self.input_website = String::new();
        self.input_username = String::new();
        self.input_name = String::new();
        self.input_client_id = String::new();
    }

    /// Zeroize and clear all secret-bearing form inputs.
    pub(crate) fn clear_secret_inputs(&mut self)
        ensures
            final(self)@ == old(self)@.without_secret_inputs(),
    {
        wipe_string(&mut self.input_password);
        wipe_string(&mut self.input_api_key);
        wipe_string(&mut self.input_client_secret);
    }

    /// Number of items in the currently active tab's list.
    fn current_len(&self) -> (r: usize)
        ensures
            r == self@.current_len(),
    {
        match self.tab {
            Tab::Accounts => self.accounts.len(),
            Tab::ApiKeys => self.api_credentials.len(),
        }
    }

    /// Clamp the selection to the active tab's list bounds.
    pub fn clamp_selected(&mut self)
        ensures
            final(self)@ == old(self)@.clamped(),
            final(self)@.selection_valid(),
    {
        let len = self.current_len();
        if len == 0 {
            self.selected = 0;
        } else if self.selected >= len {
            self.selected = len - 1;
        }
    }

    pub fn switch_tab(&mut self)
        ensures
            final(self)@ == old(self)@.after_switch_tab(),
            old(self)@.mode == Mode::List || old(self)@.mode == Mode::View
                ==> final(self)@.selection_valid(),
    {
        if !(self.mode == Mode::List || self.mode == Mode::View) {
            return ;
        }
        self.tab = self.tab.toggle();
        self.mode = Mode::List;
        self.revealed.clear();
        self.message = String::new();
        self.clamp_selected();
    }

    pub fn list_up(&mut self)
        ensures
            final(self)@ == old(self)@.after_list_up(),
    {
        if self.current_len() > 0 {
            self.selected = self.selected.saturating_sub(1);
            self.revealed.clear();
        }
    }

    pub fn list_down(&mut self)
        ensures
            final(self)@ == old(self)@.after_list_down(),
    {
        let len = self.current_len();
        if len > 0 {
            let next = if self.selected < len - 1 {
                self.selected + 1
            } else {
                len - 1
            };
            self.selected = next;
            self.revealed.clear();
        }
    }

    pub fn start_add(&mut self)
        ensures
            final(self)@ == old(self)@.after_start_add(),
    {
        self.clear_secret_inputs();
        match self.tab {
            Tab::Accounts => {
                self.mode = Mode::Add;
                self.field = Field::Website;
                self.input_website = String::new();
                self.input_username = String::new();
            },
            Tab::ApiKeys => {
                self.mode = Mode::Add;
                self.field = Field::Name;
                self.input_name = String::new();
                self.input_client_id = String::new();
            },
        }
        self.editing_id = None;
        self.message = String::new();
    }

    pub fn cancel_form(&mut self)
        ensures
            final(self)@ == old(self)@.after_cancel_form(),
    {
        self.clear_secret_inputs();
        self.mode = Mode::List;
        self.editing_id = None;
        self.message = String::new();
    }

    /// Begin the master-password reset flow. Requires the vault to be
    /// unlocked (so secrets can be re-encrypted with the new key).
    pub fn start_reset_master(&mut self)
        ensures
            final(self)@ == old(self)@.after_start_reset_master(),
    {
        if self.master_key.is_none() {
            self.message = crate::text::owned("Vault is locked.");
            return ;
        }
        self.mode = Mode::ResetMaster;
        self.field = Field::OldMaster;
        self.input_old_master = String::new();
        self.input_new_master = String::new();
        self.input_new_master_confirm = String::new();
        self.message = String::new();
    }

    pub fn cancel_reset_master(&mut self)
        ensures
            final(self)@ == old(self)@.after_cancel_reset_master(),
    {
        wipe_string(&mut self.input_old_master);
        wipe_string(&mut self.input_new_master);
        wipe_string(&mut self.input_new_master_confirm);
        self.mode = Mode::List;
        self.message = String::new();
    }

    /// The input that typing goes to: the focused field's input on the
    /// active tab (see `active_slot`).
    pub fn active_input(&mut self) -> (r: &mut String)
        ensures
            r@ == old(self)@.input(old(self)@.active_slot()),
            final(self)@ == old(self)@.with_input(old(self)@.active_slot(), final(r)@),
    {
        match (self.tab, self.field) {
            (Tab::Accounts, Field::Website) => &mut self.input_website,
            (Tab::Accounts, Field::Username) => &mut self.input_username,
            (Tab::Accounts, Field::Password) => &mut self.input_password,
            (Tab::ApiKeys, Field::Name) => &mut self.input_name,
            (Tab::ApiKeys, Field::ApiKey) => &mut self.input_api_key,
            (Tab::ApiKeys, Field::ClientId) => &mut self.input_client_id,
            (Tab::ApiKeys, Field::ClientSecret) => &mut self.input_client_secret,
            (_, Field::Master) => &mut self.input_master,
            (_, Field::MasterConfirm) => &mut self.input_master_confirm,
            (_, Field::OldMaster) => &mut self.input_old_master,
            (_, Field::NewMaster) => &mut self.input_new_master,
            (_, Field::NewMasterConfirm) => &mut self.input_new_master_confirm,
            _ => &mut self.input_website,
        }
    }

    /// Type a character into the active input.
    pub fn type_char(&mut self, c: char)
        ensures
            final(self)@ == old(self)@.after_type(c),
    {
        crate::text::string_push(self.active_input(), c);
    }

    /// Remove the last character of the active input.
    pub fn backspace(&mut self)
        ensures
            final(self)@ == old(self)@.after_backspace(),
    {
        let _ = crate::text::string_pop(self.active_input());
    }

    pub fn start_edit(&mut self)
        ensures
            old(self)@.start_edit_rel(final(self)@),
    {
        let key = match &self.master_key {
            Some(k) => k,
            None => {
                self.message = owned("Vault is locked.");
                return ;
            },
        };
        match self.tab {
            Tab::Accounts => {
                if self.selected < self.accounts.len() {
                    let account = self.accounts[self.selected].copied();
                    let plaintext = match decrypt(key, account.password.as_str()) {
                        Ok(p) => p,
                        Err(e) => {
                            self.message = failure_message("Cannot decrypt password: ", &e);
                            return ;
                        },
                    };
                    self.mode = Mode::Edit;
                    self.field = Field::Website;
                    self.editing_id = Some(account.id);
                    self.input_website = account.website;
                    self.input_username = account.username;
                    self.input_password = plaintext;
                    self.message = String::new();
                }
            },
            Tab::ApiKeys => {
                if self.selected < self.api_credentials.len() {
                    let cred = self.api_credentials[self.selected].copied();
                    // Empty stored value means the optional field was unset.
                    let api_key = match open_optional(key, cred.api_key.as_str()) {
                        Ok(p) => p,
                        Err(e) => {
                            self.message = failure_message("Cannot decrypt api key: ", &e);
                            return ;
                        },
                    };
                    let client_secret = match open_optional(key, cred.client_secret.as_str()) {
                        Ok(p) => p,
                        Err(e) => {
                            self.message = failure_message("Cannot decrypt client secret: ", &e);
                            return ;
                        },
                    };
                    self.mode = Mode::Edit;
                    self.field = Field::Name;
                    self.editing_id = Some(cred.id);
                    self.input_name = cred.name;
                    self.input_api_key = api_key;
                    self.input_client_id = cred.client_id;
                    self.input_client_secret = client_secret;
                    self.message = String::new();
                }
            },
        }
    }

    pub fn toggle_reveal(&mut self)
        ensures
            old(self)@.toggle_reveal_rel(final(self)@),
    {
        if self.master_key.is_none() {
            return ;
        }
        if self.mode != Mode::View {
            return ;
        }
        if !self.revealed.is_none() {
            self.revealed.clear();
            return ;
        }
        let key = match &self.master_key {
            Some(k) => k,
            None => return ,
        };
        match self.tab {
            Tab::Accounts => {
                if self.selected >= self.accounts.len() {
                    return ;
                }
                let account = self.accounts[self.selected].copied();
                match decrypt(key, account.password.as_str()) {
                    Ok(p) => self.revealed = Revealed::AccountPassword(p),
                    Err(e) => self.message = failure_message("Decrypt failed: ", &e),
                }
            },
            Tab::ApiKeys => {
                if self.selected >= self.api_credentials.len() {
                    return ;
                }
                let cred = self.api_credentials[self.selected].copied();
                let api_key = match open_optional(key, cred.api_key.as_str()) {
                    Ok(p) => p,
                    Err(e) => {
                        self.message = failure_message("Decrypt failed: ", &e);
                        return ;
                    },
                };
                let client_secret = match open_optional(key, cred.client_secret.as_str()) {
                    Ok(p) => p,
                    Err(e) => {
                        self.message = failure_message("Decrypt failed: ", &e);
                        return ;
                    },
                };
                self.revealed = Revealed::Api { api_key, client_secret };
            },
        }
    }

    /// The selected account's user name for the clipboard.
    pub fn copy_username(&self) -> (r: Option<ClipboardRequest>)
        ensures
            request_view(r) == match self@.selected_account() {
                Some(a) => Some((a.username, "Username"@)),
                None => None,
            },
    {
        if self.selected >= self.accounts.len() {
            return None;
        }
        Some(
            ClipboardRequest {
                text: self.accounts[self.selected].username.clone(),
                label: owned("Username"),
            },
        )
    }

    /// The selected API credential's client id (plaintext) for the clipboard.
    pub fn copy_client_id(&self) -> (r: Option<ClipboardRequest>)
        ensures
            request_view(r) == match self@.selected_credential() {
                Some(c) => Some((c.client_id, "Client ID"@)),
                None => None,
            },
    {
        if self.selected >= self.api_credentials.len() {
            return None;
        }
        Some(
            ClipboardRequest {
                text: self.api_credentials[self.selected].client_id.clone(),
                label: owned("Client ID"),
            },
        )
    }

    /// The selected account's decrypted password for the clipboard.
    pub fn copy_password(&mut self) -> (r: Option<ClipboardRequest>)
        ensures
            old(self)@.copy_sealed_rel(
                match old(self)@.selected_account() {
                    Some(a) => Some(a.password),
                    None => None,
                },
                "Password"@,
                final(self)@,
                request_view(r),
            ),
    {
        if self.master_key.is_none() {
            self.message = owned("Vault is locked.");
            return None;
        }
        if self.selected >= self.accounts.len() {
            return None;
        }
        let blob = self.accounts[self.selected].password.clone();
        self.copy_secret_to_clipboard(blob.as_str(), "Password")
    }

    /// The selected API credential's decrypted api key for the clipboard.
    pub fn copy_api_key(&mut self) -> (r: Option<ClipboardRequest>)
        ensures
            old(self)@.copy_sealed_rel(
                match old(self)@.selected_credential() {
                    Some(c) => Some(c.api_key),
                    None => None,
                },
                "API key"@,
                final(self)@,
                request_view(r),
            ),
    {
        if self.master_key.is_none() {
            self.message = owned("Vault is locked.");
            return None;
        }
        if self.selected >= self.api_credentials.len() {
            return None;
        }
        let blob = self.api_credentials[self.selected].api_key.clone();
        self.copy_secret_to_clipboard(blob.as_str(), "API key")
    }

    /// The selected API credential's decrypted client secret for the clipboard.
    pub fn copy_client_secret(&mut self) -> (r: Option<ClipboardRequest>)
        ensures
            old(self)@.copy_sealed_rel(
                match old(self)@.selected_credential() {
                    Some(c) => Some(c.client_secret),
                    None => None,
                },
                "Client secret"@,
                final(self)@,
                request_view(r),
            ),
    {
        if self.master_key.is_none() {
            self.message = owned("Vault is locked.");
            return None;
        }
        if self.selected >= self.api_credentials.len() {
            return None;
        }
        let blob = self.api_credentials[self.selected].client_secret.clone();
        self.copy_secret_to_clipboard(blob.as_str(), "Client secret")
    }

    /// Decrypt `blob` with the master key for the clipboard.
    fn copy_secret_to_clipboard(&mut self, blob: &str, label: &str) -> (r: Option<
        ClipboardRequest,
    >)
        requires
            old(self).master_key is Some,
        ensures
            old(self)@.copy_secret_rel(
                old(self)@.master_key->0,
                blob@,
                label@,
                final(self)@,
                request_view(r),
            ),
    {
        if blob.is_empty() {
            self.message = joined(label, " is not set.");
            return None;
        }
        let key = match &self.master_key {
            Some(k) => k,
            None => return None,
        };
        match decrypt(key, blob) {
            Ok(p) => Some(ClipboardRequest { text: p, label: owned(label) }),
            Err(e) => {
                self.message = failure_message("Decrypt failed: ", &e);
                None
            },
        }
    }

    /// Report how putting `label` on the clipboard went.
    pub fn finish_copy(&mut self, label: &str, outcome: Result<(), String>)
        ensures
            final(self)@ == (AppView { message: copy_report(label@, outcome), ..old(self)@ }),
    {
        match outcome {
            Ok(()) => self.message = joined(label, " copied to clipboard."),
            Err(e) => self.message = joined("Clipboard error: ", e.as_str()),
        }
    }

    pub fn start_view(&mut self)
        ensures
            final(self)@ == old(self)@.after_start_view(),
    {
        if self.current_len() == 0 {
            return ;
        }
        self.mode = Mode::View;
        self.revealed.clear();
        self.message = String::new();
    }

    pub fn close_view(&mut self)
        ensures
            final(self)@ == old(self)@.after_close_view(),
    {
        self.mode = Mode::List;
        self.revealed.clear();
        self.message = String::new();
    }
}

/// `prefix` followed by the text of `e`.
pub(crate) fn failure_message(prefix: &str, e: &CryptoError) -> (r: String)
    ensures
        r@ == prefix@ + e.message_spec(),
        e.decrypt_failure() matches Some(f) ==> reports_failure(r@, prefix@, f),
{
    let m = e.message();
    joined(prefix, m.as_str())
}

/// Open an optional sealed field: an empty blob means not set.
pub(crate) fn open_optional(key: &MasterKey, blob: &str) -> (r: Result<String, CryptoError>)
    ensures
        match r {
            Ok(s) => open_optional_spec(key@, blob@) == Ok::<Seq<char>, DecryptFailure>(s@),
            Err(e) => e.decrypt_failure() matches Some(f) && open_optional_spec(key@, blob@)
                == Err::<Seq<char>, DecryptFailure>(f),
        },
{
    if blob.is_empty() {
        Ok(String::new())
    } else {
        decrypt(key, blob)
    }
}

} // verus!
