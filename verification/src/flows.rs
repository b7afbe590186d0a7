use vstd::prelude::*;
use vstd::utf8::encode_utf8;

use crate::app::{
    Account, AccountView, ApiCredential, ApiCredentialView, App, AppView, empty,
};
use crate::crypto::{
    decrypt_spec, encrypt, max_plaintext_len, CryptoError, DecryptFailure, MasterKey,
};
use crate::model::{Mode, RevealedView, Tab};
use crate::text::{joined, owned, str_trim, trim_spec};

verus! {

pub open spec fn accounts_view(v: Seq<Account>) -> Seq<AccountView> {
    v.map_values(|a: Account| a@)
}

pub open spec fn credentials_view(v: Seq<ApiCredential>) -> Seq<ApiCredentialView> {
    v.map_values(|c: ApiCredential| c@)
}

/// What a load of the account list handed back.
pub open spec fn loaded_accounts(r: Result<Vec<Account>, String>) -> Result<
    Seq<AccountView>,
    Seq<char>,
> {
    match r {
        Ok(v) => Ok(accounts_view(v@)),
        Err(e) => Err(e@),
    }
}

/// What a load of the API credential list handed back.
pub open spec fn loaded_credentials(r: Result<Vec<ApiCredential>, String>) -> Result<
    Seq<ApiCredentialView>,
    Seq<char>,
> {
    match r {
        Ok(v) => Ok(credentials_view(v@)),
        Err(e) => Err(e@),
    }
}

/// A write that saving a form asks of the store.
pub enum SaveRequest {
    InsertAccount { website: String, username: String, password: String },
    UpdateAccount { id: i64, website: String, username: String, password: String },
    InsertApiCredential { name: String, api_key: String, client_id: String, client_secret: String },
    UpdateApiCredential {
        id: i64,
        name: String,
        api_key: String,
        client_id: String,
        client_secret: String,
    },
}

pub ghost enum SaveRequestView {
    InsertAccount { website: Seq<char>, username: Seq<char>, password: Seq<char> },
    UpdateAccount { id: i64, website: Seq<char>, username: Seq<char>, password: Seq<char> },
    InsertApiCredential {
        name: Seq<char>,
        api_key: Seq<char>,
        client_id: Seq<char>,
        client_secret: Seq<char>,
    },
    UpdateApiCredential {
        id: i64,
        name: Seq<char>,
        api_key: Seq<char>,
        client_id: Seq<char>,
        client_secret: Seq<char>,
    },
}

impl View for SaveRequest {
    type V = SaveRequestView;

    open spec fn view(&self) -> SaveRequestView {
        match self {
            SaveRequest::InsertAccount { website, username, password } =>
                SaveRequestView::InsertAccount {
                website: website@,
                username: username@,
                password: password@,
            },
            SaveRequest::UpdateAccount { id, website, username, password } =>
                SaveRequestView::UpdateAccount {
                id: *id,
                website: website@,
                username: username@,
                password: password@,
            },
            SaveRequest::InsertApiCredential { name, api_key, client_id, client_secret } =>
                SaveRequestView::InsertApiCredential {
                name: name@,
                api_key: api_key@,
                client_id: client_id@,
                client_secret: client_secret@,
            },
            SaveRequest::UpdateApiCredential { id, name, api_key, client_id, client_secret } =>
                SaveRequestView::UpdateApiCredential {
                id: *id,
                name: name@,
                api_key: api_key@,
                client_id: client_id@,
                client_secret: client_secret@,
            },
        }
    }
}

impl SaveRequestView {
    pub open spec fn success_text(self) -> Seq<char> {
        match self {
            SaveRequestView::InsertAccount { .. } => "Account added."@,
            SaveRequestView::UpdateAccount { .. } => "Account updated."@,
            SaveRequestView::InsertApiCredential { .. } => "API credential added."@,
            SaveRequestView::UpdateApiCredential { .. } => "API credential updated."@,
        }
    }
}

impl SaveRequest {
    /// The message shown once the store has taken this write.
    pub fn success_message(&self) -> (r: String)
        ensures
            r@ == self@.success_text(),
    {
        match self {
            SaveRequest::InsertAccount { .. } => owned("Account added."),
            SaveRequest::UpdateAccount { .. } => owned("Account updated."),
            SaveRequest::InsertApiCredential { .. } => owned("API credential added."),
            SaveRequest::UpdateApiCredential { .. } => owned("API credential updated."),
        }
    }
}

/// Where saving a form got to: stopped with a message, a write for the
/// store, or done without a write (with the message to show).
pub enum SaveStep {
    Halted,
    Write(SaveRequest),
    Saved(String),
}

pub ghost enum SaveStepView {
    Halted,
    Write(SaveRequestView),
    Saved(Seq<char>),
}

impl View for SaveStep {
    type V = SaveStepView;

    open spec fn view(&self) -> SaveStepView {
        match self {
            SaveStep::Halted => SaveStepView::Halted,
            SaveStep::Write(r) => SaveStepView::Write(r@),
            SaveStep::Saved(m) => SaveStepView::Saved(m@),
        }
    }
}

/// A deletion that the store is asked for.
#[derive(Clone, Copy, Debug, PartialEq, Eq, Structural)]
pub enum DeleteRequest {
    Account(i64),
    ApiCredential(i64),
}

/// `blob` is the sealing of `plain` under `key`, or empty when `plain` is.
pub open spec fn seals_optional(key: Seq<u8>, blob: Seq<char>, plain: Seq<char>) -> bool {
    if plain.len() == 0 {
        blob.len() == 0
    } else {
        blob.len() > 0 && decrypt_spec(key, blob) == Ok::<Seq<char>, DecryptFailure>(plain)
    }
}

/// The message for an encryption that was refused.
pub open spec fn encryption_failed_text() -> Seq<char> {
    "Encryption failed: AES encryption failed: aead::Error"@
}

pub open spec fn too_long(plain: Seq<char>) -> bool {
    encode_utf8(plain).len() > max_plaintext_len()
}

impl AppView {
    /// The lists replaced by what was loaded, as far as loading got.
    pub open spec fn reloaded(
        self,
        accounts: Result<Seq<AccountView>, Seq<char>>,
        credentials: Result<Seq<ApiCredentialView>, Seq<char>>,
    ) -> AppView {
        match accounts {
            Err(_) => self,
            Ok(a) => match credentials {
                Err(_) => AppView { accounts: a, ..self },
                Ok(c) => AppView { accounts: a, api_credentials: c, ..self }.clamped(),
            },
        }
    }

    /// The error of a load, if one failed.
    pub open spec fn reload_error(
        accounts: Result<Seq<AccountView>, Seq<char>>,
        credentials: Result<Seq<ApiCredentialView>, Seq<char>>,
    ) -> Option<Seq<char>> {
        match accounts {
            Err(e) => Some(e),
            Ok(_) => match credentials {
                Err(e) => Some(e),
                Ok(_) => None,
            },
        }
    }

    /// Reloading, with a failed load reported in the message.
    pub open spec fn refreshed(
        self,
        accounts: Result<Seq<AccountView>, Seq<char>>,
        credentials: Result<Seq<ApiCredentialView>, Seq<char>>,
    ) -> AppView {
        let v = self.reloaded(accounts, credentials);
        match AppView::reload_error(accounts, credentials) {
            Some(e) => AppView { message: "Reload failed: "@ + e, ..v },
            None => v,
        }
    }

    /// Saving the form: what it asks of the store, and how the state changes.
    pub open spec fn save_form_rel(self, post: AppView, step: SaveStepView) -> bool {
        match self.master_key {
            None => step == SaveStepView::Halted && post == AppView {
                message: "Vault is locked."@,
                ..self
            },
            Some(key) => if self.tab == Tab::Accounts && (self.mode == Mode::Add || self.mode
                == Mode::Edit) {
                let website = trim_spec(self.input_website);
                let username = trim_spec(self.input_username);
                let password = self.input_password;
                if website.len() == 0 || username.len() == 0 || password.len() == 0 {
                    step == SaveStepView::Halted && post == AppView {
                        message: "All fields are required."@,
                        ..self
                    }
                } else {
                    match step {
                        SaveStepView::Halted => too_long(password) && post == AppView {
                            message: encryption_failed_text(),
                            ..self
                        },
                        SaveStepView::Write(
                            SaveRequestView::InsertAccount { website: w, username: u, password: p },
                        ) => !too_long(password) && self.mode == Mode::Add && post == self && w
                            == website && u == username && seals_optional(key, p, password),
                        SaveStepView::Write(
                            SaveRequestView::UpdateAccount {
                                id,
                                website: w,
                                username: u,
                                password: p,
                            },
                        ) => !too_long(password) && self.mode == Mode::Edit && self.editing_id
                            == Some(id) && post == self && w == website && u == username
                            && seals_optional(key, p, password),
                        SaveStepView::Saved(m) => !too_long(password) && self.mode == Mode::Edit
                            && self.editing_id is None && post == self
                            && m == "No account selected."@,
                        _ => false,
                    }
                }
            } else if self.tab == Tab::ApiKeys && (self.mode == Mode::Add || self.mode
                == Mode::Edit) {
                let name = trim_spec(self.input_name);
                let api_key = trim_spec(self.input_api_key);
                let client_id = trim_spec(self.input_client_id);
                let secret = trim_spec(self.input_client_secret);
                if name.len() == 0 {
                    step == SaveStepView::Halted && post == AppView {
                        message: "Name is required."@,
                        ..self
                    }
                } else {
                    match step {
                        SaveStepView::Halted => (too_long(api_key) || too_long(secret)) && post
                            == AppView { message: encryption_failed_text(), ..self },
                        SaveStepView::Write(
                            SaveRequestView::InsertApiCredential {
                                name: n,
                                api_key: a,
                                client_id: c,
                                client_secret: s,
                            },
                        ) => !too_long(api_key) && !too_long(secret) && self.mode == Mode::Add
                            && post == self && n == name && c == client_id
                            && seals_optional(key, a, api_key) && seals_optional(key, s, secret),
                        SaveStepView::Write(
                            SaveRequestView::UpdateApiCredential {
                                id,
                                name: n,
                                api_key: a,
                                client_id: c,
                                client_secret: s,
                            },
                        ) => !too_long(api_key) && !too_long(secret) && self.mode == Mode::Edit
                            && self.editing_id == Some(id) && post == self && n == name && c
                            == client_id && seals_optional(key, a, api_key)
                            && seals_optional(key, s, secret),
                        SaveStepView::Saved(m) => !too_long(api_key) && !too_long(secret)
                            && self.mode == Mode::Edit && self.editing_id is None && post == self
                            && m == "No credential selected."@,
                        _ => false,
                    }
                }
            } else {
                step == SaveStepView::Saved(empty()) && post == self
            },
        }
    }

    /// After the store answered a save: `Ok` with the message to show.
    pub open spec fn after_save(self, outcome: Result<Seq<char>, Seq<char>>) -> AppView {
        match outcome {
            Ok(m) => AppView {
                message: m,
                mode: Mode::List,
                editing_id: None,
                ..self.without_secret_inputs()
            },
            Err(e) => AppView { message: "Save failed: "@ + e, ..self },
        }
    }

    /// The deletion the selected entry asks for, if an entry is selected.
    pub open spec fn delete_request(self) -> Option<DeleteRequest> {
        match self.tab {
            Tab::Accounts => if 0 <= self.selected < self.accounts.len() {
                Some(DeleteRequest::Account(self.accounts[self.selected].id))
            } else {
                None
            },
            Tab::ApiKeys => if 0 <= self.selected < self.api_credentials.len() {
                Some(DeleteRequest::ApiCredential(self.api_credentials[self.selected].id))
            } else {
                None
            },
        }
    }

    /// After the store answered a deletion.
    pub open spec fn after_delete(self, outcome: Result<(), Seq<char>>) -> AppView {
        match outcome {
            Ok(()) => AppView {
                message: match self.tab {
                    Tab::Accounts => "Account deleted."@,
                    Tab::ApiKeys => "API credential deleted."@,
                },
                revealed: RevealedView::Nothing,
                ..self
            },
            Err(e) => AppView { message: "Delete failed: "@ + e, ..self },
        }
    }
}

pub open spec fn outcome_view(r: Result<(), String>) -> Result<(), Seq<char>> {
    match r {
        Ok(()) => Ok(()),
        Err(e) => Err(e@),
    }
}

pub open spec fn text_outcome_view(r: Result<String, String>) -> Result<Seq<char>, Seq<char>> {
    match r {
        Ok(m) => Ok(m@),
        Err(e) => Err(e@),
    }
}

/// Seal an optional field: empty stays empty (not set).
fn seal_optional(key: &MasterKey, plain: &str) -> (r: Result<String, CryptoError>)
    ensures
        match r {
            Ok(blob) => seals_optional(key@, blob@, plain@) && !too_long(plain@),
            Err(e) => e == CryptoError::EncryptionFailed && too_long(plain@),
        },
{
    if plain.is_empty() {
        Ok(String::new())
    } else {
        encrypt(key, plain)
    }
}

impl App {
    /// Replace the lists with freshly loaded ones and clamp the selection.
    /// A failed load leaves what it would have replaced as it was and is
    /// handed back.
    pub fn reload(
        &mut self,
        accounts: Result<Vec<Account>, String>,
        api_credentials: Result<Vec<ApiCredential>, String>,
    ) -> (r: Result<(), String>)
        ensures
            final(self)@ == old(self)@.reloaded(
                loaded_accounts(accounts),
                loaded_credentials(api_credentials),
            ),
            match r {
                Ok(()) => AppView::reload_error(
                    loaded_accounts(accounts),
                    loaded_credentials(api_credentials),
                ) is None,
                Err(e) => AppView::reload_error(
                    loaded_accounts(accounts),
                    loaded_credentials(api_credentials),
                ) == Some(e@),
            },
    {
        let accounts = match accounts {
            Ok(a) => a,
            Err(e) => return Err(e),
        };
        self.accounts = accounts;
        let creds = match api_credentials {
            Ok(c) => c,
            Err(e) => return Err(e),
        };
        self.api_credentials = creds;
        self.clamp_selected();
        Ok(())
    }

    /// Reload, and report a failed load in the message.
    pub fn refresh(
        &mut self,
        accounts: Result<Vec<Account>, String>,
        api_credentials: Result<Vec<ApiCredential>, String>,
    )
        ensures
            final(self)@ == old(self)@.refreshed(
                loaded_accounts(accounts),
                loaded_credentials(api_credentials),
            ),
    {
        if let Err(e) = self.reload(accounts, api_credentials) {
            self.message = joined("Reload failed: ", e.as_str());
        }
    }

    /// Check and seal the open form; the write it asks of the store, if any.
    pub fn save_form(&mut self) -> (step: SaveStep)
        ensures
            old(self)@.save_form_rel(final(self)@, step@),
    {
        let key = match &self.master_key {
            Some(k) => k,
            None => {
                self.message = owned("Vault is locked.");
                return SaveStep::Halted;
            },
        };
        if self.tab == Tab::Accounts && (self.mode == Mode::Add || self.mode == Mode::Edit) {
            let website = str_trim(self.input_website.as_str());
            let username = str_trim(self.input_username.as_str());
            let password = self.input_password.as_str();
            if website.is_empty() || username.is_empty() || password.is_empty() {
                self.message = owned("All fields are required.");
                return SaveStep::Halted;
            }
            let encrypted = match encrypt(key, password) {
                Ok(e) => e,
                Err(_) => {
                    self.message = owned("Encryption failed: AES encryption failed: aead::Error");
                    return SaveStep::Halted;
                },
            };
            if self.mode == Mode::Add {
                SaveStep::Write(
                    SaveRequest::InsertAccount {
                        website: owned(website),
                        username: owned(username),
                        password: encrypted,
                    },
                )
            } else {
                match self.editing_id {
                    Some(id) => SaveStep::Write(
                        SaveRequest::UpdateAccount {
                            id,
                            website: owned(website),
                            username: owned(username),
                            password: encrypted,
                        },
                    ),
                    None => SaveStep::Saved(owned("No account selected.")),
                }
            }
        } else if self.tab == Tab::ApiKeys && (self.mode == Mode::Add || self.mode
            == Mode::Edit) {
            let name = str_trim(self.input_name.as_str());
            let api_key = str_trim(self.input_api_key.as_str());
            let client_id = str_trim(self.input_client_id.as_str());
            let client_secret = str_trim(self.input_client_secret.as_str());
            if name.is_empty() {
                self.message = owned("Name is required.");
                return SaveStep::Halted;
            }
            // Optional secrets: encrypt only when provided; store empty
            // string as a sentinel for "not set".
            let enc_api_key = match seal_optional(key, api_key) {
                Ok(e) => e,
                Err(_) => {
                    self.message = owned("Encryption failed: AES encryption failed: aead::Error");
                    return SaveStep::Halted;
                },
            };
            let enc_secret = match seal_optional(key, client_secret) {
                Ok(e) => e,
                Err(_) => {
                    self.message = owned("Encryption failed: AES encryption failed: aead::Error");
                    return SaveStep::Halted;
                },
            };
            if self.mode == Mode::Add {
                SaveStep::Write(
                    SaveRequest::InsertApiCredential {
                        name: owned(name),
                        api_key: enc_api_key,
                        client_id: owned(client_id),
                        client_secret: enc_secret,
                    },
                )
            } else {
                match self.editing_id {
                    Some(id) => SaveStep::Write(
                        SaveRequest::UpdateApiCredential {
                            id,
                            name: owned(name),
                            api_key: enc_api_key,
                            client_id: owned(client_id),
                            client_secret: enc_secret,
                        },
                    ),
                    None => SaveStep::Saved(owned("No credential selected.")),
                }
            }
        } else {
            SaveStep::Saved(String::new())
        }
    }

    /// Apply the store's answer to a save: `Ok` carries the message to show.
    /// Returns whether the lists must be reloaded.
    pub fn finish_save(&mut self, outcome: Result<String, String>) -> (reload: bool)
        ensures
            final(self)@ == old(self)@.after_save(text_outcome_view(outcome)),
            reload == outcome is Ok,
    {
        match outcome {
            Ok(msg) => {
                self.message = msg;
                self.mode = Mode::List;
                self.editing_id = None;
                self.clear_secret_inputs();
                true
            },
            Err(e) => {
                self.message = joined("Save failed: ", e.as_str());
                false
            },
        }
    }

    /// The deletion that the selected entry asks of the store.
    pub fn delete_selected(&self) -> (r: Option<DeleteRequest>)
        ensures
            r == self@.delete_request(),
    {
        match self.tab {
            Tab::Accounts => if self.selected < self.accounts.len() {
                Some(DeleteRequest::Account(self.accounts[self.selected].id))
            } else {
                None
            },
            Tab::ApiKeys => if self.selected < self.api_credentials.len() {
                Some(DeleteRequest::ApiCredential(self.api_credentials[self.selected].id))
            } else {
                None
            },
        }
    }

    /// Apply the store's answer to a deletion. Returns whether the lists must
    /// be reloaded (and the selection clamped).
    pub fn finish_delete(&mut self, outcome: Result<(), String>) -> (reload: bool)
        ensures
            final(self)@ == old(self)@.after_delete(outcome_view(outcome)),
            reload == outcome is Ok,
    {
        match outcome {
            Ok(()) => {
                self.message = match self.tab {
                    Tab::Accounts => owned("Account deleted."),
                    Tab::ApiKeys => owned("API credential deleted."),
                };
                self.revealed.clear();
                true
            },
            Err(e) => {
                self.message = joined("Delete failed: ", e.as_str());
                false
            },
        }
    }
}

} // verus!
