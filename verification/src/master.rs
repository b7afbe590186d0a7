use vstd::prelude::*;
use vstd::utf8::encode_utf8;

use crate::app::{
    open_optional, open_optional_spec, reports_failure, Account, AccountView, ApiCredential,
    ApiCredentialView, App, AppView, empty,
};
use crate::crypto::{
    argon2id_default, base64_decode, base64_encode, base64_standard_decode,
    base64_standard_encode, check_verifier,
    derive_key, encrypt, gen_salt, make_verifier, verifier_accepts, CryptoError, MasterKey,
    SALT_LEN,
};
use crate::flows::{accounts_view, credentials_view, seals_optional, too_long};
use crate::model::{Mode, RevealedView};
use crate::text::{joined, owned, take_string};
use crate::wipe::wipe_string;

verus! {

/// What a read of a stored setting handed back: the value if it is set.
pub open spec fn meta_view(r: Result<Option<String>, String>) -> Result<
    Option<Seq<char>>,
    Seq<char>,
> {
    match r {
        Ok(Some(s)) => Ok(Some(s@)),
        Ok(None) => Ok(None),
        Err(e) => Err(e@),
    }
}

/// The salt that a stored salt text stands for, when it is well formed.
pub open spec fn stored_salt(salt_text: Seq<char>) -> Option<Seq<u8>> {
    match base64_standard_decode(salt_text) {
        Some(b) => if b.len() == SALT_LEN {
            Some(b)
        } else {
            None
        },
        None => None,
    }
}

/// `salt_text` is the standard base64 encoding of `salt`, a salt of the
/// length that keys are derived with.
pub open spec fn encodes_salt(salt_text: Seq<char>, salt: Seq<u8>) -> bool {
    salt.len() == SALT_LEN && salt_text == base64_standard_encode(salt)
}

/// `salt_text` encodes a salt from which `password` derives `key`.
pub open spec fn salt_derives(salt_text: Seq<char>, password: Seq<char>, key: Seq<u8>) -> bool {
    exists|salt: Seq<u8>|
        #[trigger] encodes_salt(salt_text, salt) && argon2id_default(password, salt) == Some(key)
}

/// The key that `password` unlocks with a stored salt text and verifier, if
/// it unlocks the vault at all.
pub open spec fn unlock_key(password: Seq<char>, salt_text: Seq<char>, verifier: Seq<char>) -> Option<
    Seq<u8>,
> {
    match stored_salt(salt_text) {
        Some(salt) => match argon2id_default(password, salt) {
            Some(k) => if verifier_accepts(k, verifier) {
                Some(k)
            } else {
                None
            },
            None => None,
        },
        None => None,
    }
}

/// Argon2 refuses a password of more than `u32::MAX` bytes.
pub open spec fn password_too_long(password: Seq<char>) -> bool {
    encode_utf8(password).len() > 0xffff_ffff
}

pub open spec fn key_derivation_failed_text() -> Seq<char> {
    "Key derivation failed: Argon2 hashing failed: Password"@
}

/// `new_blob` holds, under `new_key`, the secret that `old_blob` holds under
/// `old_key` (empty for a secret that is not set or empty).
pub open spec fn resealed(
    old_key: Seq<u8>,
    new_key: Seq<u8>,
    old_blob: Seq<char>,
    new_blob: Seq<char>,
) -> bool {
    match open_optional_spec(old_key, old_blob) {
        Ok(p) => seals_optional(new_key, new_blob, p),
        Err(_) => false,
    }
}

/// Re-sealing `old_blob` cannot succeed: it does not open under `old_key`, or
/// its secret is longer than AES-GCM seals.
pub open spec fn reseal_fails(old_key: Seq<u8>, old_blob: Seq<char>) -> bool {
    match open_optional_spec(old_key, old_blob) {
        Err(_) => true,
        Ok(p) => too_long(p),
    }
}

pub open spec fn account_resealed(
    old_key: Seq<u8>,
    new_key: Seq<u8>,
    a: AccountView,
    b: AccountView,
) -> bool {
    &&& b.id == a.id
    &&& b.website == a.website
    &&& b.username == a.username
    &&& resealed(old_key, new_key, a.password, b.password)
}

pub open spec fn credential_resealed(
    old_key: Seq<u8>,
    new_key: Seq<u8>,
    c: ApiCredentialView,
    d: ApiCredentialView,
) -> bool {
    &&& d.id == c.id
    &&& d.name == c.name
    &&& d.client_id == c.client_id
    &&& resealed(old_key, new_key, c.api_key, d.api_key)
    &&& resealed(old_key, new_key, c.client_secret, d.client_secret)
}

/// `msg` reads `prefix` followed by the text of the error that re-sealing
/// `old_blob` runs into: the failure to open it, or else the refusal to seal
/// its too long secret.
pub open spec fn reports_reseal_error(
    old_key: Seq<u8>,
    old_blob: Seq<char>,
    msg: Seq<char>,
    prefix: Seq<char>,
) -> bool {
    match open_optional_spec(old_key, old_blob) {
        Err(f) => reports_failure(msg, prefix, f),
        Ok(_) => msg == prefix + CryptoError::EncryptionFailed.message_spec(),
    }
}

/// The salt, verifier and key of a newly created vault.
pub struct SetupPlan {
    pub salt: String,
    pub verifier: String,
    pub key: MasterKey,
}

/// Everything re-sealed under a new master key, ready to be stored at once.
pub struct ResetPlan {
    pub accounts: Vec<Account>,
    pub api_credentials: Vec<ApiCredential>,
    pub salt: String,
    pub verifier: String,
    pub key: MasterKey,
}

pub ghost struct ResetPlanView {
    pub accounts: Seq<AccountView>,
    pub api_credentials: Seq<ApiCredentialView>,
    pub salt: Seq<char>,
    pub verifier: Seq<char>,
    pub key: Seq<u8>,
}

pub open spec fn reset_plan_view(p: Option<ResetPlan>) -> Option<ResetPlanView> {
    match p {
        Some(p) => Some(
            ResetPlanView {
                accounts: accounts_view(p.accounts@),
                api_credentials: credentials_view(p.api_credentials@),
                salt: p.salt@,
                verifier: p.verifier@,
                key: p.key@,
            },
        ),
        None => None,
    }
}

/// Why storing a master password reset failed.
pub enum ResetWriteError {
    /// The transaction could not begin.
    Begin(String),
    /// One of the writes failed.
    Write(String),
    /// The commit failed.
    Commit(String),
}

/// The password of account `i` of `accounts` cannot be re-sealed.
pub open spec fn account_fails(accounts: Seq<AccountView>, old_key: Seq<u8>, i: int) -> bool {
    reseal_fails(old_key, accounts[i].password)
}

/// A secret of credential `i` cannot be re-sealed.
pub open spec fn credential_fails(
    credentials: Seq<ApiCredentialView>,
    old_key: Seq<u8>,
    i: int,
) -> bool {
    reseal_fails(old_key, credentials[i].api_key) || reseal_fails(
        old_key,
        credentials[i].client_secret,
    )
}

/// None of the first `n` accounts fails to re-seal.
pub open spec fn accounts_reseal_before(
    accounts: Seq<AccountView>,
    old_key: Seq<u8>,
    n: int,
) -> bool {
    forall|j: int| 0 <= j < n ==> !#[trigger] account_fails(accounts, old_key, j)
}

/// None of the first `n` credentials fails to re-seal.
pub open spec fn credentials_reseal_before(
    credentials: Seq<ApiCredentialView>,
    old_key: Seq<u8>,
    n: int,
) -> bool {
    forall|j: int| 0 <= j < n ==> !#[trigger] credential_fails(credentials, old_key, j)
}

/// `msg` reports the failure of account `i` to re-seal.
pub open spec fn account_failure_reported(
    accounts: Seq<AccountView>,
    old_key: Seq<u8>,
    i: int,
    msg: Seq<char>,
) -> bool {
    reports_reseal_error(
        old_key,
        accounts[i].password,
        msg,
        "Re-encrypt failed for account "@ + accounts[i].website + ": "@,
    )
}

/// `msg` reports the failure of credential `i` to re-seal: its API key's
/// if that fails, else its client secret's.
pub open spec fn credential_failure_reported(
    credentials: Seq<ApiCredentialView>,
    old_key: Seq<u8>,
    i: int,
    msg: Seq<char>,
) -> bool {
    let c = credentials[i];
    let prefix = "Re-encrypt failed for "@ + c.name + ": "@;
    if reseal_fails(old_key, c.api_key) {
        reports_reseal_error(old_key, c.api_key, msg, prefix)
    } else {
        reports_reseal_error(old_key, c.client_secret, msg, prefix)
    }
}

impl AppView {
    /// Submitting the unlock form with the stored salt and verifier as read.
    pub open spec fn unlock_rel(
        self,
        salt: Result<Option<Seq<char>>, Seq<char>>,
        verifier: Result<Option<Seq<char>>, Seq<char>>,
        post: AppView,
        unlocked: bool,
    ) -> bool {
        let password = self.input_master;
        let base = AppView { input_master: empty(), ..self };
        match salt {
            Err(e) => !unlocked && post == AppView { message: "DB error: "@ + e, ..base },
            Ok(None) => !unlocked && post == AppView {
                message: "Vault is not initialized."@,
                ..base
            },
            Ok(Some(s)) => match base64_standard_decode(s) {
                None => !unlocked && base.only_message_changed(post)
                    && "Salt decode failed: "@.is_prefix_of(post.message),
                Some(bytes) => if bytes.len() != SALT_LEN {
                    !unlocked && post == AppView { message: "Corrupt salt."@, ..base }
                } else {
                    match argon2id_default(password, bytes) {
                        None => !unlocked && post == AppView {
                            message: key_derivation_failed_text(),
                            ..base
                        },
                        Some(k) => match verifier {
                            Err(e) => !unlocked && post == AppView {
                                message: "DB error: "@ + e,
                                ..base
                            },
                            Ok(None) => !unlocked && post == AppView {
                                message: "Corrupt vault."@,
                                ..base
                            },
                            Ok(Some(v)) => if verifier_accepts(k, v) {
                                unlocked && post == AppView {
                                    master_key: Some(k),
                                    mode: Mode::List,
                                    message: empty(),
                                    ..base
                                }
                            } else {
                                !unlocked && post == AppView {
                                    message: "Wrong master password."@,
                                    ..base
                                }
                            },
                        },
                    }
                },
            },
        }
    }

    /// `accounts` and `credentials` hold every secret of this state, moved
    /// from `old_key` to `new_key`, in the same order.
    pub open spec fn secrets_resealed(
        self,
        old_key: Seq<u8>,
        new_key: Seq<u8>,
        accounts: Seq<AccountView>,
        credentials: Seq<ApiCredentialView>,
    ) -> bool {
        &&& accounts.len() == self.accounts.len()
        &&& forall|i: int|
            0 <= i < self.accounts.len() ==> account_resealed(
                old_key,
                new_key,
                #[trigger] self.accounts[i],
                accounts[i],
            )
        &&& credentials.len() == self.api_credentials.len()
        &&& forall|i: int|
            0 <= i < self.api_credentials.len() ==> credential_resealed(
                old_key,
                new_key,
                #[trigger] self.api_credentials[i],
                credentials[i],
            )
    }

    /// The plan re-seals every secret of this state under the plan's key,
    /// its salt text is the encoding of the salt that `new_password` derives
    /// that key from, and its verifier accepts that key.
    pub open spec fn plan_reseals(
        self,
        old_key: Seq<u8>,
        new_password: Seq<char>,
        plan: ResetPlanView,
    ) -> bool {
        &&& self.secrets_resealed(old_key, plan.key, plan.accounts, plan.api_credentials)
        &&& unlock_key(new_password, plan.salt, plan.verifier) == Some(plan.key)
        &&& salt_derives(plan.salt, new_password, plan.key)
    }

    /// Every secret re-seals.
    pub open spec fn all_reseal(self, old_key: Seq<u8>) -> bool {
        &&& accounts_reseal_before(self.accounts, old_key, self.accounts.len() as int)
        &&& credentials_reseal_before(self.api_credentials, old_key, self.api_credentials.len() as int)
    }

    /// Every secret re-seals and the new password derives a key.
    pub open spec fn reset_unblocked(self, old_key: Seq<u8>, new_password: Seq<char>) -> bool {
        &&& !password_too_long(new_password)
        &&& self.all_reseal(old_key)
    }

    /// Why a verified reset could not be planned, as `msg` reports it: the
    /// new key cannot be derived, or else a secret fails to re-seal.
    pub open spec fn reset_failed(self, old_key: Seq<u8>, new_password: Seq<char>, msg: Seq<
        char,
    >) -> bool {
        if password_too_long(new_password) {
            msg == key_derivation_failed_text()
        } else {
            self.reseal_failed(old_key, msg)
        }
    }

    /// `msg` reports the first account that fails to re-seal, or else, if
    /// none does, the first credential that does.
    pub open spec fn reseal_failed(self, old_key: Seq<u8>, msg: Seq<char>) -> bool {
        if exists|i: int| 0 <= i < self.accounts.len() && #[trigger] account_fails(self.accounts, old_key, i) {
            exists|i: int|
                0 <= i < self.accounts.len() && #[trigger] account_fails(self.accounts, old_key, i)
                    && accounts_reseal_before(self.accounts, old_key, i)
                    && account_failure_reported(self.accounts, old_key, i, msg)
        } else {
            exists|i: int|
                0 <= i < self.api_credentials.len() && #[trigger] credential_fails(self.api_credentials, old_key, i)
                    && credentials_reseal_before(self.api_credentials, old_key, i)
                    && credential_failure_reported(self.api_credentials, old_key, i, msg)
        }
    }

    /// Submitting the master password reset form with the stored salt and
    /// verifier as read.
    pub open spec fn reset_rel(
        self,
        salt: Result<Option<Seq<char>>, Seq<char>>,
        verifier: Result<Option<Seq<char>>, Seq<char>>,
        post: AppView,
        plan: Option<ResetPlanView>,
    ) -> bool {
        let old_password = self.input_old_master;
        let new_password = self.input_new_master;
        let base = AppView {
            input_old_master: empty(),
            input_new_master: empty(),
            input_new_master_confirm: empty(),
            ..self
        };
        if new_password.len() == 0 {
            plan is None && post == AppView { message: "New password cannot be empty."@, ..base }
        } else if new_password != self.input_new_master_confirm {
            plan is None && post == AppView { message: "New passwords do not match."@, ..base }
        } else {
            match salt {
                Ok(Some(s)) => match base64_standard_decode(s) {
                    None => plan is None && base.only_message_changed(post)
                        && "Salt decode failed: "@.is_prefix_of(post.message),
                    Some(bytes) => if bytes.len() != SALT_LEN {
                        plan is None && post == AppView { message: "Corrupt salt."@, ..base }
                    } else {
                        match argon2id_default(old_password, bytes) {
                            None => plan is None && post == AppView {
                                message: key_derivation_failed_text(),
                                ..base
                            },
                            Some(old_key) => match verifier {
                                Ok(Some(v)) => if !verifier_accepts(old_key, v) {
                                    plan is None && post == AppView {
                                        message: "Old master password is incorrect."@,
                                        ..base
                                    }
                                } else {
                                    match plan {
                                        Some(p) => post == base && self.reset_unblocked(
                                            old_key,
                                            new_password,
                                        ) && self.plan_reseals(old_key, new_password, p),
                                        None => base.only_message_changed(post)
                                            && self.reset_failed(old_key, new_password, post.message),
                                    }
                                },
                                _ => plan is None && post == AppView {
                                    message: "Corrupt vault."@,
                                    ..base
                                },
                            },
                        }
                    },
                },
                _ => plan is None && post == AppView {
                    message: "Vault is not initialized."@,
                    ..base
                },
            }
        }
    }

    /// After the store answered the reset's writes.
    pub open spec fn after_reset(self, new_key: Seq<u8>, outcome: Result<(), ResetWriteError>) -> AppView {
        match outcome {
            Ok(()) => AppView {
                master_key: Some(new_key),
                mode: Mode::List,
                revealed: RevealedView::Nothing,
                message: "Master password changed."@,
                ..self
            },
            Err(ResetWriteError::Begin(e)) => AppView { message: "Transaction failed: "@ + e@, ..self },
            Err(ResetWriteError::Write(e)) => AppView { message: "DB write failed: "@ + e@, ..self },
            Err(ResetWriteError::Commit(e)) => AppView { message: "Reset failed: "@ + e@, ..self },
        }
    }
}

/// The 32 bytes of `bytes` as an array.
fn salt_array(bytes: &Vec<u8>) -> (r: [u8; SALT_LEN])
    requires
        bytes@.len() == SALT_LEN,
    ensures
        r@ == bytes@,
{
    let mut salt = [0u8; 32];
    let mut i: usize = 0;
    while i < SALT_LEN
        invariant
            i <= SALT_LEN,
            bytes@.len() == SALT_LEN,
            salt@.len() == SALT_LEN,
            forall|j: int| 0 <= j < i ==> salt@[j] == bytes@[j],
        decreases SALT_LEN - i,
    {
        salt[i] = bytes[i];
        i = i + 1;
    }
    assert(salt@ =~= bytes@);
    salt
}

/// `prefix`, `name`, ": " and the text of `e`.
fn reseal_message(prefix: &str, name: &str, e: &CryptoError) -> (r: String)
    ensures
        r@ == prefix@ + name@ + ": "@ + e.message_spec(),
{
    let head = joined(prefix, name);
    let head = joined(head.as_str(), ": ");
    let m = e.message();
    joined(head.as_str(), m.as_str())
}

/// Re-seal one optional secret from `old_key` to `new_key`.
fn reseal(old_key: &MasterKey, new_key: &MasterKey, blob: &str) -> (r: Result<String, CryptoError>)
    ensures
        match r {
            Ok(b) => resealed(old_key@, new_key@, blob@, b@) && !reseal_fails(old_key@, blob@),
            Err(e) => match open_optional_spec(old_key@, blob@) {
                Err(f) => e.decrypt_failure() == Some(f),
                Ok(p) => too_long(p) && e == CryptoError::EncryptionFailed,
            },
        },
{
    let plain = open_optional(old_key, blob)?;
    if plain.as_str().is_empty() {
        Ok(String::new())
    } else {
        encrypt(new_key, plain.as_str())
    }
}

impl App {
    /// Unlock with the typed master password against the stored salt and
    /// verifier (as read from the store). Returns whether the vault is now
    /// unlocked, in which case the lists must be reloaded.
    pub fn submit_unlock(
        &mut self,
        salt: Result<Option<String>, String>,
        verifier: Result<Option<String>, String>,
    ) -> (unlocked: bool)
        ensures
            old(self)@.unlock_rel(meta_view(salt), meta_view(verifier), final(self)@, unlocked),
            unlocked <==> (salt matches Ok(Some(s)) && verifier matches Ok(Some(v)) && unlock_key(
                old(self)@.input_master,
                s@,
                v@,
            ) is Some),
            unlocked ==> (salt matches Ok(Some(s)) && verifier matches Ok(Some(v))
                && final(self)@.master_key == unlock_key(old(self)@.input_master, s@, v@)),
    {
        let mut password = take_string(&mut self.input_master);
        let salt_b64 = match salt {
            Ok(Some(s)) => s,
            Ok(None) => {
                wipe_string(&mut password);
                self.message = owned("Vault is not initialized.");
                return false;
            },
            Err(e) => {
                wipe_string(&mut password);
                self.message = joined("DB error: ", e.as_str());
                return false;
            },
        };
        let salt_bytes = match base64_decode(salt_b64.as_str()) {
            Ok(b) => b,
            Err(e) => {
                wipe_string(&mut password);
                self.message = joined("Salt decode failed: ", e.as_str());
                return false;
            },
        };
        if salt_bytes.len() != SALT_LEN {
            wipe_string(&mut password);
            self.message = owned("Corrupt salt.");
            return false;
        }
        let salt_arr = salt_array(&salt_bytes);
        let mut key = match derive_key(password.as_str(), &salt_arr) {
            Ok(k) => k,
            Err(_) => {
                wipe_string(&mut password);
                self.message = owned("Key derivation failed: Argon2 hashing failed: Password");
                return false;
            },
        };
        // Done with the plaintext master password.
        wipe_string(&mut password);
        let verifier = match verifier {
            Ok(Some(v)) => v,
            Ok(None) => {
                key.zeroize();
                self.message = owned("Corrupt vault.");
                return false;
            },
            Err(e) => {
                key.zeroize();
                self.message = joined("DB error: ", e.as_str());
                return false;
            },
        };
        match check_verifier(&key, verifier.as_str()) {
            Ok(true) => {
                self.master_key = Some(key);
                self.mode = Mode::List;
                self.message = String::new();
                true
            },
            _ => {
                key.zeroize();
                self.message = owned("Wrong master password.");
                false
            },
        }
    }

    /// Create the vault from the setup form: a fresh salt, the key derived
    /// from the typed password, and a verifier sealed under it, to be stored.
    pub fn submit_setup(&mut self) -> (plan: Option<SetupPlan>)
        ensures
            ({
                let password = old(self)@.input_master;
                let base = AppView {
                    input_master: empty(),
                    input_master_confirm: empty(),
                    ..old(self)@
                };
                if password.len() == 0 {
                    plan is None && final(self)@ == AppView {
                        message: "Password cannot be empty."@,
                        ..old(self)@
                    }
                } else if password != old(self)@.input_master_confirm {
                    plan is None && final(self)@ == AppView {
                        message: "Passwords do not match."@,
                        ..old(self)@
                    }
                } else {
                    match plan {
                        Some(p) => final(self)@ == base && unlock_key(password, p.salt@, p.verifier@)
                            == Some(p.key@) && salt_derives(p.salt@, password, p.key@),
                        None => password_too_long(password) && final(self)@ == AppView {
                            message: key_derivation_failed_text(),
                            ..base
                        },
                    }
                }
            }),
    {
        if self.input_master.as_str().is_empty() {
            self.message = owned("Password cannot be empty.");
            return None;
        }
        if self.input_master != self.input_master_confirm {
            self.message = owned("Passwords do not match.");
            return None;
        }
        let salt = gen_salt();
        let mut password = take_string(&mut self.input_master);
        wipe_string(&mut self.input_master_confirm);
        let key = match derive_key(password.as_str(), &salt) {
            Ok(k) => k,
            Err(_) => {
                wipe_string(&mut password);
                self.message = owned("Key derivation failed: Argon2 hashing failed: Password");
                return None;
            },
        };
        wipe_string(&mut password);
        let verifier = match make_verifier(&key) {
            Ok(v) => v,
            Err(_) => {
                let mut key = key;
                key.zeroize();
                self.message = owned("Verifier failed: AES encryption failed: aead::Error");
                return None;
            },
        };
        let salt_b64 = base64_encode(salt.as_slice());
        assert(encodes_salt(salt_b64@, salt@));
        Some(SetupPlan { salt: salt_b64, verifier, key })
    }

    /// Apply the store's answer to writing the new vault's salt and verifier.
    /// Returns whether the vault is now unlocked and the lists must be reloaded.
    pub fn finish_setup(&mut self, key: MasterKey, outcome: Result<(), String>) -> (unlocked: bool)
        ensures
            unlocked == outcome is Ok,
            final(self)@ == match outcome {
                Ok(()) => AppView {
                    master_key: Some(key@),
                    mode: Mode::List,
                    message: "Vault created."@,
                    ..old(self)@
                },
                Err(e) => AppView { message: "DB error: "@ + e@, ..old(self)@ },
            },
    {
        match outcome {
            Ok(()) => {
                self.master_key = Some(key);
                self.mode = Mode::List;
                self.message = owned("Vault created.");
                true
            },
            Err(e) => {
                let mut key = key;
                key.zeroize();
                self.message = joined("DB error: ", e.as_str());
                false
            },
        }
    }

    /// Verify the old password, derive a new key, and re-encrypt every
    /// secret in memory; the plan is stored at once, or nothing is.
    #[verifier::loop_isolation(false)]
    pub fn submit_reset_master(
        &mut self,
        salt: Result<Option<String>, String>,
        verifier: Result<Option<String>, String>,
    ) -> (plan: Option<ResetPlan>)
        ensures
            old(self)@.reset_rel(
                meta_view(salt),
                meta_view(verifier),
                final(self)@,
                reset_plan_view(plan),
            ),
    {
        let mut old_password = take_string(&mut self.input_old_master);
        let mut new_password = take_string(&mut self.input_new_master);
        let mut new_password_confirm = take_string(&mut self.input_new_master_confirm);

        // Validate new password locally before touching the store.
        if new_password.as_str().is_empty() {
            self.message = owned("New password cannot be empty.");
            wipe_string(&mut old_password);
            wipe_string(&mut new_password);
            wipe_string(&mut new_password_confirm);
            return None;
        }
        if new_password != new_password_confirm {
            self.message = owned("New passwords do not match.");
            wipe_string(&mut old_password);
            wipe_string(&mut new_password);
            wipe_string(&mut new_password_confirm);
            return None;
        }
        let salt_b64 = match salt {
            Ok(Some(s)) => s,
            _ => {
                self.message = owned("Vault is not initialized.");
                wipe_string(&mut old_password);
                wipe_string(&mut new_password);
                wipe_string(&mut new_password_confirm);
                return None;
            },
        };
        let salt_bytes = match base64_decode(salt_b64.as_str()) {
            Ok(b) => b,
            Err(e) => {
                self.message = joined("Salt decode failed: ", e.as_str());
                wipe_string(&mut old_password);
                wipe_string(&mut new_password);
                wipe_string(&mut new_password_confirm);
                return None;
            },
        };
        if salt_bytes.len() != SALT_LEN {
            self.message = owned("Corrupt salt.");
            wipe_string(&mut old_password);
            wipe_string(&mut new_password);
            wipe_string(&mut new_password_confirm);
            return None;
        }
        let salt_arr = salt_array(&salt_bytes);
        let mut old_key = match derive_key(old_password.as_str(), &salt_arr) {
            Ok(k) => k,
            Err(_) => {
                self.message = owned("Key derivation failed: Argon2 hashing failed: Password");
                wipe_string(&mut old_password);
                wipe_string(&mut new_password);
                wipe_string(&mut new_password_confirm);
                return None;
            },
        };
        wipe_string(&mut old_password);
        let verifier = match verifier {
            Ok(Some(v)) => v,
            _ => {
                old_key.zeroize();
                self.message = owned("Corrupt vault.");
                wipe_string(&mut new_password);
                wipe_string(&mut new_password_confirm);
                return None;
            },
        };
        let verified = match check_verifier(&old_key, verifier.as_str()) {
            Ok(b) => b,
            Err(_) => false,
        };
        if !verified {
            old_key.zeroize();
            self.message = owned("Old master password is incorrect.");
            wipe_string(&mut new_password);
            wipe_string(&mut new_password_confirm);
            return None;
        }
        // Derive the new key from a fresh salt.
        let new_salt = gen_salt();
        let mut new_key = match derive_key(new_password.as_str(), &new_salt) {
            Ok(k) => k,
            Err(_) => {
                old_key.zeroize();
                self.message = owned("Key derivation failed: Argon2 hashing failed: Password");
                wipe_string(&mut new_password);
                wipe_string(&mut new_password_confirm);
                return None;
            },
        };
        wipe_string(&mut new_password);
        wipe_string(&mut new_password_confirm);

        // Re-encrypt every secret in memory first; if any fails, nothing is
        // written.
        let (accounts, credentials) = match self.reseal_secrets(&old_key, &new_key) {
            Ok(r) => r,
            Err(msg) => {
                old_key.zeroize();
                new_key.zeroize();
                self.message = msg;
                return None;
            },
        };
        // All crypto succeeded; the store writes everything in one transaction.
        let new_verifier = match make_verifier(&new_key) {
            Ok(v) => v,
            Err(_) => {
                old_key.zeroize();
                new_key.zeroize();
                self.message = owned("Verifier failed: AES encryption failed: aead::Error");
                return None;
            },
        };
        let new_salt_b64 = base64_encode(new_salt.as_slice());
        proof {
            assert(new_salt@.len() == SALT_LEN);
            assert(stored_salt(new_salt_b64@) == Some(new_salt@));
            assert(unlock_key(old(self)@.input_new_master, new_salt_b64@, new_verifier@) == Some(new_key@));
            assert(encodes_salt(new_salt_b64@, new_salt@));
        }
        old_key.zeroize();
        Some(
            ResetPlan {
                accounts,
                api_credentials: credentials,
                salt: new_salt_b64,
                verifier: new_verifier,
                key: new_key,
            },
        )
    }

    /// Every secret of the vault re-sealed from `old_key` to `new_key`, in
    /// order; the first failure stops the work and its message is returned.
    fn reseal_secrets(&self, old_key: &MasterKey, new_key: &MasterKey) -> (r: Result<
        (Vec<Account>, Vec<ApiCredential>),
        String,
    >)
        ensures
            match r {
                Ok((a, c)) => self@.all_reseal(old_key@) && self@.secrets_resealed(
                    old_key@,
                    new_key@,
                    accounts_view(a@),
                    credentials_view(c@),
                ),
                Err(msg) => self@.reseal_failed(old_key@, msg@),
            },
    {
        let ghost v = self@;
        let mut accounts: Vec<Account> = Vec::new();
        let n = self.accounts.len();
        let mut i: usize = 0;
        while i < n
            invariant
                i <= n,
                n == v.accounts.len(),
                v == self@,
                accounts@.len() == i,
                accounts_reseal_before(v.accounts, old_key@, i as int),
                forall|j: int|
                    0 <= j < i ==> account_resealed(
                        old_key@,
                        new_key@,
                        #[trigger] v.accounts[j],
                        accounts@[j]@,
                    ),
            decreases n - i,
        {
            let account = self.accounts[i].copied();
            let blob = match reseal(old_key, new_key, account.password.as_str()) {
                Ok(b) => b,
                Err(e) => {
                    let msg = reseal_message(
                        "Re-encrypt failed for account ",
                        account.website.as_str(),
                        &e,
                    );
                    proof {
                        assert(v.accounts[i as int] == account@);
                        assert(account_fails(v.accounts, old_key@, i as int));
                        if open_optional_spec(old_key@, account.password@) is Err {
                            assert(reports_failure(
                                msg@,
                                "Re-encrypt failed for account "@ + account.website@ + ": "@,
                                e.decrypt_failure()->0,
                            ));
                        }
                        assert(account_failure_reported(v.accounts, old_key@, i as int, msg@));
                    }
                    return Err(msg);
                },
            };
            accounts.push(
                Account {
                    id: account.id,
                    website: account.website,
                    username: account.username,
                    password: blob,
                },
            );
            i = i + 1;
        }
        let mut credentials: Vec<ApiCredential> = Vec::new();
        let m = self.api_credentials.len();
        let mut k: usize = 0;
        while k < m
            invariant
                k <= m,
                m == v.api_credentials.len(),
                v == self@,
                credentials@.len() == k,
                accounts_reseal_before(v.accounts, old_key@, v.accounts.len() as int),
                credentials_reseal_before(v.api_credentials, old_key@, k as int),
                forall|j: int|
                    0 <= j < k ==> credential_resealed(
                        old_key@,
                        new_key@,
                        #[trigger] v.api_credentials[j],
                        credentials@[j]@,
                    ),
            decreases m - k,
        {
            let cred = self.api_credentials[k].copied();
            proof {
                assert(v.api_credentials[k as int] == cred@);
            }
            let api_key = match reseal(old_key, new_key, cred.api_key.as_str()) {
                Ok(b) => b,
                Err(e) => {
                    let msg = reseal_message("Re-encrypt failed for ", cred.name.as_str(), &e);
                    proof {
                        assert(credential_fails(v.api_credentials, old_key@, k as int));
                        if open_optional_spec(old_key@, cred.api_key@) is Err {
                            assert(reports_failure(
                                msg@,
                                "Re-encrypt failed for "@ + cred.name@ + ": "@,
                                e.decrypt_failure()->0,
                            ));
                        }
                        assert(credential_failure_reported(v.api_credentials, old_key@, k as int, msg@));
                    }
                    return Err(msg);
                },
            };
            let client_secret = match reseal(old_key, new_key, cred.client_secret.as_str()) {
                Ok(b) => b,
                Err(e) => {
                    let msg = reseal_message("Re-encrypt failed for ", cred.name.as_str(), &e);
                    proof {
                        assert(credential_fails(v.api_credentials, old_key@, k as int));
                        if open_optional_spec(old_key@, cred.client_secret@) is Err {
                            assert(reports_failure(
                                msg@,
                                "Re-encrypt failed for "@ + cred.name@ + ": "@,
                                e.decrypt_failure()->0,
                            ));
                        }
                        assert(credential_failure_reported(v.api_credentials, old_key@, k as int, msg@));
                    }
                    return Err(msg);
                },
            };
            credentials.push(
                ApiCredential {
                    id: cred.id,
                    name: cred.name,
                    api_key,
                    client_id: cred.client_id,
                    client_secret,
                },
            );
            k = k + 1;
        }
        assert(accounts_view(accounts@).len() == v.accounts.len());
        assert(credentials_view(credentials@).len() == v.api_credentials.len());
        Ok((accounts, credentials))
    }

    /// Apply the store's answer to writing a reset plan whose key is `key`.
    /// Returns whether the new key is in use and the lists must be reloaded.
    pub fn finish_reset_master(&mut self, key: MasterKey, outcome: Result<(), ResetWriteError>) -> (changed: bool)
        ensures
            changed == outcome is Ok,
            final(self)@ == old(self)@.after_reset(key@, outcome),
    {
        match outcome {
            Ok(()) => {
                if let Some(mut old_key) = self.master_key.take() {
                    old_key.zeroize();
                }
                self.master_key = Some(key);
                self.mode = Mode::List;
                self.revealed.clear();
                self.message = owned("Master password changed.");
                true
            },
            Err(e) => {
                let mut key = key;
                key.zeroize();
                self.message = match e {
                    ResetWriteError::Begin(e) => joined("Transaction failed: ", e.as_str()),
                    ResetWriteError::Write(e) => joined("DB write failed: ", e.as_str()),
                    ResetWriteError::Commit(e) => joined("Reset failed: ", e.as_str()),
                };
                false
            },
        }
    }
}

} // verus!
