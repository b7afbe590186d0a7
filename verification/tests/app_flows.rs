use base64::Engine;
use rusty_vault::app::{Account, ApiCredential, App};
use rusty_vault::crypto::{decrypt, derive_key, encrypt, gen_salt, make_verifier, MasterKey};
use rusty_vault::flows::{DeleteRequest, SaveRequest, SaveStep};
use rusty_vault::master::ResetWriteError;
use rusty_vault::model::{Field, Mode, Revealed, Tab};

fn unlocked_app(key: [u8; 32]) -> App {
    let mut app = App::new(true);
    app.master_key = Some(MasterKey(key));
    app.mode = Mode::List;
    app
}

fn account(id: i64, website: &str, username: &str, password: String) -> Account {
    Account {
        id,
        website: website.to_string(),
        username: username.to_string(),
        password,
    }
}

#[test]
fn new_app_starts_on_unlock_or_setup() {
    let a = App::new(true);
    assert_eq!(a.mode, Mode::Unlock);
    assert_eq!(a.field, Field::Master);
    assert_eq!(a.tab, Tab::Accounts);
    assert!(a.master_key.is_none());
    let b = App::new(false);
    assert_eq!(b.mode, Mode::Setup);
    assert!(!b.should_quit);
}

#[test]
fn lock_and_quit_forget_secrets() {
    let mut app = unlocked_app([4u8; 32]);
    app.input_password = "pw".to_string();
    app.input_api_key = "ak".to_string();
    app.input_client_secret = "cs".to_string();
    app.input_master = "m".to_string();
    app.input_new_master = "n".to_string();
    app.input_website = "site".to_string();
    app.input_username = "user".to_string();
    app.input_name = "name".to_string();
    app.input_client_id = "cid".to_string();
    app.revealed = Revealed::AccountPassword("shown".to_string());
    app.lock();
    assert!(app.master_key.is_none());
    assert!(app.revealed.is_none());
    assert_eq!(app.input_password, "");
    assert_eq!(app.input_api_key, "");
    assert_eq!(app.input_client_secret, "");
    assert_eq!(app.input_master, "");
    assert_eq!(app.input_new_master, "");
    // Non-secret inputs are cleared as well.
    assert_eq!(app.input_website, "");
    assert_eq!(app.input_username, "");
    assert_eq!(app.input_name, "");
    assert_eq!(app.input_client_id, "");
    assert!(!app.should_quit);
    let mut app = unlocked_app([4u8; 32]);
    app.quit();
    assert!(app.should_quit);
    assert!(app.master_key.is_none());
}

#[test]
fn revealed_clear_resets_to_nothing() {
    let mut r = Revealed::Api {
        api_key: "k".to_string(),
        client_secret: "s".to_string(),
    };
    assert!(!r.is_none());
    r.clear();
    assert!(r.is_none());
    assert!(Revealed::default().is_none());
}

#[test]
fn selection_moves_within_the_list() {
    let mut app = unlocked_app([1u8; 32]);
    app.list_down();
    assert_eq!(app.selected, 0);
    app.accounts = vec![
        account(1, "a", "u", String::new()),
        account(2, "b", "u", String::new()),
        account(3, "c", "u", String::new()),
    ];
    app.list_down();
    app.list_down();
    app.list_down();
    assert_eq!(app.selected, 2);
    app.list_up();
    assert_eq!(app.selected, 1);
    app.list_up();
    app.list_up();
    assert_eq!(app.selected, 0);
    app.selected = 2;
    // The API list is empty: switching clamps the selection to 0.
    app.switch_tab();
    assert_eq!(app.tab, Tab::ApiKeys);
    assert_eq!(app.selected, 0);
    app.switch_tab();
    assert_eq!(app.tab, Tab::Accounts);
}

#[test]
fn switch_tab_only_from_list_or_view() {
    let mut app = unlocked_app([1u8; 32]);
    app.mode = Mode::Add;
    app.switch_tab();
    assert_eq!(app.tab, Tab::Accounts);
    app.mode = Mode::View;
    app.message = "hello".to_string();
    app.switch_tab();
    assert_eq!(app.tab, Tab::ApiKeys);
    assert_eq!(app.mode, Mode::List);
    assert_eq!(app.message, "");
}

#[test]
fn view_needs_an_entry() {
    let mut app = unlocked_app([1u8; 32]);
    app.start_view();
    assert_eq!(app.mode, Mode::List);
    app.accounts = vec![account(1, "a", "u", String::new())];
    app.start_view();
    assert_eq!(app.mode, Mode::View);
    app.close_view();
    assert_eq!(app.mode, Mode::List);
}

#[test]
fn saving_an_account_seals_the_typed_password() {
    let key = [11u8; 32];
    let mut app = unlocked_app(key);
    app.start_add();
    assert_eq!(app.mode, Mode::Add);
    assert_eq!(app.field, Field::Website);
    app.input_website = "  example.com ".to_string();
    app.input_username = "\talice\n".to_string();
    app.input_password = " secret123 ".to_string();
    match app.save_form() {
        SaveStep::Write(SaveRequest::InsertAccount { website, username, password }) => {
            assert_eq!(website, "example.com");
            assert_eq!(username, "alice");
            assert_ne!(password, " secret123 ");
            // The password itself is not trimmed.
            assert_eq!(decrypt(&MasterKey(key), &password).unwrap(), " secret123 ");
        }
        _ => panic!("expected an insert"),
    }
    assert!(app.finish_save(Ok("Account added.".to_string())));
    assert_eq!(app.message, "Account added.");
    assert_eq!(app.mode, Mode::List);
    assert_eq!(app.input_password, "");
}

#[test]
fn save_request_messages() {
    let r = SaveRequest::UpdateApiCredential {
        id: 1,
        name: String::new(),
        api_key: String::new(),
        client_id: String::new(),
        client_secret: String::new(),
    };
    assert_eq!(r.success_message(), "API credential updated.");
    let r = SaveRequest::InsertAccount {
        website: String::new(),
        username: String::new(),
        password: String::new(),
    };
    assert_eq!(r.success_message(), "Account added.");
}

#[test]
fn saving_checks_the_form() {
    let mut app = unlocked_app([11u8; 32]);
    app.start_add();
    app.input_website = "   ".to_string();
    app.input_username = "bob".to_string();
    app.input_password = "pw".to_string();
    assert!(matches!(app.save_form(), SaveStep::Halted));
    assert_eq!(app.message, "All fields are required.");
    app.switch_tab();
    app.mode = Mode::Add;
    app.tab = Tab::ApiKeys;
    app.input_name = " ".to_string();
    assert!(matches!(app.save_form(), SaveStep::Halted));
    assert_eq!(app.message, "Name is required.");
    let mut locked = App::new(true);
    locked.mode = Mode::Add;
    assert!(matches!(locked.save_form(), SaveStep::Halted));
    assert_eq!(locked.message, "Vault is locked.");
    // Not in a form: nothing to write, and an empty message.
    let mut listing = unlocked_app([11u8; 32]);
    match listing.save_form() {
        SaveStep::Saved(m) => assert_eq!(m, ""),
        _ => panic!("expected no write"),
    }
    // Editing without an entry.
    let mut editing = unlocked_app([11u8; 32]);
    editing.mode = Mode::Edit;
    editing.input_website = "w".to_string();
    editing.input_username = "u".to_string();
    editing.input_password = "p".to_string();
    match editing.save_form() {
        SaveStep::Saved(m) => assert_eq!(m, "No account selected."),
        _ => panic!("expected no write"),
    }
}

#[test]
fn saving_api_credential_leaves_unset_secrets_empty() {
    let key = [12u8; 32];
    let mut app = unlocked_app(key);
    app.tab = Tab::ApiKeys;
    app.start_add();
    assert_eq!(app.field, Field::Name);
    app.input_name = " github ".to_string();
    app.input_api_key = "  ".to_string();
    app.input_client_id = " cid ".to_string();
    app.input_client_secret = " shh ".to_string();
    match app.save_form() {
        SaveStep::Write(SaveRequest::InsertApiCredential { name, api_key, client_id, client_secret }) => {
            assert_eq!(name, "github");
            assert_eq!(api_key, "");
            assert_eq!(client_id, "cid");
            assert_eq!(decrypt(&MasterKey(key), &client_secret).unwrap(), "shh");
        }
        _ => panic!("expected an insert"),
    }
    assert!(!app.finish_save(Err("disk full".to_string())));
    assert_eq!(app.message, "Save failed: disk full");
}

#[test]
fn editing_opens_the_stored_secrets() {
    let key = MasterKey([13u8; 32]);
    let mut app = unlocked_app([13u8; 32]);
    app.accounts = vec![account(7, "example.com", "alice", encrypt(&key, "secret123").unwrap())];
    app.start_edit();
    assert_eq!(app.mode, Mode::Edit);
    assert_eq!(app.editing_id, Some(7));
    assert_eq!(app.input_password, "secret123");
    assert_eq!(app.input_username, "alice");
    match app.save_form() {
        SaveStep::Write(SaveRequest::UpdateAccount { id, .. }) => assert_eq!(id, 7),
        _ => panic!("expected an update"),
    }
    // A blob sealed under another key does not open.
    let mut other = unlocked_app([14u8; 32]);
    other.accounts = app.accounts.clone();
    other.start_edit();
    assert_eq!(other.mode, Mode::List);
    assert_eq!(other.message, "Cannot decrypt password: AES decryption failed: aead::Error");
    // API credentials: an unset key opens to nothing.
    let mut api = unlocked_app([13u8; 32]);
    api.tab = Tab::ApiKeys;
    api.api_credentials = vec![ApiCredential {
        id: 3,
        name: "n".to_string(),
        api_key: String::new(),
        client_id: "c".to_string(),
        client_secret: encrypt(&key, "s").unwrap(),
    }];
    api.start_edit();
    assert_eq!(api.mode, Mode::Edit);
    assert_eq!(api.input_api_key, "");
    assert_eq!(api.input_client_secret, "s");
    let mut locked = App::new(true);
    locked.start_edit();
    assert_eq!(locked.message, "Vault is locked.");
}

#[test]
fn reveal_toggles_the_selected_secret() {
    let key = MasterKey([15u8; 32]);
    let mut app = unlocked_app([15u8; 32]);
    app.accounts = vec![account(1, "a", "u", encrypt(&key, "pw").unwrap())];
    app.toggle_reveal();
    assert!(app.revealed.is_none());
    app.start_view();
    app.toggle_reveal();
    match &app.revealed {
        Revealed::AccountPassword(p) => assert_eq!(p, "pw"),
        _ => panic!("expected the password"),
    }
    app.toggle_reveal();
    assert!(app.revealed.is_none());
    app.accounts[0].password = "broken".to_string();
    app.toggle_reveal();
    assert!(app.revealed.is_none());
    assert!(app.message.starts_with("Decrypt failed: "));
}

#[test]
fn copies_hand_out_plain_text() {
    let key = MasterKey([16u8; 32]);
    let mut app = unlocked_app([16u8; 32]);
    assert!(app.copy_username().is_none());
    app.accounts = vec![account(1, "a", "alice", encrypt(&key, "pw").unwrap())];
    let u = app.copy_username().unwrap();
    assert_eq!(u.text, "alice");
    assert_eq!(u.label, "Username");
    let p = app.copy_password().unwrap();
    assert_eq!(p.text, "pw");
    app.finish_copy(&p.label, Ok(()));
    assert_eq!(app.message, "Password copied to clipboard.");
    app.finish_copy("Username", Err("no display".to_string()));
    assert_eq!(app.message, "Clipboard error: no display");
    app.api_credentials = vec![ApiCredential {
        id: 2,
        name: "n".to_string(),
        api_key: String::new(),
        client_id: "cid".to_string(),
        client_secret: encrypt(&key, "sec").unwrap(),
    }];
    assert!(app.copy_api_key().is_none());
    assert_eq!(app.message, "API key is not set.");
    assert_eq!(app.copy_client_id().unwrap().text, "cid");
    let s = app.copy_client_secret().unwrap();
    assert_eq!(s.text, "sec");
    assert_eq!(s.label, "Client secret");
    let mut locked = App::new(true);
    locked.accounts = app.accounts.clone();
    assert!(locked.copy_password().is_none());
    assert_eq!(locked.message, "Vault is locked.");
}

#[test]
fn delete_asks_the_store_and_reports() {
    let mut app = unlocked_app([17u8; 32]);
    assert_eq!(app.delete_selected(), None);
    app.accounts = vec![account(5, "a", "u", String::new()), account(6, "b", "u", String::new())];
    app.selected = 1;
    assert_eq!(app.delete_selected(), Some(DeleteRequest::Account(6)));
    assert!(!app.finish_delete(Err("locked".to_string())));
    assert_eq!(app.message, "Delete failed: locked");
    assert!(app.finish_delete(Ok(())));
    assert_eq!(app.message, "Account deleted.");
    app.refresh(Ok(vec![account(5, "a", "u", String::new())]), Ok(Vec::new()));
    app.clamp_selected();
    assert_eq!(app.selected, 0);
    assert_eq!(app.accounts.len(), 1);
    app.tab = Tab::ApiKeys;
    app.api_credentials = vec![ApiCredential {
        id: 9,
        name: String::new(),
        api_key: String::new(),
        client_id: String::new(),
        client_secret: String::new(),
    }];
    assert_eq!(app.delete_selected(), Some(DeleteRequest::ApiCredential(9)));
    assert!(app.finish_delete(Ok(())));
    assert_eq!(app.message, "API credential deleted.");
}

#[test]
fn reload_keeps_what_failed_to_load() {
    let mut app = unlocked_app([18u8; 32]);
    app.accounts = vec![account(1, "a", "u", String::new())];
    assert_eq!(
        app.reload(Err("no table".to_string()), Ok(Vec::new())),
        Err("no table".to_string())
    );
    assert_eq!(app.accounts.len(), 1);
    assert_eq!(
        app.reload(Ok(Vec::new()), Err("busy".to_string())),
        Err("busy".to_string())
    );
    assert_eq!(app.accounts.len(), 0);
    app.refresh(Ok(Vec::new()), Err("busy".to_string()));
    assert_eq!(app.message, "Reload failed: busy");
}

#[test]
fn setup_then_unlock_with_the_same_password() {
    let mut app = App::new(false);
    app.input_master = "hunter22".to_string();
    app.input_master_confirm = "hunter2".to_string();
    assert!(app.submit_setup().is_none());
    assert_eq!(app.message, "Passwords do not match.");
    app.input_master_confirm = "hunter22".to_string();
    let plan = app.submit_setup().unwrap();
    assert_eq!(app.input_master, "");
    assert_eq!(app.input_master_confirm, "");
    let key_bytes = *plan.key.as_bytes();
    let salt = plan.salt.clone();
    let verifier = plan.verifier.clone();
    // The stored salt is the standard base64 text of the 32 salt bytes the
    // key was derived from.
    let salt_bytes = base64::engine::general_purpose::STANDARD.decode(&salt).unwrap();
    assert_eq!(salt_bytes.len(), 32);
    assert_eq!(base64_of(&salt_bytes), salt);
    let mut salt_arr = [0u8; 32];
    salt_arr.copy_from_slice(&salt_bytes);
    assert_eq!(derive_key("hunter22", &salt_arr).unwrap().as_bytes(), &key_bytes);
    assert!(app.finish_setup(plan.key, Ok(())));
    assert_eq!(app.mode, Mode::List);
    assert_eq!(app.message, "Vault created.");

    let mut again = App::new(true);
    again.input_master = "hunter22".to_string();
    assert!(again.submit_unlock(Ok(Some(salt.clone())), Ok(Some(verifier.clone()))));
    assert_eq!(again.mode, Mode::List);
    assert_eq!(again.master_key.as_ref().unwrap().as_bytes(), &key_bytes);
    assert_eq!(again.input_master, "");

    let mut wrong = App::new(true);
    wrong.input_master = "hunter23".to_string();
    assert!(!wrong.submit_unlock(Ok(Some(salt)), Ok(Some(verifier))));
    assert_eq!(wrong.message, "Wrong master password.");
    assert_eq!(wrong.mode, Mode::Unlock);
    assert!(wrong.master_key.is_none());
}

#[test]
fn setup_needs_a_password_and_reports_store_errors() {
    let mut app = App::new(false);
    assert!(app.submit_setup().is_none());
    assert_eq!(app.message, "Password cannot be empty.");
    assert!(!app.finish_setup(MasterKey([1u8; 32]), Err("read-only".to_string())));
    assert_eq!(app.message, "DB error: read-only");
    assert!(app.master_key.is_none());
}

#[test]
fn unlock_reports_a_bad_store() {
    let mut app = App::new(true);
    app.input_master = "x".to_string();
    assert!(!app.submit_unlock(Ok(None), Ok(None)));
    assert_eq!(app.message, "Vault is not initialized.");
    assert_eq!(app.input_master, "");
    app.input_master = "x".to_string();
    assert!(!app.submit_unlock(Err("locked".to_string()), Ok(None)));
    assert_eq!(app.message, "DB error: locked");
    assert!(!app.submit_unlock(Ok(Some("%%%".to_string())), Ok(None)));
    assert!(app.message.starts_with("Salt decode failed: "));
    assert!(!app.submit_unlock(Ok(Some("AAAA".to_string())), Ok(None)));
    assert_eq!(app.message, "Corrupt salt.");
    // 32 zero bytes in base64; no verifier stored.
    let salt = "AAAAAAAAAAAAAAAAAAAAAAAAAAAAAAAAAAAAAAAAAAA=".to_string();
    assert!(!app.submit_unlock(Ok(Some(salt)), Ok(None)));
    assert_eq!(app.message, "Corrupt vault.");
}

#[test]
fn reset_master_password_reencrypts_secrets() {
    // A vault whose salt and verifier belong to "old-pass".
    let salt = gen_salt();
    let old_key = derive_key("old-pass", &salt).unwrap();
    let verifier = make_verifier(&old_key).unwrap();
    let salt_b64 = base64_of(&salt);
    let enc_pw = encrypt(&old_key, "secret123").unwrap();

    let mut app = App::new(true);
    app.master_key = Some(MasterKey(*old_key.as_bytes()));
    app.mode = Mode::List;
    app.accounts = vec![account(1, "example.com", "alice", enc_pw.clone())];
    app.api_credentials = vec![ApiCredential {
        id: 2,
        name: "svc".to_string(),
        api_key: String::new(),
        client_id: "cid".to_string(),
        client_secret: encrypt(&old_key, "top").unwrap(),
    }];
    app.start_reset_master();
    assert_eq!(app.mode, Mode::ResetMaster);
    app.input_old_master = "old-pass".to_string();
    app.input_new_master = "new-pass".to_string();
    app.input_new_master_confirm = "new-pass".to_string();
    let plan = app
        .submit_reset_master(Ok(Some(salt_b64)), Ok(Some(verifier)))
        .unwrap();
    assert_eq!(app.input_old_master, "");

    // Verify: new key decrypts, old key does not.
    let account = &plan.accounts[0];
    assert_eq!(account.id, 1);
    assert_eq!(account.website, "example.com");
    assert_eq!(decrypt(&plan.key, &account.password).unwrap(), "secret123");
    assert!(decrypt(&old_key, &account.password).is_err());
    let cred = &plan.api_credentials[0];
    assert_eq!(cred.api_key, "");
    assert_eq!(decrypt(&plan.key, &cred.client_secret).unwrap(), "top");

    // The new salt is stored as the standard base64 text of 32 bytes from
    // which the new password derives the new key.
    let new_salt = base64::engine::general_purpose::STANDARD.decode(&plan.salt).unwrap();
    assert_eq!(new_salt.len(), 32);
    assert_eq!(base64_of(&new_salt), plan.salt);
    let mut new_salt_arr = [0u8; 32];
    new_salt_arr.copy_from_slice(&new_salt);
    assert_eq!(
        derive_key("new-pass", &new_salt_arr).unwrap().as_bytes(),
        plan.key.as_bytes()
    );

    // The verifier check passes with the new key, fails with the old.
    assert!(rusty_vault::crypto::check_verifier(&plan.key, &plan.verifier).unwrap());
    assert!(!rusty_vault::crypto::check_verifier(&old_key, &plan.verifier).unwrap());

    let key = MasterKey(*plan.key.as_bytes());
    assert!(app.finish_reset_master(key, Ok(())));
    assert_eq!(app.message, "Master password changed.");
    assert_eq!(app.mode, Mode::List);
    assert_eq!(app.master_key.as_ref().unwrap().as_bytes(), plan.key.as_bytes());
}

fn base64_of(bytes: &[u8]) -> String {
    base64::engine::general_purpose::STANDARD.encode(bytes)
}

/// A vault unlocked by "old-pass", ready for a reset to "new-pass".
fn vault_for_reset() -> (App, MasterKey, String, String) {
    let salt = gen_salt();
    let old_key = derive_key("old-pass", &salt).unwrap();
    let verifier = make_verifier(&old_key).unwrap();
    let mut app = App::new(true);
    app.master_key = Some(MasterKey(*old_key.as_bytes()));
    app.mode = Mode::List;
    app.start_reset_master();
    app.input_old_master = "old-pass".to_string();
    app.input_new_master = "new-pass".to_string();
    app.input_new_master_confirm = "new-pass".to_string();
    (app, old_key, base64_of(&salt), verifier)
}

#[test]
fn reset_reports_the_first_account_that_fails() {
    let (mut app, old_key, salt_b64, verifier) = vault_for_reset();
    let foreign = encrypt(&MasterKey([77u8; 32]), "x").unwrap();
    app.accounts = vec![
        account(1, "good.com", "a", encrypt(&old_key, "fine").unwrap()),
        account(2, "wrong-key.com", "b", foreign),
        account(3, "garbled.com", "c", "AAAA".to_string()),
    ];
    app.api_credentials = vec![ApiCredential {
        id: 4,
        name: "svc".to_string(),
        api_key: "AAAA".to_string(),
        client_id: String::new(),
        client_secret: String::new(),
    }];
    assert!(app
        .submit_reset_master(Ok(Some(salt_b64)), Ok(Some(verifier)))
        .is_none());
    assert_eq!(
        app.message,
        "Re-encrypt failed for account wrong-key.com: AES decryption failed: aead::Error"
    );
    assert_eq!(app.mode, Mode::ResetMaster);
    assert_eq!(app.master_key.as_ref().unwrap().as_bytes(), old_key.as_bytes());
}

#[test]
fn reset_reports_a_failing_credential_secret() {
    let (mut app, old_key, salt_b64, verifier) = vault_for_reset();
    app.accounts = vec![account(1, "good.com", "a", encrypt(&old_key, "fine").unwrap())];
    app.api_credentials = vec![
        ApiCredential {
            id: 2,
            name: "ok".to_string(),
            api_key: encrypt(&old_key, "k").unwrap(),
            client_id: String::new(),
            client_secret: String::new(),
        },
        ApiCredential {
            id: 3,
            name: "svc".to_string(),
            api_key: String::new(),
            client_id: "cid".to_string(),
            client_secret: "AAAA".to_string(),
        },
    ];
    assert!(app
        .submit_reset_master(Ok(Some(salt_b64)), Ok(Some(verifier)))
        .is_none());
    assert_eq!(
        app.message,
        "Re-encrypt failed for svc: ciphertext too short (missing nonce)"
    );
}

#[test]
fn reset_checks_the_new_password_first() {
    let mut app = unlocked_app([19u8; 32]);
    app.mode = Mode::ResetMaster;
    app.input_old_master = "a".to_string();
    assert!(app.submit_reset_master(Ok(None), Ok(None)).is_none());
    assert_eq!(app.message, "New password cannot be empty.");
    assert_eq!(app.input_old_master, "");
    app.input_new_master = "b".to_string();
    app.input_new_master_confirm = "c".to_string();
    assert!(app.submit_reset_master(Ok(None), Ok(None)).is_none());
    assert_eq!(app.message, "New passwords do not match.");
    app.input_new_master = "b".to_string();
    app.input_new_master_confirm = "b".to_string();
    assert!(app.submit_reset_master(Ok(None), Ok(None)).is_none());
    assert_eq!(app.message, "Vault is not initialized.");
    assert_eq!(app.mode, Mode::ResetMaster);
}

#[test]
fn reset_write_failures_keep_the_old_key() {
    let mut app = unlocked_app([20u8; 32]);
    app.mode = Mode::ResetMaster;
    assert!(!app.finish_reset_master(MasterKey([1u8; 32]), Err(ResetWriteError::Begin("b".to_string()))));
    assert_eq!(app.message, "Transaction failed: b");
    assert!(!app.finish_reset_master(MasterKey([1u8; 32]), Err(ResetWriteError::Write("w".to_string()))));
    assert_eq!(app.message, "DB write failed: w");
    assert!(!app.finish_reset_master(MasterKey([1u8; 32]), Err(ResetWriteError::Commit("c".to_string()))));
    assert_eq!(app.message, "Reset failed: c");
    assert_eq!(app.master_key.as_ref().unwrap().as_bytes(), &[20u8; 32]);
}

#[test]
fn reset_needs_an_unlocked_vault() {
    let mut app = App::new(true);
    app.start_reset_master();
    assert_eq!(app.message, "Vault is locked.");
    assert_eq!(app.mode, Mode::Unlock);
    let mut open = unlocked_app([1u8; 32]);
    open.start_reset_master();
    assert_eq!(open.field, Field::OldMaster);
    open.input_new_master = "x".to_string();
    open.cancel_reset_master();
    assert_eq!(open.mode, Mode::List);
    assert_eq!(open.input_new_master, "");
}
