use vstd::prelude::*;

use crate::app::{open_optional_spec, AccountView, ApiCredentialView, AppView, InputSlot};
use crate::crypto::{decrypt_spec, DecryptFailure};
use crate::flows::{seals_optional, DeleteRequest, SaveRequestView, SaveStepView};
use crate::master::{salt_derives, unlock_key, ResetPlanView};
use crate::model::{Mode, RevealedView, Tab};
use crate::text::trim_spec;
use crate::update::{update_rel, KeyPress};

verus! {

/// Locking, and quitting, leave no secret in the state: no key, nothing
/// revealed, and every input, secret or not, empty. Quitting also asks to
/// quit.
pub proof fn law_lock_forgets_secrets(v: AppView)
    ensures
        v.locked().holds_no_secret(),
        v.after_quit().holds_no_secret(),
        v.after_quit().should_quit,
        forall|slot: InputSlot| v.locked().input(slot).len() == 0,
        forall|slot: InputSlot| v.after_quit().input(slot).len() == 0,
        v.after_cancel_form().input_password.len() == 0,
        v.after_cancel_form().input_api_key.len() == 0,
        v.after_cancel_form().input_client_secret.len() == 0,
{
}

/// A character typed into the active input and then erased with Backspace
/// leaves the state as it was.
pub proof fn law_backspace_undoes_typing(v: AppView, c: char)
    ensures
        v.after_type(c).after_backspace() == v,
        v.after_master_type(c).after_master_backspace() == v,
{
    let slot = v.active_slot();
    let s = v.input(slot);
    let w = v.after_type(c);
    assert(w.active_slot() == slot);
    assert(w.input(slot) =~= s.push(c));
    assert(s.push(c).drop_last() =~= s);
    assert(w.after_backspace() =~= v);
    assert(v.input_master.push(c).drop_last() =~= v.input_master);
    assert(v.after_master_type(c).after_master_backspace() =~= v);
}

/// Switching tabs from the list or view screen shows the list of the other
/// tab; switching again comes back to the first tab's list.
pub proof fn law_switch_tab_twice(v: AppView)
    requires
        v.mode == Mode::List || v.mode == Mode::View,
    ensures
        v.after_switch_tab().mode == Mode::List,
        v.after_switch_tab().tab != v.tab,
        v.after_switch_tab().after_switch_tab().tab == v.tab,
        v.after_switch_tab().revealed == RevealedView::Nothing,
{
}

/// Every key press keeps the selection on an item of the active list (or at
/// 0 when that list is empty).
pub proof fn law_selection_stays_valid(
    v: AppView,
    key: KeyPress,
    post: AppView,
    cmd: crate::update::Command,
)
    requires
        v.selection_valid(),
        update_rel(v, key, post, cmd),
    ensures
        post.selection_valid(),
{
}

/// Applying the store's answers (to a save, a deletion, a setup or a reset)
/// and submitting the unlock form keep a valid selection valid.
pub proof fn law_answers_keep_selection_valid(
    v: AppView,
    save: Result<Seq<char>, Seq<char>>,
    delete: Result<(), Seq<char>>,
    key: Seq<u8>,
    reset: Result<(), crate::master::ResetWriteError>,
    salt: Result<Option<Seq<char>>, Seq<char>>,
    verifier: Result<Option<Seq<char>>, Seq<char>>,
    post: AppView,
    unlocked: bool,
)
    requires
        v.selection_valid(),
        v.unlock_rel(salt, verifier, post, unlocked),
    ensures
        v.after_save(save).selection_valid(),
        v.after_delete(delete).selection_valid(),
        v.after_reset(key, reset).selection_valid(),
        post.selection_valid(),
{
}

/// Whatever lists a reload brings, the selection afterwards is valid.
pub proof fn law_reload_clamps(
    v: AppView,
    accounts: Seq<crate::app::AccountView>,
    credentials: Seq<crate::app::ApiCredentialView>,
)
    requires
        v.selected >= 0,
    ensures
        v.reloaded(Ok(accounts), Ok(credentials)).selection_valid(),
        v.refreshed(Ok(accounts), Ok(credentials)).selection_valid(),
{
}

/// The master password that created the vault unlocks it with the salt and
/// verifier that setup stored, and yields the key that setup made; a
/// password that does not unlock them leaves the vault locked.
pub proof fn law_unlock_with_stored_setup(
    v: AppView,
    salt: Seq<char>,
    verifier: Seq<char>,
    key: Seq<u8>,
    post: AppView,
    unlocked: bool,
)
    requires
        unlock_key(v.input_master, salt, verifier) == Some(key),
        v.unlock_rel(Ok(Some(salt)), Ok(Some(verifier)), post, unlocked),
    ensures
        unlocked,
        post.master_key == Some(key),
        post.mode == Mode::List,
        post.input_master.len() == 0,
{
}

/// A password that does not unlock the stored salt and verifier leaves the
/// vault as locked as it was.
pub proof fn law_wrong_password_stays_locked(
    v: AppView,
    salt: Seq<char>,
    verifier: Seq<char>,
    post: AppView,
    unlocked: bool,
)
    requires
        unlock_key(v.input_master, salt, verifier) is None,
        v.unlock_rel(Ok(Some(salt)), Ok(Some(verifier)), post, unlocked),
    ensures
        !unlocked,
        post.master_key == v.master_key,
        post.mode == v.mode,
{
}

/// After a reset, every stored secret opens under the new key to what it
/// opened to under the old one, and the new password unlocks the new salt
/// and verifier to the new key; the new salt is stored in its standard
/// base64 encoding.
pub proof fn law_reset_keeps_secrets(
    v: AppView,
    old_key: Seq<u8>,
    new_password: Seq<char>,
    plan: ResetPlanView,
    i: int,
    j: int,
)
    requires
        v.plan_reseals(old_key, new_password, plan),
        0 <= i < v.accounts.len(),
        0 <= j < v.api_credentials.len(),
    ensures
        open_optional_spec(plan.key, plan.accounts[i].password) == open_optional_spec(
            old_key,
            v.accounts[i].password,
        ),
        open_optional_spec(plan.key, plan.api_credentials[j].api_key) == open_optional_spec(
            old_key,
            v.api_credentials[j].api_key,
        ),
        open_optional_spec(plan.key, plan.api_credentials[j].client_secret)
            == open_optional_spec(old_key, v.api_credentials[j].client_secret),
        open_optional_spec(old_key, v.accounts[i].password) is Ok,
        unlock_key(new_password, plan.salt, plan.verifier) == Some(plan.key),
        salt_derives(plan.salt, new_password, plan.key),
{
    assert(crate::master::account_resealed(old_key, plan.key, v.accounts[i], plan.accounts[i]));
    assert(crate::master::credential_resealed(
        old_key,
        plan.key,
        v.api_credentials[j],
        plan.api_credentials[j],
    ));
}

/// A reset is refused only when it must be: the new key cannot be derived or
/// some secret cannot be re-sealed. So a refusal never hides a reset that
/// could have gone through.
pub proof fn law_reset_refused_only_when_blocked(
    v: AppView,
    old_key: Seq<u8>,
    new_password: Seq<char>,
    msg: Seq<char>,
)
    requires
        v.reset_failed(old_key, new_password, msg),
    ensures
        !v.reset_unblocked(old_key, new_password),
{
}

/// A saved form hands the store each field from its own input: the plain
/// fields trimmed, and each secret sealed under the master key so that it
/// opens to what was typed into that secret's own input (an API key never
/// lands in the client secret's place, nor the other way round). An update
/// goes to the entry being edited.
pub proof fn law_save_keeps_each_field_in_place(
    v: AppView,
    post: AppView,
    step: SaveStepView,
    key: Seq<u8>,
)
    requires
        v.master_key == Some(key),
        v.save_form_rel(post, step),
    ensures
        step matches SaveStepView::Write(
            SaveRequestView::InsertAccount { website, username, password },
        ) ==> v.tab == Tab::Accounts && v.mode == Mode::Add && website == trim_spec(
            v.input_website,
        ) && username == trim_spec(v.input_username) && decrypt_spec(key, password) == Ok::<
            Seq<char>,
            DecryptFailure,
        >(v.input_password),
        step matches SaveStepView::Write(
            SaveRequestView::UpdateAccount { id, website, username, password },
        ) ==> v.tab == Tab::Accounts && v.mode == Mode::Edit && v.editing_id == Some(id)
            && website == trim_spec(v.input_website) && username == trim_spec(v.input_username)
            && decrypt_spec(key, password) == Ok::<Seq<char>, DecryptFailure>(v.input_password),
        step matches SaveStepView::Write(
            SaveRequestView::InsertApiCredential { name, api_key, client_id, client_secret },
        ) ==> v.tab == Tab::ApiKeys && v.mode == Mode::Add && name == trim_spec(v.input_name)
            && client_id == trim_spec(v.input_client_id) && open_optional_spec(key, api_key)
            == Ok::<Seq<char>, DecryptFailure>(trim_spec(v.input_api_key)) && open_optional_spec(
            key,
            client_secret,
        ) == Ok::<Seq<char>, DecryptFailure>(trim_spec(v.input_client_secret)),
        step matches SaveStepView::Write(
            SaveRequestView::UpdateApiCredential { id, name, api_key, client_id, client_secret },
        ) ==> v.tab == Tab::ApiKeys && v.mode == Mode::Edit && v.editing_id == Some(id) && name
            == trim_spec(v.input_name) && client_id == trim_spec(v.input_client_id)
            && open_optional_spec(key, api_key) == Ok::<Seq<char>, DecryptFailure>(
            trim_spec(v.input_api_key),
        ) && open_optional_spec(key, client_secret) == Ok::<Seq<char>, DecryptFailure>(
            trim_spec(v.input_client_secret),
        ),
{
    if v.tab == Tab::ApiKeys {
        let api_key = trim_spec(v.input_api_key);
        let secret = trim_spec(v.input_client_secret);
        match step {
            SaveStepView::Write(SaveRequestView::InsertApiCredential { api_key: a, client_secret: c, .. }) => {
                lemma_sealed_optional_opens(key, a, api_key);
                lemma_sealed_optional_opens(key, c, secret);
            },
            SaveStepView::Write(SaveRequestView::UpdateApiCredential { api_key: a, client_secret: c, .. }) => {
                lemma_sealed_optional_opens(key, a, api_key);
                lemma_sealed_optional_opens(key, c, secret);
            },
            _ => {},
        }
    }
}

/// An optional secret sealed under `key` opens under it to that secret.
proof fn lemma_sealed_optional_opens(key: Seq<u8>, blob: Seq<char>, plain: Seq<char>)
    requires
        seals_optional(key, blob, plain),
    ensures
        open_optional_spec(key, blob) == Ok::<Seq<char>, DecryptFailure>(plain),
{
    if plain.len() == 0 {
        assert(plain =~= Seq::<char>::empty());
    }
}

/// Opening the selected account for editing fills each input from the
/// stored field of the same name, the password from the opened blob.
pub proof fn law_edit_account_loads_its_fields(
    v: AppView,
    post: AppView,
    key: Seq<u8>,
    password: Seq<char>,
)
    requires
        v.master_key == Some(key),
        v.tab == Tab::Accounts,
        0 <= v.selected < v.accounts.len(),
        decrypt_spec(key, v.accounts[v.selected].password) == Ok::<Seq<char>, DecryptFailure>(
            password,
        ),
        v.start_edit_rel(post),
    ensures
        post.mode == Mode::Edit,
        post.editing_id == Some(v.accounts[v.selected].id),
        post.input_website == v.accounts[v.selected].website,
        post.input_username == v.accounts[v.selected].username,
        post.input_password == password,
        post.accounts == v.accounts,
{
}

/// Opening the selected credential for editing fills each input from the
/// stored field of the same name: name, client id, and each secret from its
/// own opened blob.
pub proof fn law_edit_credential_loads_its_fields(
    v: AppView,
    post: AppView,
    key: Seq<u8>,
    api_key: Seq<char>,
    client_secret: Seq<char>,
)
    requires
        v.master_key == Some(key),
        v.tab == Tab::ApiKeys,
        0 <= v.selected < v.api_credentials.len(),
        open_optional_spec(key, v.api_credentials[v.selected].api_key) == Ok::<
            Seq<char>,
            DecryptFailure,
        >(api_key),
        open_optional_spec(key, v.api_credentials[v.selected].client_secret) == Ok::<
            Seq<char>,
            DecryptFailure,
        >(client_secret),
        v.start_edit_rel(post),
    ensures
        post.mode == Mode::Edit,
        post.editing_id == Some(v.api_credentials[v.selected].id),
        post.input_name == v.api_credentials[v.selected].name,
        post.input_client_id == v.api_credentials[v.selected].client_id,
        post.input_api_key == api_key,
        post.input_client_secret == client_secret,
        post.api_credentials == v.api_credentials,
{
}

/// What a reveal shows is the opening of the selected entry's own stored
/// secrets, each in its own place; and when nothing is shown yet in the View
/// screen and the secrets open, they are shown.
pub proof fn law_reveal_shows_each_secret_in_place(v: AppView, post: AppView, key: Seq<u8>)
    requires
        v.master_key == Some(key),
        v.revealed == RevealedView::Nothing,
        v.toggle_reveal_rel(post),
    ensures
        post.revealed matches RevealedView::Api { api_key, client_secret } ==> v.tab
            == Tab::ApiKeys && 0 <= v.selected < v.api_credentials.len() && open_optional_spec(
            key,
            v.api_credentials[v.selected].api_key,
        ) == Ok::<Seq<char>, DecryptFailure>(api_key) && open_optional_spec(
            key,
            v.api_credentials[v.selected].client_secret,
        ) == Ok::<Seq<char>, DecryptFailure>(client_secret),
        post.revealed matches RevealedView::AccountPassword(p) ==> v.tab == Tab::Accounts && 0
            <= v.selected < v.accounts.len() && decrypt_spec(key, v.accounts[v.selected].password)
            == Ok::<Seq<char>, DecryptFailure>(p),
        (v.mode == Mode::View && v.tab == Tab::ApiKeys && 0 <= v.selected
            < v.api_credentials.len() && open_optional_spec(
            key,
            v.api_credentials[v.selected].api_key,
        ) is Ok && open_optional_spec(key, v.api_credentials[v.selected].client_secret) is Ok)
            ==> post.revealed is Api,
        (v.mode == Mode::View && v.tab == Tab::Accounts && 0 <= v.selected < v.accounts.len()
            && decrypt_spec(key, v.accounts[v.selected].password) is Ok)
            ==> post.revealed is AccountPassword,
{
}

/// A deletion is asked for exactly when an entry of the active list is
/// selected, and it names that entry: its kind is the active tab's and its
/// id is the selected entry's.
pub proof fn law_delete_names_the_selected_entry(v: AppView)
    ensures
        v.delete_request() is Some <==> 0 <= v.selected < v.current_len(),
        v.delete_request() matches Some(DeleteRequest::Account(id)) ==> v.tab == Tab::Accounts
            && 0 <= v.selected < v.accounts.len() && id == v.accounts[v.selected].id,
        v.delete_request() matches Some(DeleteRequest::ApiCredential(id)) ==> v.tab
            == Tab::ApiKeys && 0 <= v.selected < v.api_credentials.len() && id
            == v.api_credentials[v.selected].id,
{
}

/// A reload whose loads both succeed holds exactly the loaded lists, with
/// the selection inside the active one (or zero when it is empty). A failed
/// account load changes nothing; a failed credential load keeps the old
/// credentials beside the newly loaded accounts.
pub proof fn law_reload_holds_what_was_loaded(
    v: AppView,
    accounts: Seq<AccountView>,
    credentials: Seq<ApiCredentialView>,
    e: Seq<char>,
)
    requires
        0 <= v.selected,
    ensures
        v.reloaded(Ok(accounts), Ok(credentials)).accounts == accounts,
        v.reloaded(Ok(accounts), Ok(credentials)).api_credentials == credentials,
        v.reloaded(Ok(accounts), Ok(credentials)).current_len() == 0 ==> v.reloaded(
            Ok(accounts),
            Ok(credentials),
        ).selected == 0,
        v.reloaded(Ok(accounts), Ok(credentials)).current_len() > 0 ==> 0 <= v.reloaded(
            Ok(accounts),
            Ok(credentials),
        ).selected < v.reloaded(Ok(accounts), Ok(credentials)).current_len(),
        v.reloaded(Err(e), Ok(credentials)) == v,
        v.reloaded(Ok(accounts), Err(e)).accounts == accounts,
        v.reloaded(Ok(accounts), Err(e)).api_credentials == v.api_credentials,
{
}

} // verus!
