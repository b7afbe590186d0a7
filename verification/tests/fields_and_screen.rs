use rusty_vault::model::{Field, Mode, Revealed, Tab};
use rusty_vault::screen::{
    account_password_display, api_key_display, client_secret_display, contains, field_display,
    footer_hint, form_title, hidden_placeholder, keybinds, pad_right, shows_tabs, stars,
    tab_caption,
};

#[test]
fn tab_toggle_and_labels() {
    assert_eq!(Tab::Accounts.toggle(), Tab::ApiKeys);
    assert_eq!(Tab::ApiKeys.toggle(), Tab::Accounts);
    assert_eq!(Tab::Accounts.label(), "Accounts");
    assert_eq!(Tab::ApiKeys.label(), "API Keys");
}

#[test]
fn field_cycles() {
    assert_eq!(Field::Website.account_next(), Field::Username);
    assert_eq!(Field::Password.account_next(), Field::Website);
    assert_eq!(Field::Website.account_prev(), Field::Password);
    assert_eq!(Field::Name.account_next(), Field::Name);
    assert_eq!(Field::ClientSecret.api_next(), Field::Name);
    assert_eq!(Field::Name.api_prev(), Field::ClientSecret);
    assert_eq!(Field::ApiKey.api_next(), Field::ClientId);
    assert_eq!(Field::Master.setup_next(), Field::MasterConfirm);
    assert_eq!(Field::MasterConfirm.setup_next(), Field::Master);
    assert_eq!(Field::NewMasterConfirm.reset_next(), Field::OldMaster);
    assert_eq!(Field::OldMaster.reset_prev(), Field::NewMasterConfirm);
    assert_eq!(Field::Website.reset_next(), Field::Website);
    let mut f = Field::Name;
    for _ in 0..4 {
        f = f.api_next();
    }
    assert_eq!(f, Field::Name);
}

#[test]
fn secret_fields_are_masked() {
    assert_eq!(field_display(" Master Password ", "héllo"), "*****");
    assert_eq!(field_display(" Confirm Password ", "ab"), "**");
    assert_eq!(field_display(" Website ", "example.com"), "example.com");
    assert_eq!(field_display(" Password (revealed) ", "pw"), "pw");
    assert_eq!(field_display(" API Key (optional) ", "key"), "***");
    assert!(contains("abc", "bc"));
    assert!(contains("abc", ""));
    assert!(!contains("ab", "abc"));
    assert!(!contains("abc", "cb"));
    assert_eq!(stars(3), "***");
}

#[test]
fn hidden_values_show_at_most_32_stars() {
    assert_eq!(hidden_placeholder("abc"), "***");
    assert_eq!(hidden_placeholder(&"x".repeat(40)).len(), 32);
    let (shown, label) = account_password_display(&Revealed::Nothing, "abcd");
    assert_eq!(shown, "****");
    assert_eq!(label, " Password (hidden) ");
    let (shown, label) = account_password_display(&Revealed::AccountPassword("pw".into()), "abcd");
    assert_eq!(shown, "pw");
    assert_eq!(label, " Password (revealed) ");
    let revealed = Revealed::Api { api_key: "k".into(), client_secret: "s".into() };
    assert_eq!(api_key_display(&revealed, ""), ("(not set)".to_string(), " API Key "));
    assert_eq!(api_key_display(&revealed, "blob"), ("k".to_string(), " API Key (revealed) "));
    assert_eq!(
        client_secret_display(&Revealed::Nothing, "blob"),
        ("****".to_string(), " Client Secret (hidden) ")
    );
}

#[test]
fn screen_texts() {
    assert!(shows_tabs(Mode::Edit));
    assert!(!shows_tabs(Mode::Unlock));
    assert_eq!(tab_caption(Tab::Accounts, Tab::Accounts), "[ Accounts ]");
    assert_eq!(tab_caption(Tab::ApiKeys, Tab::Accounts), "  API Keys  ");
    assert_eq!(form_title(Mode::Edit, Tab::ApiKeys), " Edit API Credential ");
    assert_eq!(footer_hint(Mode::Unlock, Tab::Accounts), "[Enter] unlock  [Esc/q] quit");
    assert_eq!(footer_hint(Mode::List, Tab::Accounts), "");
    assert_eq!(keybinds(Tab::Accounts).len(), 10);
    assert_eq!(keybinds(Tab::ApiKeys)[5], ("1", "copy api key"));
    assert_eq!(pad_right("Tab", 10), "Tab       ");
    assert_eq!(pad_right("longer than ten", 10), "longer than ten");
}
