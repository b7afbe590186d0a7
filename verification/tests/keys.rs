use rusty_vault::app::{Account, App};
use rusty_vault::crypto::MasterKey;
use rusty_vault::model::{Field, Mode, Tab};
use rusty_vault::update::{update, Command, KeyCode, KeyPress};

fn press(code: KeyCode) -> KeyPress {
    KeyPress { code, control: false }
}

fn listing() -> App {
    let mut app = App::new(true);
    app.master_key = Some(MasterKey([2u8; 32]));
    app.mode = Mode::List;
    app.accounts = vec![
        Account { id: 1, website: "a".into(), username: "u".into(), password: String::new() },
        Account { id: 2, website: "b".into(), username: "v".into(), password: String::new() },
    ];
    app
}

#[test]
fn control_c_quits_anywhere() {
    let mut app = listing();
    app.mode = Mode::Add;
    let cmd = update(&mut app, KeyPress { code: KeyCode::Char('C'), control: true });
    assert_eq!(cmd, Command::Nothing);
    assert!(app.should_quit);
    assert!(app.master_key.is_none());
}

#[test]
fn unlock_screen_types_into_master_password() {
    let mut app = App::new(true);
    for c in "pw".chars() {
        assert_eq!(update(&mut app, press(KeyCode::Char(c))), Command::Nothing);
    }
    assert_eq!(app.input_master, "pw");
    update(&mut app, press(KeyCode::Backspace));
    assert_eq!(app.input_master, "p");
    assert_eq!(update(&mut app, press(KeyCode::Enter)), Command::SubmitUnlock);
    update(&mut app, press(KeyCode::Char('q')));
    assert!(app.should_quit);
}

#[test]
fn setup_screen_cycles_between_its_fields() {
    let mut app = App::new(false);
    update(&mut app, press(KeyCode::Char('a')));
    update(&mut app, press(KeyCode::Tab));
    assert_eq!(app.field, Field::MasterConfirm);
    update(&mut app, press(KeyCode::Char('b')));
    assert_eq!(app.input_master, "a");
    assert_eq!(app.input_master_confirm, "b");
    update(&mut app, press(KeyCode::Tab));
    assert_eq!(app.field, Field::Master);
    assert_eq!(update(&mut app, press(KeyCode::Enter)), Command::SubmitSetup);
}

#[test]
fn list_screen_keys() {
    let mut app = listing();
    update(&mut app, press(KeyCode::Char('j')));
    assert_eq!(app.selected, 1);
    update(&mut app, press(KeyCode::Up));
    assert_eq!(app.selected, 0);
    assert_eq!(update(&mut app, press(KeyCode::Char('d'))), Command::DeleteSelected);
    assert_eq!(update(&mut app, press(KeyCode::Char('y'))), Command::CopyPassword);
    assert_eq!(update(&mut app, press(KeyCode::Char('u'))), Command::CopyUsername);
    assert_eq!(update(&mut app, press(KeyCode::Char('1'))), Command::Nothing);
    update(&mut app, press(KeyCode::Tab));
    assert_eq!(app.tab, Tab::ApiKeys);
    assert_eq!(update(&mut app, press(KeyCode::Char('1'))), Command::CopyApiKey);
    assert_eq!(update(&mut app, press(KeyCode::Char('2'))), Command::CopyClientId);
    assert_eq!(update(&mut app, press(KeyCode::Char('3'))), Command::CopyClientSecret);
    assert_eq!(update(&mut app, press(KeyCode::Char('y'))), Command::Nothing);
    update(&mut app, press(KeyCode::Char('a')));
    assert_eq!(app.mode, Mode::Add);
    assert_eq!(app.field, Field::Name);
}

#[test]
fn view_screen_keys() {
    let mut app = listing();
    update(&mut app, press(KeyCode::Enter));
    assert_eq!(app.mode, Mode::View);
    assert_eq!(update(&mut app, press(KeyCode::Char('c'))), Command::CopyPassword);
    assert_eq!(update(&mut app, press(KeyCode::Char('d'))), Command::DeleteSelected);
    assert_eq!(app.mode, Mode::List);
    update(&mut app, press(KeyCode::Char('v')));
    assert_eq!(app.mode, Mode::View);
    update(&mut app, press(KeyCode::Esc));
    assert_eq!(app.mode, Mode::List);
    assert!(!app.should_quit);
}

#[test]
fn form_keys_cycle_fields_and_edit_the_focused_input() {
    let mut app = listing();
    update(&mut app, press(KeyCode::Char('a')));
    update(&mut app, press(KeyCode::Char('x')));
    assert_eq!(app.input_website, "x");
    update(&mut app, press(KeyCode::Tab));
    assert_eq!(app.field, Field::Username);
    update(&mut app, press(KeyCode::BackTab));
    update(&mut app, press(KeyCode::BackTab));
    assert_eq!(app.field, Field::Password);
    update(&mut app, press(KeyCode::Char('q')));
    assert_eq!(app.input_password, "q");
    assert!(!app.should_quit);
    assert_eq!(update(&mut app, press(KeyCode::Enter)), Command::SaveForm);
    update(&mut app, press(KeyCode::Esc));
    assert_eq!(app.mode, Mode::List);
    assert_eq!(app.input_password, "");
}

#[test]
fn reset_screen_keys() {
    let mut app = listing();
    update(&mut app, press(KeyCode::Char('p')));
    assert_eq!(app.mode, Mode::ResetMaster);
    assert_eq!(app.field, Field::OldMaster);
    update(&mut app, press(KeyCode::Char('o')));
    update(&mut app, press(KeyCode::Tab));
    update(&mut app, press(KeyCode::Char('n')));
    assert_eq!(app.input_old_master, "o");
    assert_eq!(app.input_new_master, "n");
    update(&mut app, press(KeyCode::BackTab));
    assert_eq!(app.field, Field::OldMaster);
    assert_eq!(update(&mut app, press(KeyCode::Enter)), Command::SubmitResetMaster);
    update(&mut app, press(KeyCode::Esc));
    assert_eq!(app.mode, Mode::List);
    assert_eq!(app.input_old_master, "");
}

#[test]
fn typing_then_backspace_restores_the_input() {
    let mut app = listing();
    app.start_add();
    app.input_website = "abc".to_string();
    app.type_char('d');
    assert_eq!(app.input_website, "abcd");
    app.backspace();
    assert_eq!(app.input_website, "abc");
    *app.active_input() = "zz".to_string();
    assert_eq!(app.input_website, "zz");
}
