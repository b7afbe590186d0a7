use vstd::prelude::*;

use crate::app::{App, AppView, InputSlot};
use crate::model::{Mode, Tab};
use crate::text::{string_pop, string_push};

verus! {

/// The keys the vault reacts to; every other key is `Other`.
#[derive(Clone, Copy, Debug, PartialEq, Eq, Structural)]
pub enum KeyCode {
    Char(char),
    Enter,
    Esc,
    Backspace,
    Tab,
    BackTab,
    Up,
    Down,
    Other,
}

/// A key press; `control` holds when Control, and no other modifier, was down.
#[derive(Clone, Copy, Debug, PartialEq, Eq, Structural)]
pub struct KeyPress {
    pub code: KeyCode,
    pub control: bool,
}

/// Work that a key press leaves to the program, because it needs the store
/// or the clipboard.
#[derive(Clone, Copy, Debug, PartialEq, Eq, Structural)]
pub enum Command {
    Nothing,
    SubmitUnlock,
    SubmitSetup,
    SaveForm,
    DeleteSelected,
    SubmitResetMaster,
    CopyUsername,
    CopyPassword,
    CopyApiKey,
    CopyClientId,
    CopyClientSecret,
}

impl AppView {
    pub open spec fn with_field(self, field: crate::model::Field) -> AppView {
        AppView { field: field, ..self }
    }

    /// A character typed into the master password input.
    pub open spec fn after_master_type(self, c: char) -> AppView {
        self.with_input(InputSlot::Master, self.input_master.push(c))
    }

    /// The master password input's last character removed, if any.
    pub open spec fn after_master_backspace(self) -> AppView {
        if self.input_master.len() == 0 {
            self
        } else {
            self.with_input(InputSlot::Master, self.input_master.drop_last())
        }
    }
}

/// A copy key of the list and view screens: which copy it asks for on the
/// active tab, if any.
pub open spec fn copy_command(tab: Tab, code: KeyCode, password_key: char) -> Option<Command> {
    if tab == Tab::Accounts && code == KeyCode::Char(password_key) {
        Some(Command::CopyPassword)
    } else if tab == Tab::Accounts && code == KeyCode::Char('u') {
        Some(Command::CopyUsername)
    } else if tab == Tab::ApiKeys && code == KeyCode::Char('1') {
        Some(Command::CopyApiKey)
    } else if tab == Tab::ApiKeys && code == KeyCode::Char('2') {
        Some(Command::CopyClientId)
    } else if tab == Tab::ApiKeys && code == KeyCode::Char('3') {
        Some(Command::CopyClientSecret)
    } else {
        None
    }
}

/// What a key press does: the state after it, and the work left to the
/// program.
pub open spec fn update_rel(pre: AppView, key: KeyPress, post: AppView, cmd: Command) -> bool {
    let code = key.code;
    if (code == KeyCode::Char('c') || code == KeyCode::Char('C')) && key.control {
        post == pre.after_quit() && cmd == Command::Nothing
    } else if code == KeyCode::Tab && (pre.mode == Mode::List || pre.mode == Mode::View) {
        post == pre.after_switch_tab() && cmd == Command::Nothing
    } else {
        match pre.mode {
            Mode::Unlock => if code == KeyCode::Esc || code == KeyCode::Char('q') {
                post == pre.after_quit() && cmd == Command::Nothing
            } else if code == KeyCode::Enter {
                post == pre && cmd == Command::SubmitUnlock
            } else if code == KeyCode::Backspace {
                post == pre.after_master_backspace() && cmd == Command::Nothing
            } else {
                cmd == Command::Nothing && match code {
                    KeyCode::Char(c) => post == pre.after_master_type(c),
                    _ => post == pre,
                }
            },
            Mode::Setup => if code == KeyCode::Esc || code == KeyCode::Char('q') {
                post == pre.after_quit() && cmd == Command::Nothing
            } else if code == KeyCode::Tab {
                post == pre.with_field(pre.field.setup_next_spec()) && cmd == Command::Nothing
            } else if code == KeyCode::Enter {
                post == pre && cmd == Command::SubmitSetup
            } else if code == KeyCode::Backspace {
                post == pre.after_backspace() && cmd == Command::Nothing
            } else {
                cmd == Command::Nothing && match code {
                    KeyCode::Char(c) => post == pre.after_type(c),
                    _ => post == pre,
                }
            },
            Mode::List => if code == KeyCode::Esc || code == KeyCode::Char('q') {
                post == pre.after_quit() && cmd == Command::Nothing
            } else if code == KeyCode::Up || code == KeyCode::Char('k') {
                post == pre.after_list_up() && cmd == Command::Nothing
            } else if code == KeyCode::Down || code == KeyCode::Char('j') {
                post == pre.after_list_down() && cmd == Command::Nothing
            } else if code == KeyCode::Enter || code == KeyCode::Char('v') {
                post == pre.after_start_view() && cmd == Command::Nothing
            } else if code == KeyCode::Char('a') {
                post == pre.after_start_add() && cmd == Command::Nothing
            } else if code == KeyCode::Char('e') {
                pre.start_edit_rel(post) && cmd == Command::Nothing
            } else if code == KeyCode::Char('d') {
                post == pre && cmd == Command::DeleteSelected
            } else if code == KeyCode::Char('p') {
                post == pre.after_start_reset_master() && cmd == Command::Nothing
            } else {
                post == pre && cmd == match copy_command(pre.tab, code, 'y') {
                    Some(c) => c,
                    None => Command::Nothing,
                }
            },
            Mode::View => if code == KeyCode::Esc || code == KeyCode::Enter || code
                == KeyCode::Char('q') {
                post == pre.after_close_view() && cmd == Command::Nothing
            } else if code == KeyCode::Up || code == KeyCode::Char('k') {
                post == pre.after_list_up() && cmd == Command::Nothing
            } else if code == KeyCode::Down || code == KeyCode::Char('j') {
                post == pre.after_list_down() && cmd == Command::Nothing
            } else if code == KeyCode::Char('r') {
                pre.toggle_reveal_rel(post) && cmd == Command::Nothing
            } else if code == KeyCode::Char('e') {
                pre.after_close_view().start_edit_rel(post) && cmd == Command::Nothing
            } else if code == KeyCode::Char('d') {
                post == pre.after_close_view() && cmd == Command::DeleteSelected
            } else {
                post == pre && cmd == match copy_command(pre.tab, code, 'c') {
                    Some(c) => c,
                    None => Command::Nothing,
                }
            },
            Mode::Add | Mode::Edit => if code == KeyCode::Esc {
                post == pre.after_cancel_form() && cmd == Command::Nothing
            } else if code == KeyCode::Tab {
                post == pre.with_field(
                    if pre.tab == Tab::Accounts {
                        pre.field.account_next_spec()
                    } else {
                        pre.field.api_next_spec()
                    },
                ) && cmd == Command::Nothing
            } else if code == KeyCode::BackTab {
                post == pre.with_field(
                    if pre.tab == Tab::Accounts {
                        pre.field.account_prev_spec()
                    } else {
                        pre.field.api_prev_spec()
                    },
                ) && cmd == Command::Nothing
            } else if code == KeyCode::Enter {
                post == pre && cmd == Command::SaveForm
            } else if code == KeyCode::Backspace {
                post == pre.after_backspace() && cmd == Command::Nothing
            } else {
                cmd == Command::Nothing && match code {
                    KeyCode::Char(c) => post == pre.after_type(c),
                    _ => post == pre,
                }
            },
            Mode::ResetMaster => if code == KeyCode::Esc {
                post == pre.after_cancel_reset_master() && cmd == Command::Nothing
            } else if code == KeyCode::Tab {
                post == pre.with_field(pre.field.reset_next_spec()) && cmd == Command::Nothing
            } else if code == KeyCode::BackTab {
                post == pre.with_field(pre.field.reset_prev_spec()) && cmd == Command::Nothing
            } else if code == KeyCode::Enter {
                post == pre && cmd == Command::SubmitResetMaster
            } else if code == KeyCode::Backspace {
                post == pre.after_backspace() && cmd == Command::Nothing
            } else {
                cmd == Command::Nothing && match code {
                    KeyCode::Char(c) => post == pre.after_type(c),
                    _ => post == pre,
                }
            },
        }
    }
}

/// The copy that a key of the list or view screen asks for.
fn copy_key(tab: Tab, code: KeyCode, password_key: char) -> (r: Command)
    ensures
        r == match copy_command(tab, code, password_key) {
            Some(c) => c,
            None => Command::Nothing,
        },
{
    if tab == Tab::Accounts && code == KeyCode::Char(password_key) {
        Command::CopyPassword
    } else if tab == Tab::Accounts && code == KeyCode::Char('u') {
        Command::CopyUsername
    } else if tab == Tab::ApiKeys && code == KeyCode::Char('1') {
        Command::CopyApiKey
    } else if tab == Tab::ApiKeys && code == KeyCode::Char('2') {
        Command::CopyClientId
    } else if tab == Tab::ApiKeys && code == KeyCode::Char('3') {
        Command::CopyClientSecret
    } else {
        Command::Nothing
    }
}

/// React to a key press; work that needs the store or the clipboard is
/// handed back as a command.
pub fn update(app: &mut App, key_event: KeyPress) -> (cmd: Command)
    ensures
        update_rel(old(app)@, key_event, final(app)@, cmd),
{
    let code = key_event.code;
    if (code == KeyCode::Char('c') || code == KeyCode::Char('C')) && key_event.control {
        app.quit();
        return Command::Nothing;
    }
    // `Tab` switches tabs from the list/view. In forms, Tab cycles fields
    // instead, so it is handled per-mode below.
    if code == KeyCode::Tab && (app.mode == Mode::List || app.mode == Mode::View) {
        app.switch_tab();
        return Command::Nothing;
    }
    match app.mode {
        Mode::Unlock => update_unlock(app, code),
        Mode::Setup => update_setup(app, code),
        Mode::List => update_list(app, code),
        Mode::View => update_view(app, code),
        Mode::Add | Mode::Edit => update_form(app, code),
        Mode::ResetMaster => update_reset_master(app, code),
    }
}

fn update_unlock(app: &mut App, code: KeyCode) -> (cmd: Command)
    requires
        old(app).mode == Mode::Unlock,
    ensures
        update_rel(old(app)@, KeyPress { code, control: false }, final(app)@, cmd),
{
    if code == KeyCode::Esc || code == KeyCode::Char('q') {
        app.quit();
        Command::Nothing
    } else if code == KeyCode::Enter {
        Command::SubmitUnlock
    } else if code == KeyCode::Backspace {
        let _ = string_pop(&mut app.input_master);
        Command::Nothing
    } else {
        if let KeyCode::Char(c) = code {
            string_push(&mut app.input_master, c);
        }
        Command::Nothing
    }
}

fn update_setup(app: &mut App, code: KeyCode) -> (cmd: Command)
    requires
        old(app).mode == Mode::Setup,
    ensures
        update_rel(old(app)@, KeyPress { code, control: false }, final(app)@, cmd),
{
    if code == KeyCode::Esc || code == KeyCode::Char('q') {
        app.quit();
        Command::Nothing
    } else if code == KeyCode::Tab {
        app.field = app.field.setup_next();
        Command::Nothing
    } else if code == KeyCode::Enter {
        Command::SubmitSetup
    } else if code == KeyCode::Backspace {
        app.backspace();
        Command::Nothing
    } else {
        if let KeyCode::Char(c) = code {
            app.type_char(c);
        }
        Command::Nothing
    }
}

fn update_list(app: &mut App, code: KeyCode) -> (cmd: Command)
    requires
        old(app).mode == Mode::List,
        code != KeyCode::Tab,
    ensures
        update_rel(old(app)@, KeyPress { code, control: false }, final(app)@, cmd),
{
    if code == KeyCode::Esc || code == KeyCode::Char('q') {
        app.quit();
        Command::Nothing
    } else if code == KeyCode::Up || code == KeyCode::Char('k') {
        app.list_up();
        Command::Nothing
    } else if code == KeyCode::Down || code == KeyCode::Char('j') {
        app.list_down();
        Command::Nothing
    } else if code == KeyCode::Enter || code == KeyCode::Char('v') {
        app.start_view();
        Command::Nothing
    } else if code == KeyCode::Char('a') {
        app.start_add();
        Command::Nothing
    } else if code == KeyCode::Char('e') {
        app.start_edit();
        Command::Nothing
    } else if code == KeyCode::Char('d') {
        Command::DeleteSelected
    } else if code == KeyCode::Char('p') {
        app.start_reset_master();
        Command::Nothing
    } else {
        copy_key(app.tab, code, 'y')
    }
}

fn update_view(app: &mut App, code: KeyCode) -> (cmd: Command)
    requires
        old(app).mode == Mode::View,
        code != KeyCode::Tab,
    ensures
        update_rel(old(app)@, KeyPress { code, control: false }, final(app)@, cmd),
{
    if code == KeyCode::Esc || code == KeyCode::Enter || code == KeyCode::Char('q') {
        app.close_view();
        Command::Nothing
    } else if code == KeyCode::Up || code == KeyCode::Char('k') {
        app.list_up();
        Command::Nothing
    } else if code == KeyCode::Down || code == KeyCode::Char('j') {
        app.list_down();
        Command::Nothing
    } else if code == KeyCode::Char('r') {
        app.toggle_reveal();
        Command::Nothing
    } else if code == KeyCode::Char('e') {
        app.close_view();
        app.start_edit();
        Command::Nothing
    } else if code == KeyCode::Char('d') {
        app.close_view();
        Command::DeleteSelected
    } else {
        copy_key(app.tab, code, 'c')
    }
}

fn update_form(app: &mut App, code: KeyCode) -> (cmd: Command)
    requires
        old(app).mode == Mode::Add || old(app).mode == Mode::Edit,
    ensures
        update_rel(old(app)@, KeyPress { code, control: false }, final(app)@, cmd),
{
    let is_account_form = app.tab == Tab::Accounts;
    if code == KeyCode::Esc {
        app.cancel_form();
        Command::Nothing
    } else if code == KeyCode::Tab {
        app.field = if is_account_form {
            app.field.account_next()
        } else {
            app.field.api_next()
        };
        Command::Nothing
    } else if code == KeyCode::BackTab {
        app.field = if is_account_form {
            app.field.account_prev()
        } else {
            app.field.api_prev()
        };
        Command::Nothing
    } else if code == KeyCode::Enter {
        Command::SaveForm
    } else if code == KeyCode::Backspace {
        app.backspace();
        Command::Nothing
    } else {
        if let KeyCode::Char(c) = code {
            app.type_char(c);
        }
        Command::Nothing
    }
}

fn update_reset_master(app: &mut App, code: KeyCode) -> (cmd: Command)
    requires
        old(app).mode == Mode::ResetMaster,
    ensures
        update_rel(old(app)@, KeyPress { code, control: false }, final(app)@, cmd),
{
    if code == KeyCode::Esc {
        app.cancel_reset_master();
        Command::Nothing
    } else if code == KeyCode::Tab {
        app.field = app.field.reset_next();
        Command::Nothing
    } else if code == KeyCode::BackTab {
        app.field = app.field.reset_prev();
        Command::Nothing
    } else if code == KeyCode::Enter {
        Command::SubmitResetMaster
    } else if code == KeyCode::Backspace {
        app.backspace();
        Command::Nothing
    } else {
        if let KeyCode::Char(c) = code {
            app.type_char(c);
        }
        Command::Nothing
    }
}

} // verus!
