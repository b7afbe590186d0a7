use vstd::prelude::*;

use crate::app::{App, AppView};
use crate::model::{Mode, Revealed, RevealedView, Tab};
use vstd::utf8::encode_utf8;
use crate::text::{joined, owned, string_push};

verus! {

/// `needle` occurs in `hay` at some position.
pub open spec fn occurs_in(needle: Seq<char>, hay: Seq<char>) -> bool {
    exists|i: int| 0 <= i && i + needle.len() <= hay.len() && #[trigger] hay.subrange(i, i + needle.len()) == needle
}

/// `n` asterisks.
pub open spec fn stars_spec(n: nat) -> Seq<char> {
    Seq::new(n, |i: int| '*')
}

/// Whether `needle` occurs in `hay`.
pub fn contains(hay: &str, needle: &str) -> (r: bool)
    ensures
        r == occurs_in(needle@, hay@),
{
    let n = hay.unicode_len();
    let m = needle.unicode_len();
    if m > n {
        proof {
            assert forall|i: int| 0 <= i && i + needle@.len() <= hay@.len() implies #[trigger] hay@.subrange(i, i + needle@.len()) != needle@ by {}
        }
        return false;
    }
    let mut i: usize = 0;
    while i <= n - m
        invariant
            n == hay@.len(),
            m == needle@.len(),
            m <= n,
            i <= n - m + 1,
            forall|k: int| 0 <= k < i ==> #[trigger] hay@.subrange(k, k + m) != needle@,
        decreases n - m + 1 - i,
    {
        let mut j: usize = 0;
        let mut same = true;
        while j < m
            invariant
                n == hay@.len(),
                m == needle@.len(),
                i + m <= n,
                j <= m,
                same <==> (forall|t: int| 0 <= t < j ==> hay@[i + t] == needle@[t]),
            decreases m - j,
        {
            if hay.get_char(i + j) != needle.get_char(j) {
                same = false;
            }
            j = j + 1;
        }
        if same {
            assert(hay@.subrange(i as int, i + m) =~= needle@);
            return true;
        }
        proof {
            let k = choose|t: int| 0 <= t < m && hay@[i + t] != needle@[t];
            assert(hay@.subrange(i as int, i + m)[k] != needle@[k]);
        }
        i = i + 1;
    }
    proof {
        assert forall|k: int| 0 <= k && k + needle@.len() <= hay@.len() implies #[trigger] hay@.subrange(k, k + needle@.len()) != needle@ by {
            assert(k < i);
        }
    }
    false
}

/// A string of `n` asterisks.
pub fn stars(n: usize) -> (r: String)
    ensures
        r@ == stars_spec(n as nat),
{
    let mut r = String::new();
    let mut i: usize = 0;
    while i < n
        invariant
            i <= n,
            r@ == stars_spec(i as nat),
        decreases n - i,
    {
        string_push(&mut r, '*');
        i = i + 1;
        assert(r@ =~= stars_spec(i as nat));
    }
    r
}

/// `n` spaces.
pub open spec fn spaces_spec(n: nat) -> Seq<char> {
    Seq::new(n, |i: int| ' ')
}

/// A field label of a secret: a password, an API key, a client secret or a
/// confirmation.
pub open spec fn is_secret_label(label: Seq<char>) -> bool {
    occurs_in("Password"@, label) || occurs_in("API Key"@, label) || occurs_in(
        "Client Secret"@,
        label,
    ) || occurs_in("Confirm"@, label)
}

/// What a text box labelled `label` shows of `value`: a secret, unless its
/// label says it was revealed, is masked with one asterisk per character.
pub open spec fn field_display_spec(label: Seq<char>, value: Seq<char>) -> Seq<char> {
    if is_secret_label(label) && !occurs_in("revealed"@, label) {
        stars_spec(value.len())
    } else {
        value
    }
}

pub fn field_display(label: &str, value: &str) -> (r: String)
    ensures
        r@ == field_display_spec(label@, value@),
{
    let is_secret = contains(label, "Password") || contains(label, "API Key") || contains(
        label,
        "Client Secret",
    ) || contains(label, "Confirm");
    if is_secret && !contains(label, "revealed") {
        stars(value.unicode_len())
    } else {
        owned(value)
    }
}

/// The placeholder for a sealed value that is not revealed: one asterisk per
/// byte of the stored text, at most 32.
pub open spec fn hidden_spec(blob: Seq<char>) -> Seq<char> {
    let n = encode_utf8(blob).len() as usize;
    stars_spec(if n < 32 {
        n as nat
    } else {
        32
    })
}

pub fn hidden_placeholder(blob: &str) -> (r: String)
    ensures
        r@ == hidden_spec(blob@),
{
    let n = blob.len();
    stars(if n < 32 {
        n
    } else {
        32
    })
}

/// The account password row of the View screen: what it shows and its label.
pub fn account_password_display(revealed: &Revealed, blob: &str) -> (r: (String, &'static str))
    ensures
        match revealed@ {
            RevealedView::AccountPassword(p) => r.0@ == p && r.1@ == " Password (revealed) "@,
            _ => r.0@ == hidden_spec(blob@) && r.1@ == " Password (hidden) "@,
        },
{
    match revealed {
        Revealed::AccountPassword(p) => (p.clone(), " Password (revealed) "),
        _ => (hidden_placeholder(blob), " Password (hidden) "),
    }
}

/// The API key row of the View screen: what it shows and its label.
pub fn api_key_display(revealed: &Revealed, blob: &str) -> (r: (String, &'static str))
    ensures
        blob@.len() == 0 ==> r.0@ == "(not set)"@ && r.1@ == " API Key "@,
        blob@.len() > 0 ==> match revealed@ {
            RevealedView::Api { api_key, .. } => r.0@ == api_key && r.1@
                == " API Key (revealed) "@,
            _ => r.0@ == hidden_spec(blob@) && r.1@ == " API Key (hidden) "@,
        },
{
    if blob.is_empty() {
        (owned("(not set)"), " API Key ")
    } else {
        match revealed {
            Revealed::Api { api_key, .. } => (api_key.clone(), " API Key (revealed) "),
            _ => (hidden_placeholder(blob), " API Key (hidden) "),
        }
    }
}

/// The client secret row of the View screen: what it shows and its label.
pub fn client_secret_display(revealed: &Revealed, blob: &str) -> (r: (String, &'static str))
    ensures
        blob@.len() == 0 ==> r.0@ == "(not set)"@ && r.1@ == " Client Secret "@,
        blob@.len() > 0 ==> match revealed@ {
            RevealedView::Api { client_secret, .. } => r.0@ == client_secret && r.1@
                == " Client Secret (revealed) "@,
            _ => r.0@ == hidden_spec(blob@) && r.1@ == " Client Secret (hidden) "@,
        },
{
    if blob.is_empty() {
        (owned("(not set)"), " Client Secret ")
    } else {
        match revealed {
            Revealed::Api { client_secret, .. } => (
                client_secret.clone(),
                " Client Secret (revealed) ",
            ),
            _ => (hidden_placeholder(blob), " Client Secret (hidden) "),
        }
    }
}

/// Whether the screen shows the tab bar.
pub fn shows_tabs(mode: Mode) -> (r: bool)
    ensures
        r == (mode == Mode::List || mode == Mode::View || mode == Mode::Add || mode == Mode::Edit),
{
    mode == Mode::List || mode == Mode::View || mode == Mode::Add || mode == Mode::Edit
}

/// The caption of `tab` in the tab bar; the active one is bracketed.
pub fn tab_caption(tab: Tab, active: Tab) -> (r: String)
    ensures
        tab == active ==> r@ == "[ "@ + tab.label_text() + " ]"@,
        tab != active ==> r@ == "  "@ + tab.label_text() + "  "@,
{
    let label = tab.label();
    if tab == active {
        let s = joined("[ ", label);
        joined(s.as_str(), " ]")
    } else {
        let s = joined("  ", label);
        joined(s.as_str(), "  ")
    }
}

/// The title of the add/edit form.
pub fn form_title(mode: Mode, tab: Tab) -> (r: &'static str)
    ensures
        r@ == match (tab, mode) {
            (Tab::Accounts, Mode::Add) => " Add Account "@,
            (Tab::Accounts, Mode::Edit) => " Edit Account "@,
            (Tab::Accounts, _) => " Account "@,
            (Tab::ApiKeys, Mode::Add) => " Add API Credential "@,
            (Tab::ApiKeys, Mode::Edit) => " Edit API Credential "@,
            (Tab::ApiKeys, _) => " API Credential "@,
        },
{
    match tab {
        Tab::Accounts => match mode {
            Mode::Add => " Add Account ",
            Mode::Edit => " Edit Account ",
            _ => " Account ",
        },
        Tab::ApiKeys => match mode {
            Mode::Add => " Add API Credential ",
            Mode::Edit => " Edit API Credential ",
            _ => " API Credential ",
        },
    }
}

/// The key hints of the footer.
pub fn footer_hint(mode: Mode, tab: Tab) -> (r: &'static str)
    ensures
        r@ == match mode {
            Mode::Unlock => "[Enter] unlock  [Esc/q] quit"@,
            Mode::Setup => "[Tab] next field  [Enter] create  [Esc/q] quit"@,
            Mode::View => match tab {
                Tab::Accounts => "[r] reveal  [c] copy pw  [u] copy user  [e] edit  [d] delete  [↑/↓] nav  [Esc/Enter] back"@,
                Tab::ApiKeys => "[r] reveal  [1] copy key  [2] copy id  [3] copy secret  [e] edit  [d] delete  [↑/↓] nav  [Esc/Enter] back"@,
            },
            Mode::Add | Mode::Edit => "[Tab] next field  [Backspace] delete  [Enter] save  [Esc] cancel"@,
            Mode::ResetMaster => "[Tab] next field  [Enter] change  [Esc] cancel"@,
            Mode::List => ""@,
        },
{
    match mode {
        Mode::Unlock => "[Enter] unlock  [Esc/q] quit",
        Mode::Setup => "[Tab] next field  [Enter] create  [Esc/q] quit",
        Mode::View => match tab {
            Tab::Accounts => "[r] reveal  [c] copy pw  [u] copy user  [e] edit  [d] delete  [↑/↓] nav  [Esc/Enter] back",
            Tab::ApiKeys => "[r] reveal  [1] copy key  [2] copy id  [3] copy secret  [e] edit  [d] delete  [↑/↓] nav  [Esc/Enter] back",
        },
        Mode::Add | Mode::Edit => "[Tab] next field  [Backspace] delete  [Enter] save  [Esc] cancel",
        Mode::ResetMaster => "[Tab] next field  [Enter] change  [Esc] cancel",
        Mode::List => "",
    }
}

/// Whether the bottom line of the list screen shows the status message.
pub open spec fn status_visible_spec(v: AppView) -> bool {
    v.message.len() > 0 && v.revealed == RevealedView::Nothing
}

/// Whether the footer of the view and reset screens shows the message.
pub open spec fn footer_message_visible_spec(v: AppView) -> bool {
    v.message.len() > 0 && (v.mode == Mode::View || v.mode == Mode::ResetMaster) && v.revealed
        == RevealedView::Nothing
}

/// Whether the bottom line of the list screen shows the status message.
pub fn status_visible(app: &App) -> (r: bool)
    ensures
        r == status_visible_spec(app@),
{
    !app.message.as_str().is_empty() && app.revealed.is_none()
}

/// Whether the footer of the view and reset screens shows the message.
pub fn footer_message_visible(app: &App) -> (r: bool)
    ensures
        r == footer_message_visible_spec(app@),
{
    !app.message.as_str().is_empty() && (app.mode == Mode::View || app.mode == Mode::ResetMaster)
        && app.revealed.is_none()
}

/// The keys and what they do, as the list screen's side panel lists them.
pub open spec fn keybinds_spec(tab: Tab) -> Seq<(Seq<char>, Seq<char>)> {
    match tab {
        Tab::Accounts => seq![
            ("↑/↓  k/j"@, "navigate"@),
            ("Enter/v"@, "view details"@),
            ("a"@, "add account"@),
            ("e"@, "edit account"@),
            ("d"@, "delete account"@),
            ("y"@, "copy password"@),
            ("u"@, "copy username"@),
            ("Tab"@, "switch to API Keys"@),
            ("p"@, "change master pw"@),
            ("q/Esc"@, "quit"@),
        ],
        Tab::ApiKeys => seq![
            ("↑/↓  k/j"@, "navigate"@),
            ("Enter/v"@, "view details"@),
            ("a"@, "add credential"@),
            ("e"@, "edit credential"@),
            ("d"@, "delete credential"@),
            ("1"@, "copy api key"@),
            ("2"@, "copy client id"@),
            ("3"@, "copy client secret"@),
            ("Tab"@, "switch to Accounts"@),
            ("p"@, "change master pw"@),
            ("q/Esc"@, "quit"@),
        ],
    }
}

pub open spec fn pairs_view(v: Seq<(&'static str, &'static str)>) -> Seq<(Seq<char>, Seq<char>)> {
    v.map_values(|p: (&'static str, &'static str)| (p.0@, p.1@))
}

/// The side panel's title.
pub fn keybinds_title(tab: Tab) -> (r: &'static str)
    ensures
        r@ == match tab {
            Tab::Accounts => " Keybinds — Accounts "@,
            Tab::ApiKeys => " Keybinds — API Keys "@,
        },
{
    match tab {
        Tab::Accounts => " Keybinds — Accounts ",
        Tab::ApiKeys => " Keybinds — API Keys ",
    }
}

/// The side panel's rows: keys and what they do.
pub fn keybinds(tab: Tab) -> (r: Vec<(&'static str, &'static str)>)
    ensures
        pairs_view(r@) == keybinds_spec(tab),
{
    let r = match tab {
        Tab::Accounts => vec![
            ("↑/↓  k/j", "navigate"),
            ("Enter/v", "view details"),
            ("a", "add account"),
            ("e", "edit account"),
            ("d", "delete account"),
            ("y", "copy password"),
            ("u", "copy username"),
            ("Tab", "switch to API Keys"),
            ("p", "change master pw"),
            ("q/Esc", "quit"),
        ],
        Tab::ApiKeys => vec![
            ("↑/↓  k/j", "navigate"),
            ("Enter/v", "view details"),
            ("a", "add credential"),
            ("e", "edit credential"),
            ("d", "delete credential"),
            ("1", "copy api key"),
            ("2", "copy client id"),
            ("3", "copy client secret"),
            ("Tab", "switch to Accounts"),
            ("p", "change master pw"),
            ("q/Esc", "quit"),
        ],
    };
    assert(pairs_view(r@) =~= keybinds_spec(tab));
    r
}

/// `keys` padded with spaces to at least `width` characters.
pub fn pad_right(keys: &str, width: usize) -> (r: String)
    ensures
        r@ == keys@ + spaces_spec(if keys@.len() < width {
            (width - keys@.len()) as nat
        } else {
            0
        }),
{
    let mut r = owned(keys);
    let n = keys.unicode_len();
    let mut i = n;
    while i < width
        invariant
            n == keys@.len(),
            n <= i <= width || (i == n && n >= width),
            r@ == keys@ + spaces_spec((i - n) as nat),
        decreases width - i,
    {
        string_push(&mut r, ' ');
        i = i + 1;
        assert(r@ =~= keys@ + spaces_spec((i - n) as nat));
    }
    assert(r@ =~= keys@ + spaces_spec(if keys@.len() < width {
        (width - keys@.len()) as nat
    } else {
        0
    }));
    r
}

} // verus!
