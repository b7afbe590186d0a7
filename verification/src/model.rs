use vstd::prelude::*;

use crate::wipe::wipe_string;

verus! {

/// The screen the vault is showing.
#[derive(Clone, Copy, Debug, PartialEq, Eq, Structural)]
pub enum Mode {
    Unlock,
    Setup,
    List,
    View,
    Add,
    Edit,
    ResetMaster,
}

/// The two lists the vault keeps.
#[derive(Clone, Copy, Debug, PartialEq, Eq, Structural)]
pub enum Tab {
    Accounts,
    ApiKeys,
}

impl Tab {
    /// The other tab.
    pub open spec fn toggled(self) -> Tab {
        match self {
            Tab::Accounts => Tab::ApiKeys,
            Tab::ApiKeys => Tab::Accounts,
        }
    }

    pub fn toggle(self) -> (r: Self)
        ensures
            r == self.toggled(),
            r != self,
    {
        match self {
            Tab::Accounts => Tab::ApiKeys,
            Tab::ApiKeys => Tab::Accounts,
        }
    }

    pub open spec fn label_text(self) -> Seq<char> {
        match self {
            Tab::Accounts => "Accounts"@,
            Tab::ApiKeys => "API Keys"@,
        }
    }

    pub fn label(self) -> (r: &'static str)
        ensures
            r@ == self.label_text(),
    {
        match self {
            Tab::Accounts => "Accounts",
            Tab::ApiKeys => "API Keys",
        }
    }
}

/// Toggling the tab twice gives back the tab one started from.
pub proof fn law_toggle_involutive(t: Tab)
    ensures
        t.toggled().toggled() == t,
        t.toggled() != t,
{
}

/// The input fields of every form.
#[derive(Clone, Copy, Debug, PartialEq, Eq, Structural)]
pub enum Field {
    // Auth forms
    Master,
    MasterConfirm,
    // Reset master password form
    OldMaster,
    NewMaster,
    NewMasterConfirm,
    // Account form
    Website,
    Username,
    Password,
    // API credential form
    Name,
    ApiKey,
    ClientId,
    ClientSecret,
}

impl Field {
    /// The fields of the account form, in order.
    pub open spec fn is_account_field(self) -> bool {
        self == Field::Website || self == Field::Username || self == Field::Password
    }

    /// The fields of the API credential form, in order.
    pub open spec fn is_api_field(self) -> bool {
        self == Field::Name || self == Field::ApiKey || self == Field::ClientId || self
            == Field::ClientSecret
    }

    /// The fields of the setup form.
    pub open spec fn is_setup_field(self) -> bool {
        self == Field::Master || self == Field::MasterConfirm
    }

    /// The fields of the master password reset form.
    pub open spec fn is_reset_field(self) -> bool {
        self == Field::OldMaster || self == Field::NewMaster || self == Field::NewMasterConfirm
    }

    pub open spec fn account_next_spec(self) -> Field {
        match self {
            Field::Website => Field::Username,
            Field::Username => Field::Password,
            Field::Password => Field::Website,
            _ => self,
        }
    }

    pub open spec fn account_prev_spec(self) -> Field {
        match self {
            Field::Website => Field::Password,
            Field::Username => Field::Website,
            Field::Password => Field::Username,
            _ => self,
        }
    }

    pub open spec fn api_next_spec(self) -> Field {
        match self {
            Field::Name => Field::ApiKey,
            Field::ApiKey => Field::ClientId,
            Field::ClientId => Field::ClientSecret,
            Field::ClientSecret => Field::Name,
            _ => self,
        }
    }

    pub open spec fn api_prev_spec(self) -> Field {
        match self {
            Field::Name => Field::ClientSecret,
            Field::ApiKey => Field::Name,
            Field::ClientId => Field::ApiKey,
            Field::ClientSecret => Field::ClientId,
            _ => self,
        }
    }

    pub open spec fn setup_next_spec(self) -> Field {
        match self {
            Field::Master => Field::MasterConfirm,
            Field::MasterConfirm => Field::Master,
            _ => self,
        }
    }

    pub open spec fn reset_next_spec(self) -> Field {
        match self {
            Field::OldMaster => Field::NewMaster,
            Field::NewMaster => Field::NewMasterConfirm,
            Field::NewMasterConfirm => Field::OldMaster,
            _ => self,
        }
    }

    pub open spec fn reset_prev_spec(self) -> Field {
        match self {
            Field::OldMaster => Field::NewMasterConfirm,
            Field::NewMaster => Field::OldMaster,
            Field::NewMasterConfirm => Field::NewMaster,
            _ => self,
        }
    }

    /// Cycle fields for the account Add/Edit form.
    pub fn account_next(self) -> (r: Self)
        ensures
            r == self.account_next_spec(),
    {
        match self {
            Field::Website => Field::Username,
            Field::Username => Field::Password,
            Field::Password => Field::Website,
            _ => self,
        }
    }

    pub fn account_prev(self) -> (r: Self)
        ensures
            r == self.account_prev_spec(),
    {
        match self {
            Field::Website => Field::Password,
            Field::Username => Field::Website,
            Field::Password => Field::Username,
            _ => self,
        }
    }

    /// Cycle fields for the API credential Add/Edit form.
    pub fn api_next(self) -> (r: Self)
        ensures
            r == self.api_next_spec(),
    {
        match self {
            Field::Name => Field::ApiKey,
            Field::ApiKey => Field::ClientId,
            Field::ClientId => Field::ClientSecret,
            Field::ClientSecret => Field::Name,
            _ => self,
        }
    }

    pub fn api_prev(self) -> (r: Self)
        ensures
            r == self.api_prev_spec(),
    {
        match self {
            Field::Name => Field::ClientSecret,
            Field::ApiKey => Field::Name,
            Field::ClientId => Field::ApiKey,
            Field::ClientSecret => Field::ClientId,
            _ => self,
        }
    }

    /// Cycle fields for the Setup form.
    pub fn setup_next(self) -> (r: Self)
        ensures
            r == self.setup_next_spec(),
    {
        match self {
            Field::Master => Field::MasterConfirm,
            Field::MasterConfirm => Field::Master,
            _ => self,
        }
    }

    /// Cycle fields for the Reset Master Password form.
    pub fn reset_next(self) -> (r: Self)
        ensures
            r == self.reset_next_spec(),
    {
        match self {
            Field::OldMaster => Field::NewMaster,
            Field::NewMaster => Field::NewMasterConfirm,
            Field::NewMasterConfirm => Field::OldMaster,
            _ => self,
        }
    }

    pub fn reset_prev(self) -> (r: Self)
        ensures
            r == self.reset_prev_spec(),
    {
        match self {
            Field::OldMaster => Field::NewMasterConfirm,
            Field::NewMaster => Field::OldMaster,
            Field::NewMasterConfirm => Field::NewMaster,
            _ => self,
        }
    }
}

/// In each form, stepping back undoes stepping forward and stepping forward
/// undoes stepping back; the setup form's two fields alternate.
pub proof fn law_field_prev_undoes_next(f: Field)
    ensures
        f.account_next_spec().account_prev_spec() == f,
        f.account_prev_spec().account_next_spec() == f,
        f.api_next_spec().api_prev_spec() == f,
        f.api_prev_spec().api_next_spec() == f,
        f.reset_next_spec().reset_prev_spec() == f,
        f.reset_prev_spec().reset_next_spec() == f,
        f.setup_next_spec().setup_next_spec() == f,
{
}

/// Each form's cycle stays inside the form, visits all of its fields, and
/// comes back to the start after as many steps as the form has fields;
/// a field of another form is left where it is.
pub proof fn law_field_cycles(f: Field)
    ensures
        f.is_account_field() ==> f.account_next_spec().is_account_field() && f
            != f.account_next_spec() && f.account_next_spec().account_next_spec().account_next_spec()
            == f,
        !f.is_account_field() ==> f.account_next_spec() == f && f.account_prev_spec() == f,
        f.is_api_field() ==> f.api_next_spec().is_api_field() && f != f.api_next_spec() && f
            != f.api_next_spec().api_next_spec() && f.api_next_spec().api_next_spec().api_next_spec().api_next_spec()
            == f,
        !f.is_api_field() ==> f.api_next_spec() == f && f.api_prev_spec() == f,
        f.is_setup_field() ==> f.setup_next_spec().is_setup_field() && f != f.setup_next_spec(),
        !f.is_setup_field() ==> f.setup_next_spec() == f,
        f.is_reset_field() ==> f.reset_next_spec().is_reset_field() && f != f.reset_next_spec()
            && f.reset_next_spec().reset_next_spec().reset_next_spec() == f,
        !f.is_reset_field() ==> f.reset_next_spec() == f && f.reset_prev_spec() == f,
{
}

/// Decrypted secrets currently shown in the View screen.
#[derive(Clone, Debug)]
pub enum Revealed {
    Nothing,
    AccountPassword(String),
    Api { api_key: String, client_secret: String },
}

/// What a `Revealed` holds, as character sequences.
pub ghost enum RevealedView {
    Nothing,
    AccountPassword(Seq<char>),
    Api { api_key: Seq<char>, client_secret: Seq<char> },
}

impl View for Revealed {
    type V = RevealedView;

    open spec fn view(&self) -> RevealedView {
        match self {
            Revealed::Nothing => RevealedView::Nothing,
            Revealed::AccountPassword(p) => RevealedView::AccountPassword(p@),
            Revealed::Api { api_key, client_secret } => RevealedView::Api {
                api_key: api_key@,
                client_secret: client_secret@,
            },
        }
    }
}

impl Default for Revealed {
    fn default() -> (r: Self)
        ensures
            r@ == RevealedView::Nothing,
    {
        Revealed::Nothing
    }
}

impl Revealed {
    pub fn is_none(&self) -> (r: bool)
        ensures
            r == (self@ == RevealedView::Nothing),
    {
        match self {
            Revealed::Nothing => true,
            _ => false,
        }
    }

    /// Overwrite any held plaintext with zeros and reset to `Nothing`.
    pub fn clear(&mut self)
        ensures
            final(self)@ == RevealedView::Nothing,
    {
        match self {
            Revealed::Nothing => {},
            Revealed::AccountPassword(p) => wipe_string(p),
            Revealed::Api { api_key, client_secret } => {
                wipe_string(api_key);
                wipe_string(client_secret);
            },
        }
        *self = Revealed::Nothing;
    }
}

} // verus!
