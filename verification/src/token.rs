//! The session record and the grant that renews it.

use vstd::prelude::*;
use vstd::std_specs::cmp::PartialEqSpecImpl;

verus! {

/// Authorization scope claimed alongside an access token.
#[derive(Clone, Copy, Debug, PartialEq, Eq, Structural)]
pub enum Role {
    User,
    Admin,
}

/// Mathematical content of a session record.
pub struct TokenModel {
    pub base_url: Seq<char>,
    pub access_token: Seq<char>,
    pub refresh_token: Seq<char>,
    pub is_valid: bool,
    pub role: Role,
}

/// Mathematical content of a grant.
pub struct GrantModel {
    pub access_token: Seq<char>,
    pub refresh_token: Option<Seq<char>>,
    pub expires_in: u64,
}

impl TokenModel {
    /// The record of an application without a session.
    pub open spec fn empty() -> TokenModel {
        TokenModel {
            base_url: Seq::empty(),
            access_token: Seq::empty(),
            refresh_token: Seq::empty(),
            is_valid: false,
            role: Role::User,
        }
    }

    /// A session exists exactly when an access token is held.
    pub open spec fn logged_in(self) -> bool {
        self.access_token.len() > 0
    }

    /// Administrative scope needs a session whose role claims it.
    pub open spec fn admin(self) -> bool {
        self.logged_in() && self.role == Role::Admin
    }

    /// The sole condition under which a renewal is attempted.
    pub open spec fn needs_refresh(self) -> bool {
        !self.is_valid && self.refresh_token.len() > 0
    }

    /// The same record, marked stale.
    pub open spec fn invalidated(self) -> TokenModel {
        TokenModel { is_valid: false, ..self }
    }

    /// The record after a grant was folded into it: the access token is
    /// the grant's, the refresh token is the one the grant carries or else
    /// the one already held, and the record is marked current.
    pub open spec fn renewed(self, grant: GrantModel) -> TokenModel {
        TokenModel {
            access_token: grant.access_token,
            refresh_token: match grant.refresh_token {
                Some(rotated) => rotated,
                None => self.refresh_token,
            },
            is_valid: true,
            ..self
        }
    }
}

/// The unit of authentication state.
///
/// `is_valid` is a staleness flag that only schedules renewals; it never
/// answers whether a session exists.
#[derive(Debug)]
pub struct AuthToken {
    pub base_url: String,
    pub access_token: String,
    pub refresh_token: String,
    pub is_valid: bool,
    pub role: Role,
}

impl View for AuthToken {
    type V = TokenModel;

    open spec fn view(&self) -> TokenModel {
        TokenModel {
            base_url: self.base_url@,
            access_token: self.access_token@,
            refresh_token: self.refresh_token@,
            is_valid: self.is_valid,
            role: self.role,
        }
    }
}

impl Clone for AuthToken {
    fn clone(&self) -> (copy: Self)
        ensures
            copy == *self,
    {
        AuthToken {
            base_url: self.base_url.clone(),
            access_token: self.access_token.clone(),
            refresh_token: self.refresh_token.clone(),
            is_valid: self.is_valid,
            role: self.role,
        }
    }
}

impl PartialEq for AuthToken {
    fn eq(&self, other: &Self) -> (same: bool) {
        self.base_url == other.base_url && self.access_token == other.access_token
            && self.refresh_token == other.refresh_token && self.is_valid == other.is_valid
            && self.role == other.role
    }
}

impl PartialEqSpecImpl for AuthToken {
    open spec fn obeys_eq_spec() -> bool {
        true
    }

    open spec fn eq_spec(&self, other: &Self) -> bool {
        self@ == other@
    }
}

impl Eq for AuthToken {

}

impl Default for AuthToken {
    fn default() -> (token: Self)
        ensures
            token@ == TokenModel::empty(),
    {
        AuthToken {
            base_url: String::new(),
            access_token: String::new(),
            refresh_token: String::new(),
            is_valid: false,
            role: Role::User,
        }
    }
}

impl AuthToken {
    /// Whether a session exists: an access token is held, whatever the
    /// staleness flag says.
    pub fn is_logged_in(&self) -> (yes: bool)
        ensures
            yes == self@.logged_in(),
    {
        !self.access_token.as_str().is_empty()
    }

    /// Whether the session carries administrative scope.
    pub fn is_admin(&self) -> (yes: bool)
        ensures
            yes == self@.admin(),
    {
        self.is_logged_in() && self.role == Role::Admin
    }

    /// Whether a renewal is due: the record is stale and renewable.
    pub fn needs_refresh(&self) -> (yes: bool)
        ensures
            yes == self@.needs_refresh(),
    {
        !self.is_valid && !self.refresh_token.as_str().is_empty()
    }

    /// Marks the record stale and touches nothing else.
    pub fn invalidate(&mut self)
        ensures
            final(self)@ == old(self)@.invalidated(),
    {
        self.is_valid = false;
    }

    /// Folds a grant into the record and marks it current. A grant without
    /// a refresh token leaves the one already held in place; a grant that
    /// carries one replaces it, an empty one included.
    pub fn renew(&mut self, grant: Grant)
        ensures
            final(self)@ == old(self)@.renewed(grant@),
    {
        self.access_token = grant.access_token;
        match grant.refresh_token {
            Some(rotated) => {
                self.refresh_token = rotated;
            },
            None => {},
        }
        self.is_valid = true;
    }
}

/// The result of a successful renewal call.
#[derive(Debug)]
pub struct Grant {
    pub access_token: String,
    pub refresh_token: Option<String>,
    /// Lifetime of the new access token in seconds; zero means no expiry
    /// was announced.
    pub expires_in: u64,
}

impl View for Grant {
    type V = GrantModel;

    open spec fn view(&self) -> GrantModel {
        GrantModel {
            access_token: self.access_token@,
            refresh_token: match self.refresh_token {
                Some(rotated) => Some(rotated@),
                None => None,
            },
            expires_in: self.expires_in,
        }
    }
}

/// A record that holds an access token is a session, whatever its
/// staleness flag says; the flag bears on neither derived view.
pub proof fn law_staleness_is_not_authorization(record: TokenModel, flag: bool)
    ensures
        record.access_token.len() > 0 ==> (TokenModel { is_valid: flag, ..record }).logged_in(),
        (TokenModel { is_valid: flag, ..record }).logged_in() == record.logged_in(),
        (TokenModel { is_valid: flag, ..record }).admin() == record.admin(),
{
}

/// Without an access token there is neither a session nor administrative
/// scope, whatever role the record claims.
pub proof fn law_no_token_no_access(record: TokenModel)
    requires
        record.access_token.len() == 0,
    ensures
        !record.logged_in(),
        !record.admin(),
{
}

} // verus!
