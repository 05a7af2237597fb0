//! Credentials and the per-project access policy that judges them.

use vstd::prelude::*;
use vstd::std_specs::convert::FromSpecImpl;
use crate::text::str_eq;

verus! {

/// A named bearer secret. Only `value` is compared; `name` is for people.
#[derive(Debug, Clone)]
pub struct Token {
    pub name: String,
    pub value: String,
}

/// A username with its password.
#[derive(Debug, Clone)]
pub struct UsernamePassword {
    pub username: String,
    pub password: String,
}

/// The access policy of one project.
#[derive(Debug, Clone)]
pub struct Auth {
    pub tokens: Vec<Token>,
    pub passwords: Vec<UsernamePassword>,
    pub enabled: bool,
}

/// Proof of identity that a caller offers.
pub trait Credentials {
    /// Whether these credentials match a secret that `auth` holds.
    spec fn accepted_by(&self, auth: &Auth) -> bool;

    fn is_valid(&self, auth: &Auth) -> (ok: bool)
        ensures
            ok == self.accepted_by(auth),
    ;
}

impl Auth {
    /// Some token of the policy has exactly this value.
    pub open spec fn has_token(&self, value: Seq<char>) -> bool {
        exists|i: int| 0 <= i < self.tokens@.len() && (#[trigger] self.tokens@[i]).value@ == value
    }

    /// The token at `i` has this value and no earlier token has it.
    pub open spec fn is_first_token(&self, i: int, value: Seq<char>) -> bool {
        &&& 0 <= i < self.tokens@.len()
        &&& self.tokens@[i].value@ == value
        &&& forall|j: int| 0 <= j < i ==> (#[trigger] self.tokens@[j]).value@ != value
    }

    /// Some entry of the policy has exactly this username and this password.
    pub open spec fn has_password(&self, username: Seq<char>, password: Seq<char>) -> bool {
        exists|i: int|
            0 <= i < self.passwords@.len() && (#[trigger] self.passwords@[i]).username@ == username
                && self.passwords@[i].password@ == password
    }

    /// What the policy decides: a disabled policy lets everyone in, an
    /// enabled one asks the credentials.
    pub open spec fn permits<C: Credentials>(&self, cred: &C) -> bool {
        !self.enabled || cred.accepted_by(self)
    }

    /// Decides whether `cred` satisfies this policy. The `enabled` gate is
    /// looked at before any secret is compared.
    pub fn is_valid<C: Credentials>(&self, cred: C) -> (ok: bool)
        ensures
            ok == self.permits(&cred),
    {
        if !self.enabled {
            true
        } else {
            cred.is_valid(self)
        }
    }

    /// The first token whose value is exactly `value`.
    pub fn get_token(&self, value: &str) -> (found: Option<&Token>)
        ensures
            match found {
                Some(t) => exists|i: int| self.is_first_token(i, value@) && *t == self.tokens@[i],
                None => !self.has_token(value@),
            },
    {
        let mut i: usize = 0;
        while i < self.tokens.len()
            invariant
                i <= self.tokens@.len(),
                forall|j: int| 0 <= j < i ==> (#[trigger] self.tokens@[j]).value@ != value@,
            decreases self.tokens@.len() - i,
        {
            if str_eq(self.tokens[i].value.as_str(), value) {
                assert(self.is_first_token(i as int, value@));
                return Some(&self.tokens[i]);
            }
            i += 1;
        }
        None
    }
}

/// A policy that does not say otherwise is enabled.
pub fn default_enabled() -> (enabled: bool)
    ensures
        enabled,
{
    true
}

/// No credentials at all.
pub struct EmptyCredentials;

impl Credentials for EmptyCredentials {
    open spec fn accepted_by(&self, auth: &Auth) -> bool {
        false
    }

    fn is_valid(&self, _auth: &Auth) -> (ok: bool) {
        false
    }
}

/// A username and a password, as the caller typed them.
pub struct PasswordCredentials {
    pub username: String,
    pub password: String,
}

impl Credentials for PasswordCredentials {
    open spec fn accepted_by(&self, auth: &Auth) -> bool {
        auth.has_password(self.username@, self.password@)
    }

    fn is_valid(&self, auth: &Auth) -> (ok: bool) {
        let mut i: usize = 0;
        while i < auth.passwords.len()
            invariant
                i <= auth.passwords@.len(),
                forall|j: int|
                    0 <= j < i ==> !((#[trigger] auth.passwords@[j]).username@ == self.username@
                        && auth.passwords@[j].password@ == self.password@),
            decreases auth.passwords@.len() - i,
        {
            let entry = &auth.passwords[i];
            if str_eq(entry.username.as_str(), self.username.as_str()) && str_eq(
                entry.password.as_str(),
                self.password.as_str(),
            ) {
                return true;
            }
            i += 1;
        }
        false
    }
}

impl From<(String, String)> for PasswordCredentials {
    fn from(pair: (String, String)) -> (cred: Self)
        ensures
            cred.username == pair.0,
            cred.password == pair.1,
    {
        Self { username: pair.0, password: pair.1 }
    }
}

impl FromSpecImpl<(String, String)> for PasswordCredentials {
    open spec fn obeys_from_spec() -> bool {
        true
    }

    open spec fn from_spec(pair: (String, String)) -> Self {
        PasswordCredentials { username: pair.0, password: pair.1 }
    }
}

impl From<(&str, &str)> for PasswordCredentials {
    fn from(pair: (&str, &str)) -> (cred: Self)
        ensures
            cred.username@ == pair.0@,
            cred.password@ == pair.1@,
    {
        Self { username: pair.0.to_owned(), password: pair.1.to_owned() }
    }
}

impl FromSpecImpl<(&str, &str)> for PasswordCredentials {
    open spec fn obeys_from_spec() -> bool {
        false
    }

    open spec fn from_spec(pair: (&str, &str)) -> Self {
        arbitrary()
    }
}

/// A bearer token, or the lack of one.
pub struct TokenCredentials {
    token: Option<String>,
}

impl View for TokenCredentials {
    type V = Option<Seq<char>>;

    closed spec fn view(&self) -> Option<Seq<char>> {
        match self.token {
            Some(t) => Some(t@),
            None => None,
        }
    }
}

impl Credentials for TokenCredentials {
    open spec fn accepted_by(&self, auth: &Auth) -> bool {
        match self@ {
            Some(value) => auth.has_token(value),
            None => false,
        }
    }

    fn is_valid(&self, auth: &Auth) -> (ok: bool) {
        match &self.token {
            Some(t) => auth.get_token(t.as_str()).is_some(),
            None => false,
        }
    }
}

impl From<&str> for TokenCredentials {
    fn from(val: &str) -> (cred: Self)
        ensures
            cred@ == Some(val@),
    {
        Self { token: Some(val.to_owned()) }
    }
}

impl FromSpecImpl<&str> for TokenCredentials {
    open spec fn obeys_from_spec() -> bool {
        false
    }

    open spec fn from_spec(val: &str) -> Self {
        arbitrary()
    }
}

impl From<String> for TokenCredentials {
    fn from(val: String) -> (cred: Self)
        ensures
            cred@ == Some(val@),
    {
        Self { token: Some(val) }
    }
}

impl FromSpecImpl<String> for TokenCredentials {
    open spec fn obeys_from_spec() -> bool {
        true
    }

    closed spec fn from_spec(val: String) -> Self {
        TokenCredentials { token: Some(val) }
    }
}

impl Default for TokenCredentials {
    fn default() -> (cred: Self)
        ensures
            cred@ is None,
    {
        Self { token: None }
    }
}

impl TokenCredentials {
    /// Credentials from what a request carried: a missing value is no
    /// error, it gives the credentials that match nothing.
    pub fn from_opt(token: Option<String>) -> (cred: Self)
        ensures
            cred@ == match token {
                Some(t) => Some(t@),
                None => None,
            },
    {
        Self { token }
    }

    pub fn empty() -> (cred: Self)
        ensures
            cred@ is None,
    {
        Self { token: None }
    }
}

/// A disabled policy permits every credential, the lack of one included.
pub proof fn lemma_disabled_policy_permits_all<C: Credentials>(auth: &Auth, cred: &C)
    requires
        !auth.enabled,
    ensures
        auth.permits(cred),
{
}

/// An enabled policy that holds no secret permits no credential of any of
/// the three kinds.
pub proof fn lemma_policy_without_secrets_permits_none(
    auth: &Auth,
    empty: &EmptyCredentials,
    token: &TokenCredentials,
    password: &PasswordCredentials,
)
    requires
        auth.enabled,
        auth.tokens@.len() == 0,
        auth.passwords@.len() == 0,
    ensures
        !auth.permits(empty),
        !auth.permits(token),
        !auth.permits(password),
{
}

/// An enabled policy never permits the lack of credentials, whatever
/// secrets it holds.
pub proof fn lemma_enabled_policy_rejects_absence(
    auth: &Auth,
    empty: &EmptyCredentials,
    token: &TokenCredentials,
)
    requires
        auth.enabled,
        token@ is None,
    ensures
        !auth.permits(empty),
        !auth.permits(token),
{
}

} // verus!
