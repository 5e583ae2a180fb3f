//! Where the credentials live in the keychain, and the rules for reading
//! and writing them.  The keychain itself is reached by the caller.
use vstd::prelude::*;
use vstd::string::StringExecFns;

use crate::text::DEFAULT_BASE_URL;

verus! {

/// The keychain service under which every credential is filed.
pub const SERVICE: &'static str = "com.token-monitor.app";

/// The credentials kept in the keychain.
#[derive(Debug, Clone, Copy, PartialEq, Eq)]
pub enum Credential {
    AccessToken,
    RefreshToken,
    BaseUrl,
}

pub open spec fn account_name(c: Credential) -> Seq<char> {
    match c {
        Credential::AccessToken => "fufei-account"@,
        Credential::RefreshToken => "fufei-refresh"@,
        Credential::BaseUrl => "fufei-baseurl"@,
    }
}

impl Credential {
    /// The keychain account name of this credential.
    pub fn account(self) -> (r: &'static str)
        ensures
            r@ == account_name(self),
    {
        match self {
            Credential::AccessToken => "fufei-account",
            Credential::RefreshToken => "fufei-refresh",
            Credential::BaseUrl => "fufei-baseurl",
        }
    }
}

/// How reading a keychain entry failed: there was no such entry, or the
/// keychain reported another error (described by the text).
#[derive(Debug, PartialEq, Eq)]
pub enum KeyringFailure {
    NoEntry,
    Other(String),
}

/// What the credential store can fail with.
#[derive(Debug, PartialEq, Eq)]
pub enum AuthError {
    /// The keychain reported an error, described by the text.
    Keyring(String),
    /// No access token is stored.
    NotFound,
}

/// `AuthError` with its text as a character sequence.
pub enum AuthFailure {
    Keyring(Seq<char>),
    NotFound,
}

impl View for AuthError {
    type V = AuthFailure;

    open spec fn view(&self) -> AuthFailure {
        match self {
            AuthError::Keyring(m) => AuthFailure::Keyring(m@),
            AuthError::NotFound => AuthFailure::NotFound,
        }
    }
}

/// The text shown for a credential store failure.
pub open spec fn auth_failure_text(f: AuthFailure) -> Seq<char> {
    match f {
        AuthFailure::Keyring(m) => "keyring error: "@ + m,
        AuthFailure::NotFound => "no stored token"@,
    }
}

impl AuthError {
    /// The text shown for this failure.
    pub fn message(&self) -> (r: String)
        ensures
            r@ == auth_failure_text(self@),
    {
        match self {
            AuthError::Keyring(m) => {
                let mut r = String::from_str("keyring error: ");
                r.append(m.as_str());
                r
            },
            AuthError::NotFound => String::from_str("no stored token"),
        }
    }
}

/// The access token as the keychain read gave it: a missing entry means
/// that no token is stored, any other failure is a keychain error.
pub fn access_token_from(read: Result<String, KeyringFailure>) -> (r: Result<String, AuthError>)
    ensures
        match read {
            Ok(t) => r == Ok::<String, AuthError>(t),
            Err(KeyringFailure::NoEntry) => r matches Err(AuthError::NotFound),
            Err(KeyringFailure::Other(m)) => r matches Err(AuthError::Keyring(k)) && k@ == m@,
        },
{
    match read {
        Ok(t) => Ok(t),
        Err(KeyringFailure::NoEntry) => Err(AuthError::NotFound),
        Err(KeyringFailure::Other(m)) => Err(AuthError::Keyring(m)),
    }
}

/// The base URL to use: the stored one, or the default when none could be
/// read.
pub fn base_url_or_default(stored: Option<String>) -> (r: String)
    ensures
        r@ == match stored {
            Some(u) => u@,
            None => DEFAULT_BASE_URL@,
        },
{
    match stored {
        Some(u) => u,
        None => String::from_str(DEFAULT_BASE_URL),
    }
}

/// What storing tokens does to the stored refresh token: replace it, keep
/// it, or remove it.
#[derive(Debug, PartialEq, Eq)]
pub enum RefreshTokenUpdate {
    Replace(String),
    Keep,
    Remove,
}

/// `RefreshTokenUpdate` with its text as a character sequence.
pub enum RefreshUpdateView {
    Replace(Seq<char>),
    Keep,
    Remove,
}

impl View for RefreshTokenUpdate {
    type V = RefreshUpdateView;

    open spec fn view(&self) -> RefreshUpdateView {
        match self {
            RefreshTokenUpdate::Replace(r) => RefreshUpdateView::Replace(r@),
            RefreshTokenUpdate::Keep => RefreshUpdateView::Keep,
            RefreshTokenUpdate::Remove => RefreshUpdateView::Remove,
        }
    }
}

/// The update for a refresh token handed out by the server: replace the
/// stored one with it, or keep the stored one when none came.
pub open spec fn handed_out(refresh_token: Option<String>) -> RefreshUpdateView {
    match refresh_token {
        Some(r) => RefreshUpdateView::Replace(r@),
        None => RefreshUpdateView::Keep,
    }
}

/// The update for a refresh token handed out by the server.
pub fn refresh_update(refresh_token: Option<String>) -> (u: RefreshTokenUpdate)
    ensures
        u@ == handed_out(refresh_token),
{
    match refresh_token {
        Some(r) => RefreshTokenUpdate::Replace(r),
        None => RefreshTokenUpdate::Keep,
    }
}

/// One change to the keychain.
#[derive(Debug, PartialEq, Eq)]
pub enum KeychainWrite {
    Store(Credential, String),
    Delete(Credential),
}

/// The keychain changes that store tokens, in order: the access token,
/// then the refresh token when it is replaced, or its removal.
pub fn token_writes(access: &str, refresh: &RefreshTokenUpdate) -> (w: Vec<KeychainWrite>)
    ensures
        w@.len() == if refresh@ is Keep { 1int } else { 2int },
        w@[0] matches KeychainWrite::Store(c, a) && c == Credential::AccessToken && a@ == access@,
        refresh@ matches RefreshUpdateView::Replace(r) ==> (w@[1] matches KeychainWrite::Store(c, v)
            && c == Credential::RefreshToken && v@ == r),
        refresh@ is Remove ==> w@[1] == KeychainWrite::Delete(Credential::RefreshToken),
{
    let mut w: Vec<KeychainWrite> = Vec::new();
    w.push(KeychainWrite::Store(Credential::AccessToken, String::from_str(access)));
    match refresh {
        RefreshTokenUpdate::Replace(r) => w.push(
            KeychainWrite::Store(Credential::RefreshToken, String::from_str(r.as_str())),
        ),
        RefreshTokenUpdate::Keep => {},
        RefreshTokenUpdate::Remove => w.push(KeychainWrite::Delete(Credential::RefreshToken)),
    }
    w
}

/// How a keychain deletion went: an entry that is already gone counts as
/// removed, any other failure is a keychain error.
pub fn deletion_outcome(deleted: Result<(), KeyringFailure>) -> (r: Result<(), AuthError>)
    ensures
        match deleted {
            Ok(()) => r is Ok,
            Err(KeyringFailure::NoEntry) => r is Ok,
            Err(KeyringFailure::Other(m)) => r matches Err(AuthError::Keyring(k)) && k@ == m@,
        },
{
    match deleted {
        Ok(()) => Ok(()),
        Err(KeyringFailure::NoEntry) => Ok(()),
        Err(KeyringFailure::Other(m)) => Err(AuthError::Keyring(m)),
    }
}

/// The refresh token as the keychain read gave it: any failure means that
/// there is none to use.
pub fn refresh_token_from(read: Result<String, KeyringFailure>) -> (r: Option<String>)
    ensures
        match read {
            Ok(t) => r == Some(t),
            Err(_) => r is None,
        },
{
    match read {
        Ok(t) => Some(t),
        Err(_) => None,
    }
}

/// The credentials that logging out removes, in order.
pub fn credentials_to_clear() -> (v: Vec<Credential>)
    ensures
        v@ == seq![Credential::AccessToken, Credential::RefreshToken, Credential::BaseUrl],
{
    let mut v: Vec<Credential> = Vec::new();
    v.push(Credential::AccessToken);
    v.push(Credential::RefreshToken);
    v.push(Credential::BaseUrl);
    v
}

/// How removing one credential while logging out went: logging out is
/// best effort, so a failed removal does not fail it.
pub fn clearing_outcome(deleted: Result<(), KeyringFailure>) -> (r: Result<(), AuthError>)
    ensures
        r is Ok,
{
    match deleted {
        Ok(()) => Ok(()),
        Err(_) => Ok(()),
    }
}

} // verus!
