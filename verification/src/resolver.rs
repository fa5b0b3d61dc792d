//! Account resolution and credential checking.
//!
//! A login identifier may be a username or a profile email. Resolution looks
//! the username up first, among non-deleted accounts; when that fails it
//! probes the profile tables for an email match in a fixed order — patient,
//! doctor, admissionist — stopping at the first hit. Admin accounts have no
//! profile table and are therefore resolvable by username only.

use vstd::prelude::*;

use crate::errors::LoginError;
use crate::password::bcrypt_accepts;
use crate::password::verify_password;
use crate::role::Role;
use crate::store::Account;
use crate::store::AuthUserRaw;
use crate::store::CredentialStore;
use crate::store::spec_find_by_email;
use crate::store::spec_find_by_username;
use crate::store::spec_profile_by_account;
use crate::store::lemma_find_by_username_complete;

verus! {

/// The account a login identifier resolves to: by username first, then by
/// email through each profile table in the fixed probe order.
pub open spec fn spec_resolve(store: CredentialStore, identifier: Seq<char>) -> Option<Account> {
    match spec_find_by_username(store.accounts@, identifier) {
        Some(a) => Some(a),
        None => match spec_find_by_email(store.accounts@, store.patients@, identifier) {
            Some(a) => Some(a),
            None => match spec_find_by_email(store.accounts@, store.doctors@, identifier) {
                Some(a) => Some(a),
                None => spec_find_by_email(store.accounts@, store.admissionists@, identifier),
            },
        },
    }
}

/// Maps a login identifier to the owning account, or nothing. Read-only; the
/// fixed probe order is the documented tie-break when the same email occurs
/// in more than one profile table.
pub fn resolve_account(store: &CredentialStore, identifier: &str) -> (r: Option<AuthUserRaw>)
    ensures
        match r {
            Some(u) => {
                &&& spec_resolve(*store, identifier@) matches Some(a)
                &&& u == a.spec_raw()
            },
            None => spec_resolve(*store, identifier@) is None,
        },
{
    if let Some(u) = store.find_account_by_username(identifier) {
        return Some(u);
    }
    if let Some(u) = store.find_account_by_profile_email(Role::Patient, identifier) {
        return Some(u);
    }
    if let Some(u) = store.find_account_by_profile_email(Role::Doctor, identifier) {
        return Some(u);
    }
    store.find_account_by_profile_email(Role::Admissionist, identifier)
}

/// The composed read-model returned after a successful login: account id,
/// username, role, and the role profile's display attributes. Constructed
/// fresh per login, never persisted.
#[derive(Debug)]
pub struct UserInfo {
    pub id: i32,
    pub username: String,
    pub role: Role,
    pub first_name: Option<String>,
    pub last_name: Option<String>,
    pub email: Option<String>,
    pub phone: Option<String>,
}

/// The authenticated profile view for a resolved account: display attributes
/// from the account's own profile table when a linked row exists, empty
/// attributes otherwise — in particular always empty for admin, which owns
/// no profile table.
pub open spec fn spec_user_info_of(store: CredentialStore, u: AuthUserRaw) -> UserInfo {
    match spec_profile_by_account(store.spec_profiles_of(u.role), u.id_user) {
        Some(p) => UserInfo {
            id: u.id_user,
            username: u.username,
            role: u.role,
            first_name: Some(p.first_name),
            last_name: Some(p.first_lastname),
            email: p.email,
            phone: p.phone,
        },
        None => UserInfo {
            id: u.id_user,
            username: u.username,
            role: u.role,
            first_name: None,
            last_name: None,
            email: None,
            phone: None,
        },
    }
}

/// Assembles the authenticated profile view for a resolved account.
pub fn build_user_info(store: &CredentialStore, u: AuthUserRaw) -> (r: UserInfo)
    ensures
        r == spec_user_info_of(*store, u),
{
    match store.find_profile_attributes(u.role, u.id_user) {
        Some(p) => UserInfo {
            id: u.id_user,
            username: u.username,
            role: u.role,
            first_name: Some(p.first_name),
            last_name: Some(p.first_lastname),
            email: p.email,
            phone: p.phone,
        },
        None => UserInfo {
            id: u.id_user,
            username: u.username,
            role: u.role,
            first_name: None,
            last_name: None,
            email: None,
            phone: None,
        },
    }
}

/// What credential checking decides for (identifier, password) over a given
/// snapshot: the resolved account when the password matches its stored hash;
/// `InvalidCredentials` both when nothing resolves and when the password is
/// wrong; `HashCorrupt` when the stored hash cannot be read at all.
pub open spec fn spec_credential_check(
    store: CredentialStore,
    identifier: Seq<char>,
    password: Seq<char>,
) -> Result<Account, LoginError> {
    match spec_resolve(store, identifier) {
        None => Err(LoginError::InvalidCredentials),
        Some(a) => match bcrypt_accepts(password, a.password_hash@) {
            None => Err(LoginError::HashCorrupt),
            Some(false) => Err(LoginError::InvalidCredentials),
            Some(true) => Ok(a),
        },
    }
}

/// Resolves an identifier, checks the password against the stored hash, and
/// assembles the authenticated profile view. No partial success: any failure
/// before the end returns an error and nothing else happens.
pub fn validate_user(store: &CredentialStore, identifier: &str, password: &str) -> (r: Result<
    UserInfo,
    LoginError,
>)
    ensures
        match r {
            Ok(info) => {
                &&& spec_credential_check(*store, identifier@, password@) matches Ok(a)
                &&& info == spec_user_info_of(*store, a.spec_raw())
            },
            Err(e) => spec_credential_check(*store, identifier@, password@) == Err::<
                Account,
                LoginError,
            >(e),
        },
{
    let raw = match resolve_account(store, identifier) {
        Some(u) => u,
        None => {
            return Err(LoginError::InvalidCredentials);
        },
    };
    match verify_password(password, raw.password_hash.as_str()) {
        Ok(true) => Ok(build_user_info(store, raw)),
        Ok(false) => Err(LoginError::InvalidCredentials),
        Err(e) => Err(e),
    }
}

/// Every valid (username, correct password) pair of a non-deleted account
/// passes the credential check and yields exactly that account — the account
/// whose username and stored hash they are. Holds under the store invariant,
/// which makes the username unique among non-deleted rows.
pub proof fn lemma_valid_credentials_accepted(store: CredentialStore, i: int, password: Seq<char>)
    requires
        store.wf(),
        0 <= i < store.accounts@.len(),
        !store.accounts@[i].deleted,
        bcrypt_accepts(password, store.accounts@[i].password_hash@) == Some(true),
    ensures
        spec_credential_check(store, store.accounts@[i].username@, password) == Ok::<
            Account,
            LoginError,
        >(store.accounts@[i]),
{
    lemma_find_by_username_complete(store, i);
}

/// An unresolvable identifier and a wrong password are indistinguishable
/// from outside: both fail the credential check with the same
/// `InvalidCredentials`, which is what makes username enumeration impossible.
pub proof fn lemma_invalid_credentials_conflated(
    store: CredentialStore,
    identifier: Seq<char>,
    password: Seq<char>,
)
    requires
        spec_resolve(store, identifier) is None || (spec_resolve(store, identifier) matches Some(a)
            && bcrypt_accepts(password, a.password_hash@) == Some(false)),
    ensures
        spec_credential_check(store, identifier, password) == Err::<Account, LoginError>(
            LoginError::InvalidCredentials,
        ),
{
}

} // verus!
