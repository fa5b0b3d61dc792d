//! The authentication service: resolve, verify, assemble the profile view,
//! issue a token — strictly in that order, with no partial success. A
//! failure before issuance never produces a token.

use vstd::prelude::*;

use crate::errors::LoginError;
use crate::errors::TokenError;
use crate::resolver::UserInfo;
use crate::resolver::spec_credential_check;
use crate::resolver::spec_user_info_of;
use crate::resolver::validate_user;
use crate::role::Role;
use crate::store::Account;
use crate::store::CredentialStore;
use crate::token::Claims;
use crate::token::compute_expiry;
use crate::token::issue_token;
use crate::token::jwt_payload;
use crate::token::jwt_token_of;
use crate::token::now_unix;
use crate::token::spec_validate;
use crate::token::validate_token;

verus! {

/// Token lifetime of the reference policy, in minutes.
pub const TOKEN_LIFETIME_MINUTES: u64 = 60;

/// Process configuration the subsystem consumes: the signing secret and the
/// token lifetime. Built once at startup and passed by reference; never
/// re-read from the environment per request.
pub struct AuthConfig {
    pub secret: Vec<u8>,
    pub lifetime_minutes: u64,
}

/// Everything a successful login returns: the signed token, the claims
/// embedded in it, and the authenticated profile view.
#[derive(Debug)]
pub struct LoginSuccess {
    pub token: String,
    pub claims: Claims,
    pub user: UserInfo,
}

/// The authentication service over one snapshot of the credential rows and
/// one immutable configuration.
pub struct AuthService {
    pub store: CredentialStore,
    pub config: AuthConfig,
}

impl AuthService {
    /// Builds the service around a credential snapshot and a configuration.
    pub fn new(store: CredentialStore, config: AuthConfig) -> (r: AuthService)
        ensures
            r.store == store,
            r.config == config,
    {
        AuthService { store, config }
    }

    /// Attempts a login at an explicit clock value. Exactly the accepted
    /// credentials succeed: on success the token string is determined by the
    /// account, the expiry and the secret, its payload carries the account's
    /// username and role string and an expiry one configured lifetime past
    /// the clock, and the profile view is the account's own. On failure the
    /// error is exactly what the credential check decides — except
    /// `TokenIssueFailed`, which occurs precisely when the credentials were
    /// accepted but the expiry does not fit the timestamp type.
    pub fn login_at(&self, identifier: &str, password: &str, now: u64) -> (r: Result<
        LoginSuccess,
        LoginError,
    >)
        ensures
            match r {
                Ok(out) => {
                    &&& spec_credential_check(self.store, identifier@, password@) matches Ok(a)
                    &&& out.user == spec_user_info_of(self.store, a.spec_raw())
                    &&& out.claims.sub@ == a.username@
                    &&& out.claims.role@ == a.role.spec_str()
                    &&& out.claims.exp as int == now as int + 60 * (
                    self.config.lifetime_minutes as int)
                    &&& out.token@ == jwt_token_of(
                        a.username@,
                        a.role.spec_str(),
                        out.claims.exp as int,
                        self.config.secret@,
                    )
                    &&& jwt_payload(out.token@, self.config.secret@) == Some(
                        (a.username@, a.role.spec_str(), out.claims.exp as int),
                    )
                },
                Err(e) => if e is TokenIssueFailed {
                    &&& spec_credential_check(self.store, identifier@, password@) is Ok
                    &&& now as int + 60 * (self.config.lifetime_minutes as int) > u64::MAX as int
                } else {
                    spec_credential_check(self.store, identifier@, password@) == Err::<
                        Account,
                        LoginError,
                    >(e)
                },
            },
    {
        let info = match validate_user(&self.store, identifier, password) {
            Ok(info) => info,
            Err(e) => {
                return Err(e);
            },
        };
        let exp = match compute_expiry(now, self.config.lifetime_minutes) {
            Some(e) => e,
            None => {
                return Err(LoginError::TokenIssueFailed);
            },
        };
        let role_str = info.role.as_str();
        let (token, claims) = issue_token(
            self.config.secret.as_slice(),
            info.username.as_str(),
            role_str,
            exp,
        );
        Ok(LoginSuccess { token, claims, user: info })
    }

    /// Attempts a login at the current clock. Everything but the expiry
    /// value — which depends on the clock reading — is promised as for
    /// `login_at`; in particular, whenever the configured lifetime leaves the
    /// expiry representable for every clock reading, accepted credentials
    /// always succeed.
    pub fn login(&self, identifier: &str, password: &str) -> (r: Result<LoginSuccess, LoginError>)
        ensures
            match r {
                Ok(out) => {
                    &&& spec_credential_check(self.store, identifier@, password@) matches Ok(a)
                    &&& out.user == spec_user_info_of(self.store, a.spec_raw())
                    &&& out.claims.sub@ == a.username@
                    &&& out.claims.role@ == a.role.spec_str()
                    &&& out.token@ == jwt_token_of(
                        a.username@,
                        a.role.spec_str(),
                        out.claims.exp as int,
                        self.config.secret@,
                    )
                    &&& jwt_payload(out.token@, self.config.secret@) == Some(
                        (a.username@, a.role.spec_str(), out.claims.exp as int),
                    )
                },
                Err(e) => if e is TokenIssueFailed {
                    &&& spec_credential_check(self.store, identifier@, password@) is Ok
                    &&& i64::MAX as int + 60 * (self.config.lifetime_minutes as int) > u64::MAX
                        as int
                } else {
                    spec_credential_check(self.store, identifier@, password@) == Err::<
                        Account,
                        LoginError,
                    >(e)
                },
            },
    {
        let now_signed = now_unix();
        let now: u64 = if now_signed < 0 {
            0
        } else {
            now_signed as u64
        };
        self.login_at(identifier, password, now)
    }

    /// Validates a presented token at an explicit clock value, returning the
    /// embedded claims, with `TokenInvalid` and `TokenExpired` kept apart.
    pub fn verify_token_at(&self, token: &str, now: u64) -> (r: Result<Claims, TokenError>)
        ensures
            match r {
                Ok(c) => spec_validate(jwt_payload(token@, self.config.secret@), now as int)
                    == Ok::<_, TokenError>((c.sub@, c.role@, c.exp as int)),
                Err(e) => spec_validate(jwt_payload(token@, self.config.secret@), now as int)
                    == Err::<(Seq<char>, Seq<char>, int), TokenError>(e),
            },
    {
        validate_token(self.config.secret.as_slice(), token, now)
    }

    /// Validates a presented token at the current clock and returns its
    /// subject: the hook every protected entity route calls before doing
    /// role-sensitive work. The subject comes from the token's own payload;
    /// expiry is judged against the clock reading, of which nothing is known.
    pub fn verify_token(&self, token: &str) -> (r: Result<String, TokenError>)
        ensures
            match r {
                Ok(s) => {
                    &&& jwt_payload(token@, self.config.secret@) matches Some(p)
                    &&& s@ == p.0
                },
                Err(TokenError::TokenInvalid) => jwt_payload(token@, self.config.secret@) is None,
                Err(TokenError::TokenExpired) => jwt_payload(token@, self.config.secret@) is Some,
            },
    {
        let now_signed = now_unix();
        let now: u64 = if now_signed < 0 {
            0
        } else {
            now_signed as u64
        };
        match self.verify_token_at(token, now) {
            Ok(c) => Ok(c.sub),
            Err(e) => Err(e),
        }
    }
}

/// Whether a role string names one of the allowed roles: the role-based
/// check a gateway route makes on validated claims before a role-restricted
/// operation.
pub fn role_allowed(role_str: &str, allowed: &Vec<Role>) -> (r: bool)
    ensures
        r == exists|i: int|
            0 <= i < allowed@.len() && Role::spec_parse(role_str@) == Some(allowed@[i]),
{
    let parsed = match Role::parse(role_str) {
        Some(role) => role,
        None => {
            return false;
        },
    };
    let n: usize = allowed.len();
    for i in 0..n
        invariant
            n == allowed@.len(),
            Role::spec_parse(role_str@) == Some(parsed),
            forall|j: int| 0 <= j < i ==> allowed@[j] != parsed,
    {
        if allowed[i] == parsed {
            return true;
        }
    }
    false
}

} // verus!
