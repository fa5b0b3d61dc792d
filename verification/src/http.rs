//! The computable half of the HTTP surface: how authentication outcomes map
//! to status codes, response bodies and session cookies. Serialization and
//! transport live outside; these functions decide exactly what is sent.

use vstd::prelude::*;
use vstd::string::StringExecFns;

use crate::errors::LoginError;
use crate::errors::is_credential_failure;
use crate::errors::spec_is_credential_failure;
use crate::service::LoginSuccess;

verus! {

/// The JSON body a login request carries.
pub struct LoginRequest {
    pub username: String,
    pub password: String,
}

/// Everything the login route answers: status code, body fields, and the
/// session cookie to set on success.
pub struct LoginHttpResponse {
    pub status: u16,
    pub success: bool,
    pub message: String,
    pub token: Option<String>,
    pub set_cookie: Option<String>,
}

/// What the logout route answers: unconditionally a success status and a
/// cookie-clearing directive.
pub struct LogoutHttpResponse {
    pub status: u16,
    pub message: String,
    pub set_cookie: String,
}

/// The session cookie set on a successful login: http-only, secure,
/// same-site-strict, one hour of life.
pub open spec fn spec_session_cookie(token: Seq<char>) -> Seq<char> {
    "auth_token="@ + token + "; HttpOnly; Secure; SameSite=Strict; Path=/; Max-Age=3600"@
}

/// The cookie-clearing directive logout sends: the same cookie, emptied,
/// with no remaining life.
pub open spec fn spec_clear_cookie() -> Seq<char> {
    "auth_token=; HttpOnly; Secure; SameSite=Strict; Path=/; Max-Age=0"@
}

/// Builds the session cookie for an issued token.
pub fn build_session_cookie(token: &str) -> (r: String)
    ensures
        r@ == spec_session_cookie(token@),
{
    let mut s = String::from_str("auth_token=");
    s.append(token);
    s.append("; HttpOnly; Secure; SameSite=Strict; Path=/; Max-Age=3600");
    proof {
        assert(s@ =~= spec_session_cookie(token@));
    }
    s
}

/// Maps a login outcome to the HTTP answer. Success is 200 with the token in
/// the body and in a fresh session cookie. Every credential failure — an
/// unresolvable identifier, a wrong password, an unreadable stored hash —
/// answers 401 with one generic message and a null token, so the client
/// cannot tell them apart; only the internal failure to issue a token — an
/// unrepresentable expiry — answers 500.
pub fn login_response(outcome: Result<LoginSuccess, LoginError>) -> (r: LoginHttpResponse)
    ensures
        match outcome {
            Ok(out) => {
                &&& r.status == 200
                &&& r.success
                &&& r.message@ == "Login exitoso"@
                &&& r.token matches Some(t) && t@ == out.token@
                &&& r.set_cookie matches Some(c) && c@ == spec_session_cookie(out.token@)
            },
            Err(e) => {
                &&& !r.success
                &&& r.token is None
                &&& r.set_cookie is None
                &&& if spec_is_credential_failure(e) {
                    r.status == 401 && r.message@ == "Credenciales incorrectas"@
                } else {
                    r.status == 500 && r.message@ == "Error interno"@
                }
            },
        },
{
    match outcome {
        Ok(out) => {
            let cookie = build_session_cookie(out.token.as_str());
            LoginHttpResponse {
                status: 200,
                success: true,
                message: String::from_str("Login exitoso"),
                token: Some(out.token),
                set_cookie: Some(cookie),
            }
        },
        Err(e) => if is_credential_failure(e) {
            LoginHttpResponse {
                status: 401,
                success: false,
                message: String::from_str("Credenciales incorrectas"),
                token: None,
                set_cookie: None,
            }
        } else {
            LoginHttpResponse {
                status: 500,
                success: false,
                message: String::from_str("Error interno"),
                token: None,
                set_cookie: None,
            }
        },
    }
}

/// The logout answer: always status 200 and the cookie-clearing directive,
/// whatever happened before and however often it is called — logout is
/// client-side cookie clearing only and can never fail.
pub fn logout_response() -> (r: LogoutHttpResponse)
    ensures
        r.status == 200,
        r.message@ == "Logout exitoso"@,
        r.set_cookie@ == spec_clear_cookie(),
{
    LogoutHttpResponse {
        status: 200,
        message: String::from_str("Logout exitoso"),
        set_cookie: String::from_str("auth_token=; HttpOnly; Secure; SameSite=Strict; Path=/; Max-Age=0"),
    }
}

/// How one uniform entity-gateway call ended, as far as the HTTP answer is
/// concerned.
#[derive(Clone, Copy, Debug, PartialEq, Eq, Structural)]
pub enum GatewayOutcome {
    /// The row was found, created or changed.
    Done,
    /// No such row.
    Missing,
    /// The store failed.
    StoreFailure,
}

/// HTTP status for a gateway read, update or delete: a hit answers 200, a
/// miss 404, a store failure 500.
pub fn gateway_status(outcome: GatewayOutcome) -> (r: u16)
    ensures
        r == (match outcome {
            GatewayOutcome::Done => 200u16,
            GatewayOutcome::Missing => 404u16,
            GatewayOutcome::StoreFailure => 500u16,
        }),
{
    match outcome {
        GatewayOutcome::Done => 200,
        GatewayOutcome::Missing => 404,
        GatewayOutcome::StoreFailure => 500,
    }
}

/// HTTP status for a gateway create: a created row answers 201, anything
/// else is a store failure answering 500.
pub fn gateway_create_status(outcome: GatewayOutcome) -> (r: u16)
    ensures
        r == (if outcome is Done {
            201u16
        } else {
            500u16
        }),
{
    match outcome {
        GatewayOutcome::Done => 201,
        _ => 500,
    }
}

} // verus!
