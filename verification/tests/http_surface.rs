use hospital_core::errors::LoginError;
use hospital_core::http::GatewayOutcome;
use hospital_core::http::build_session_cookie;
use hospital_core::http::gateway_create_status;
use hospital_core::http::gateway_status;
use hospital_core::http::login_response;
use hospital_core::http::logout_response;

#[test]
fn logout_is_idempotent_and_always_succeeds() {
    for _ in 0..5 {
        let r = logout_response();
        assert_eq!(r.status, 200);
        assert_eq!(r.message, "Logout exitoso");
        assert_eq!(
            r.set_cookie,
            "auth_token=; HttpOnly; Secure; SameSite=Strict; Path=/; Max-Age=0"
        );
    }
}

#[test]
fn session_cookie_carries_token_and_flags() {
    let cookie = build_session_cookie("abc.def.ghi");
    assert_eq!(
        cookie,
        "auth_token=abc.def.ghi; HttpOnly; Secure; SameSite=Strict; Path=/; Max-Age=3600"
    );
}

#[test]
fn credential_failures_map_to_401_with_null_token() {
    for e in [LoginError::InvalidCredentials, LoginError::HashCorrupt] {
        let r = login_response(Err(e));
        assert_eq!(r.status, 401);
        assert_eq!(r.success, false);
        assert_eq!(r.message, "Credenciales incorrectas");
        assert_eq!(r.token, None);
        assert_eq!(r.set_cookie, None);
    }
}

#[test]
fn signing_failure_maps_to_500() {
    let r = login_response(Err(LoginError::TokenIssueFailed));
    assert_eq!(r.status, 500);
    assert_eq!(r.success, false);
    assert_eq!(r.message, "Error interno");
    assert_eq!(r.token, None);
}

#[test]
fn gateway_statuses_follow_the_uniform_mapping() {
    assert_eq!(gateway_status(GatewayOutcome::Done), 200);
    assert_eq!(gateway_status(GatewayOutcome::Missing), 404);
    assert_eq!(gateway_status(GatewayOutcome::StoreFailure), 500);
    assert_eq!(gateway_create_status(GatewayOutcome::Done), 201);
    assert_eq!(gateway_create_status(GatewayOutcome::Missing), 500);
    assert_eq!(gateway_create_status(GatewayOutcome::StoreFailure), 500);
}
