use hospital_core::http::login_response;
use hospital_core::role::Role;
use hospital_core::service::AuthConfig;
use hospital_core::service::AuthService;
use hospital_core::store::Account;
use hospital_core::store::CredentialStore;
use hospital_core::store::ProfileRow;

const NOW: u64 = 1_700_000_000;

fn secret() -> Vec<u8> {
    b"test-signing-secret".to_vec()
}

fn account(id: i32, username: &str, password: &str, role: Role) -> Account {
    Account {
        id_user: id,
        username: username.to_string(),
        password_hash: bcrypt::hash(password, 4).unwrap(),
        role,
        deleted: false,
    }
}

fn profile(id_user: Option<i32>, first: &str, last: &str, email: Option<&str>) -> ProfileRow {
    ProfileRow {
        id_user,
        first_name: first.to_string(),
        first_lastname: last.to_string(),
        email: email.map(|e| e.to_string()),
        phone: None,
    }
}

fn fixture() -> AuthService {
    let store = CredentialStore {
        accounts: vec![
            account(1, "drsmith", "correct horse", Role::Doctor),
            account(2, "jdoe", "patient-pass", Role::Patient),
            account(3, "root", "admin-pass", Role::Admin),
            account(4, "frontdesk", "desk-pass", Role::Admissionist),
        ],
        patients: vec![profile(Some(2), "Jane", "Doe", Some("jane@example.com"))],
        doctors: vec![profile(Some(1), "John", "Smith", Some("smith@hospital.test"))],
        admissionists: vec![profile(Some(4), "Ada", "Front", Some("front@hospital.test"))],
    };
    AuthService::new(store, AuthConfig { secret: secret(), lifetime_minutes: 60 })
}

#[test]
fn valid_login_returns_token_with_subject_and_role() {
    let service = fixture();
    let out = service.login_at("jdoe", "patient-pass", NOW).unwrap();
    assert_eq!(out.user.username, "jdoe");
    assert_eq!(out.user.role, Role::Patient);
    assert_eq!(out.claims.sub, "jdoe");
    assert_eq!(out.claims.role, "patient");
    assert_eq!(out.claims.exp, NOW + 3600);
    let claims = service.verify_token_at(&out.token, NOW).unwrap();
    assert_eq!(claims.sub, "jdoe");
    assert_eq!(claims.role, "patient");
}

#[test]
fn valid_login_fills_profile_attributes() {
    let service = fixture();
    let out = service.login_at("jdoe", "patient-pass", NOW).unwrap();
    assert_eq!(out.user.id, 2);
    assert_eq!(out.user.first_name.as_deref(), Some("Jane"));
    assert_eq!(out.user.last_name.as_deref(), Some("Doe"));
    assert_eq!(out.user.email.as_deref(), Some("jane@example.com"));
    assert_eq!(out.user.phone, None);
}

#[test]
fn admin_login_has_empty_attributes() {
    let service = fixture();
    let out = service.login_at("root", "admin-pass", NOW).unwrap();
    assert_eq!(out.user.role, Role::Admin);
    assert_eq!(out.user.first_name, None);
    assert_eq!(out.user.last_name, None);
    assert_eq!(out.user.email, None);
    assert_eq!(out.user.phone, None);
}

#[test]
fn wrong_password_and_unknown_identifier_are_indistinguishable() {
    let service = fixture();
    let wrong_password = service.login_at("jdoe", "not-the-password", NOW).unwrap_err();
    let unknown_user = service.login_at("nobody", "patient-pass", NOW).unwrap_err();
    assert_eq!(wrong_password, unknown_user);
    let r1 = login_response(Err(wrong_password));
    let r2 = login_response(Err(unknown_user));
    assert_eq!(r1.status, 401);
    assert_eq!(r2.status, 401);
    assert_eq!(r1.message, r2.message);
    assert_eq!(r1.token, None);
    assert_eq!(r2.token, None);
}

#[test]
fn corrupt_stored_hash_answers_like_bad_credentials() {
    let mut service = fixture();
    service.store.accounts[1].password_hash = "not-a-bcrypt-hash".to_string();
    let err = service.login_at("jdoe", "patient-pass", NOW).unwrap_err();
    let resp = login_response(Err(err));
    assert_eq!(resp.status, 401);
    assert_eq!(resp.success, false);
    assert_eq!(resp.token, None);
}

#[test]
fn drsmith_login_sets_cookie_and_doctor_role() {
    let service = fixture();
    let out = service.login_at("drsmith", "correct horse", NOW).unwrap();
    let token = out.token.clone();
    let resp = login_response(Ok(out));
    assert_eq!(resp.status, 200);
    assert!(resp.success);
    assert_eq!(resp.token.as_deref(), Some(token.as_str()));
    assert_eq!(
        resp.set_cookie.as_deref(),
        Some(
            format!(
                "auth_token={}; HttpOnly; Secure; SameSite=Strict; Path=/; Max-Age=3600",
                token
            )
            .as_str()
        )
    );
    let claims = service.verify_token_at(&token, NOW).unwrap();
    assert_eq!(claims.role, "doctor");
}

#[test]
fn email_login_resolves_through_patient_profile() {
    let service = fixture();
    let by_email = service
        .login_at("jane@example.com", "patient-pass", NOW)
        .unwrap();
    let by_username = service.login_at("jdoe", "patient-pass", NOW).unwrap();
    assert_eq!(by_email.user.username, by_username.user.username);
    assert_eq!(by_email.user.id, by_username.user.id);
    assert_eq!(by_email.claims.sub, "jdoe");
    assert_eq!(by_email.claims.role, "patient");
}

#[test]
fn doctor_email_login_resolves_through_doctor_profile() {
    let service = fixture();
    let out = service
        .login_at("smith@hospital.test", "correct horse", NOW)
        .unwrap();
    assert_eq!(out.user.username, "drsmith");
    assert_eq!(out.claims.role, "doctor");
}

#[test]
fn nonexistent_identifier_answers_401_with_null_token() {
    let service = fixture();
    let err = service.login_at("ghost@nowhere.test", "whatever", NOW).unwrap_err();
    let resp = login_response(Err(err));
    assert_eq!(resp.status, 401);
    assert_eq!(resp.success, false);
    assert_eq!(resp.token, None);
    assert_eq!(resp.set_cookie, None);
}

#[test]
fn admin_cannot_login_by_email_even_with_correct_password() {
    let service = fixture();
    // The admin role has no profile table, hence no email to probe: only the
    // username resolves an admin account.
    let err = service
        .login_at("root@hospital.test", "admin-pass", NOW)
        .unwrap_err();
    let resp = login_response(Err(err));
    assert_eq!(resp.status, 401);
    let by_username = service.login_at("root", "admin-pass", NOW).unwrap();
    assert_eq!(by_username.claims.role, "admin");
}

#[test]
fn deleted_account_cannot_login() {
    let mut service = fixture();
    service.store.accounts[0].deleted = true;
    let err = service.login_at("drsmith", "correct horse", NOW).unwrap_err();
    assert_eq!(login_response(Err(err)).status, 401);
}

#[test]
fn profile_email_of_deleted_account_does_not_resolve() {
    let mut service = fixture();
    service.store.accounts[1].deleted = true;
    let err = service
        .login_at("jane@example.com", "patient-pass", NOW)
        .unwrap_err();
    assert_eq!(login_response(Err(err)).status, 401);
}

#[test]
fn duplicate_email_across_tables_resolves_in_fixed_probe_order() {
    let mut service = fixture();
    // The same email on a patient profile (linked to jdoe) and a doctor
    // profile (linked to drsmith): the patient table is probed first, so the
    // patient account wins the tie.
    service.store.patients.push(ProfileRow {
        id_user: Some(2),
        first_name: "Jane".to_string(),
        first_lastname: "Doe".to_string(),
        email: Some("shared@example.com".to_string()),
        phone: None,
    });
    service.store.doctors[0].email = Some("shared@example.com".to_string());
    let out = service
        .login_at("shared@example.com", "patient-pass", NOW)
        .unwrap();
    assert_eq!(out.user.username, "jdoe");
    let doctor_err = service.login_at("shared@example.com", "correct horse", NOW);
    assert!(doctor_err.is_err());
}

#[test]
fn login_with_clock_wrapper_issues_verifiable_token() {
    let service = fixture();
    let out = service.login("drsmith", "correct horse").unwrap();
    let sub = service.verify_token(&out.token).unwrap();
    assert_eq!(sub, "drsmith");
}
