use hospital_core::errors::LoginError;
use hospital_core::password::generate_patient_password;
use hospital_core::password::patient_password_from_noise;
use hospital_core::password::verify_password;

#[test]
fn verify_accepts_the_hashed_password() {
    let hash = bcrypt::hash("hunter2!", 4).unwrap();
    assert_eq!(verify_password("hunter2!", &hash), Ok(true));
}

#[test]
fn verify_rejects_a_different_password() {
    let hash = bcrypt::hash("hunter2!", 4).unwrap();
    assert_eq!(verify_password("hunter3!", &hash), Ok(false));
    assert_eq!(verify_password("", &hash), Ok(false));
}

#[test]
fn verify_reports_an_unreadable_hash_distinctly() {
    assert_eq!(
        verify_password("hunter2!", "plainly-not-a-hash"),
        Err(LoginError::HashCorrupt)
    );
    assert_eq!(verify_password("hunter2!", ""), Err(LoginError::HashCorrupt));
}

#[test]
fn patient_password_has_the_documented_shape() {
    assert_eq!(
        patient_password_from_noise("juan", "perez", 1990, 42),
        "Jperez1990!42"
    );
    assert_eq!(
        patient_password_from_noise("Ana", "Gomez", 2005, 10),
        "AGomez2005!10"
    );
    assert_eq!(patient_password_from_noise("li", "wu", 0, 98), "Lwu0!98");
}

#[test]
fn generated_password_varies_only_in_the_noise() {
    let p = generate_patient_password("maria", "lopez", 1987);
    assert!(p.starts_with("Mlopez1987!"));
    let noise: u32 = p["Mlopez1987!".len()..].parse().unwrap();
    assert!((10..99).contains(&noise));
}
