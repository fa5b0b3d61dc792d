//! Request bodies of the entity gateways, with their validation rules.
//!
//! Each create body carries the columns a row needs; each update body
//! carries every column as optional, and an absent field leaves the stored
//! value unchanged. A body with rules exposes `validate`, whose contract
//! states the rules exactly; bodies without rules have none.

use vstd::prelude::*;

use crate::validate::spec_opt_min_len;
use crate::validate::spec_opt_valid_email;
use crate::validate::spec_opt_valid_phone;
use crate::validate::spec_valid_role;
use crate::validate::has_min_len;
use crate::validate::opt_has_min_len;
use crate::validate::opt_valid_email;
use crate::validate::opt_valid_phone;
use crate::validate::validate_role;

verus! {

/// Body for creating a user account. The password arrives as plaintext in
/// this field and is hashed before it is stored.
pub struct CreateUser {
    pub username: String,
    pub password_hash: String,
    pub role: String,
}

/// Body for updating a user account; absent fields stay unchanged.
pub struct UpdateUser {
    pub username: Option<String>,
    pub password_hash: Option<String>,
    pub role: Option<String>,
}

/// Body for creating a doctor profile.
pub struct CreateDoctor {
    pub id_area: i32,
    pub id_service: i32,
    pub id_speciality: Option<i32>,
    pub id_user: Option<i32>,
    pub first_name: String,
    pub second_name: Option<String>,
    pub first_lastname: String,
    pub second_lastname: Option<String>,
    pub phone: Option<String>,
    pub email: Option<String>,
}

/// Body for updating a doctor profile; absent fields stay unchanged.
pub struct UpdateDoctor {
    pub id_area: Option<i32>,
    pub id_service: Option<i32>,
    pub id_speciality: Option<i32>,
    pub id_user: Option<i32>,
    pub first_name: Option<String>,
    pub second_name: Option<String>,
    pub first_lastname: Option<String>,
    pub second_lastname: Option<String>,
    pub phone: Option<String>,
    pub email: Option<String>,
}

/// Body for creating a medical-history record.
pub struct CreateMedicalHistory {
    pub id_patient: i32,
    pub id_doctor: Option<i32>,
    pub diagnosis: String,
    pub treatment: Option<String>,
    pub notes: Option<String>,
}

/// Body for updating a medical-history record; absent fields stay unchanged.
pub struct UpdateMedicalHistory {
    pub diagnosis: Option<String>,
    pub treatment: Option<String>,
    pub notes: Option<String>,
}

/// Body for creating a lab result.
pub struct CreateLabResult {
    pub id_patient: i32,
    pub id_doctor: Option<i32>,
    pub lab_name: String,
    pub test_type: Option<String>,
    pub result: String,
}

/// Body for updating a lab result; absent fields stay unchanged.
pub struct UpdateLabResult {
    pub lab_name: Option<String>,
    pub test_type: Option<String>,
    pub result: Option<String>,
}

/// Body for creating a service.
pub struct CreateService {
    pub service_name: String,
}

/// Body for updating a service; an absent name stays unchanged.
pub struct UpdateService {
    pub service_name: Option<String>,
}

/// Body for creating a speciality.
pub struct CreateSpeciality {
    pub speciality_name: String,
}

/// Body for renaming a speciality.
pub struct UpdateSpeciality {
    pub speciality_name: String,
}

impl CreateUser {
    /// The rules a user-creation body must satisfy: a username of at least
    /// three characters, a password of at least six, and a role from the
    /// closed set.
    pub open spec fn spec_valid(self) -> bool {
        &&& self.username@.len() >= 3
        &&& self.password_hash@.len() >= 6
        &&& spec_valid_role(self.role@)
    }

    /// Checks the body against its rules.
    pub fn validate(&self) -> (r: bool)
        ensures
            r == self.spec_valid(),
    {
        has_min_len(self.username.as_str(), 3) && has_min_len(self.password_hash.as_str(), 6)
            && validate_role(self.role.as_str())
    }
}

impl UpdateUser {
    /// The rules a user-update body must satisfy: each present field obeys
    /// the rule its column has on creation.
    pub open spec fn spec_valid(self) -> bool {
        &&& spec_opt_min_len(self.username, 3)
        &&& spec_opt_min_len(self.password_hash, 6)
        &&& match self.role {
            Some(role) => spec_valid_role(role@),
            None => true,
        }
    }

    /// Checks the body against its rules.
    pub fn validate(&self) -> (r: bool)
        ensures
            r == self.spec_valid(),
    {
        let role_ok: bool = match &self.role {
            Some(role) => validate_role(role.as_str()),
            None => true,
        };
        opt_has_min_len(&self.username, 3) && opt_has_min_len(&self.password_hash, 6) && role_ok
    }
}

impl CreateDoctor {
    /// The rules a doctor-creation body must satisfy: names of at least two
    /// characters, and, when present, a well-shaped phone and email.
    pub open spec fn spec_valid(self) -> bool {
        &&& self.first_name@.len() >= 2
        &&& self.first_lastname@.len() >= 2
        &&& spec_opt_valid_phone(self.phone)
        &&& spec_opt_valid_email(self.email)
    }

    /// Checks the body against its rules.
    pub fn validate(&self) -> (r: bool)
        ensures
            r == self.spec_valid(),
    {
        has_min_len(self.first_name.as_str(), 2) && has_min_len(self.first_lastname.as_str(), 2)
            && opt_valid_phone(&self.phone) && opt_valid_email(&self.email)
    }
}

impl UpdateDoctor {
    /// The rules a doctor-update body must satisfy: each present field obeys
    /// the rule its column has on creation.
    pub open spec fn spec_valid(self) -> bool {
        &&& spec_opt_min_len(self.first_name, 2)
        &&& spec_opt_min_len(self.first_lastname, 2)
        &&& spec_opt_valid_phone(self.phone)
        &&& spec_opt_valid_email(self.email)
    }

    /// Checks the body against its rules.
    pub fn validate(&self) -> (r: bool)
        ensures
            r == self.spec_valid(),
    {
        opt_has_min_len(&self.first_name, 2) && opt_has_min_len(&self.first_lastname, 2)
            && opt_valid_phone(&self.phone) && opt_valid_email(&self.email)
    }
}

impl CreateMedicalHistory {
    /// The one rule of a history-creation body: a diagnosis of at least
    /// three characters.
    pub open spec fn spec_valid(self) -> bool {
        self.diagnosis@.len() >= 3
    }

    /// Checks the body against its rule.
    pub fn validate(&self) -> (r: bool)
        ensures
            r == self.spec_valid(),
    {
        has_min_len(self.diagnosis.as_str(), 3)
    }
}

impl CreateLabResult {
    /// The one rule of a lab-result body: a result of at least two
    /// characters.
    pub open spec fn spec_valid(self) -> bool {
        self.result@.len() >= 2
    }

    /// Checks the body against its rule.
    pub fn validate(&self) -> (r: bool)
        ensures
            r == self.spec_valid(),
    {
        has_min_len(self.result.as_str(), 2)
    }
}

} // verus!
