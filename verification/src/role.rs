//! The closed set of account roles.
//!
//! The stored role is a free string in the relational schema; it is parsed
//! into this tagged variant once, at the boundary, and never matched as a
//! string again downstream.

use vstd::prelude::*;

verus! {

/// Role tag of an account. Admin accounts have no profile table; the three
/// other roles each own one table of display attributes.
#[derive(Clone, Copy, Debug, PartialEq, Eq, Structural)]
pub enum Role {
    Patient,
    Doctor,
    Admissionist,
    Admin,
}

impl Role {
    /// The string form under which this role is stored.
    pub open spec fn spec_str(self) -> Seq<char> {
        match self {
            Role::Patient => "patient"@,
            Role::Doctor => "doctor"@,
            Role::Admissionist => "admisionist"@,
            Role::Admin => "admin"@,
        }
    }

    /// Renders the role as its stored string form.
    pub fn as_str(self) -> (r: &'static str)
        ensures
            r@ == self.spec_str(),
    {
        match self {
            Role::Patient => "patient",
            Role::Doctor => "doctor",
            Role::Admissionist => "admisionist",
            Role::Admin => "admin",
        }
    }

    /// Which role, if any, a stored string denotes.
    pub open spec fn spec_parse(s: Seq<char>) -> Option<Role> {
        if s == "patient"@ {
            Some(Role::Patient)
        } else if s == "doctor"@ {
            Some(Role::Doctor)
        } else if s == "admisionist"@ {
            Some(Role::Admissionist)
        } else if s == "admin"@ {
            Some(Role::Admin)
        } else {
            None
        }
    }

    /// Parses a stored role string into the closed variant.
    pub fn parse(s: &str) -> (r: Option<Role>)
        ensures
            r == Role::spec_parse(s@),
    {
        let owned: String = s.to_owned();
        if owned == String::from_str("patient") {
            Some(Role::Patient)
        } else if owned == String::from_str("doctor") {
            Some(Role::Doctor)
        } else if owned == String::from_str("admisionist") {
            Some(Role::Admissionist)
        } else if owned == String::from_str("admin") {
            Some(Role::Admin)
        } else {
            None
        }
    }
}

/// Distinct role strings parse to distinct roles, and every role's string
/// form parses back to that role.
pub proof fn lemma_role_string_round_trip(r: Role)
    ensures
        Role::spec_parse(r.spec_str()) == Some(r),
{
    reveal_strlit("patient");
    reveal_strlit("doctor");
    reveal_strlit("admisionist");
    reveal_strlit("admin");
    assert("patient"@.len() == 7);
    assert("doctor"@.len() == 6);
    assert("admisionist"@.len() == 11);
    assert("admin"@.len() == 5);
}

} // verus!
