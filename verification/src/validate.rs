//! Boundary validation of request bodies.
//!
//! Everything a client may submit is checked once, here, against explicit
//! character-level rules — a phone number shape, a minimal email shape, the
//! closed set of role strings, and minimum lengths — and never re-checked
//! downstream.

use vstd::prelude::*;
use vstd::string::StrSliceExecFns;

use crate::role::Role;

verus! {

/// Whether a character is a decimal digit.
pub open spec fn spec_is_digit(c: char) -> bool {
    48 <= c as u32 && c as u32 <= 57
}

/// The accepted phone shape: a plus sign, a leading digit 1 through 9, then
/// seven to fourteen more digits.
pub open spec fn spec_valid_phone(s: Seq<char>) -> bool {
    &&& 9 <= s.len() <= 16
    &&& s[0] == '+'
    &&& 49 <= s[1] as u32 && s[1] as u32 <= 57
    &&& forall|i: int| 2 <= i < s.len() ==> spec_is_digit(s[i])
}

fn is_digit(c: char) -> (r: bool)
    ensures
        r == spec_is_digit(c),
{
    let u: u32 = c as u32;
    48 <= u && u <= 57
}

/// Checks a phone number against the accepted shape.
pub fn validate_phone(phone: &str) -> (r: bool)
    ensures
        r == spec_valid_phone(phone@),
{
    let n: usize = phone.unicode_len();
    if n < 9 || n > 16 {
        return false;
    }
    if phone.get_char(0) != '+' {
        return false;
    }
    let first: u32 = phone.get_char(1) as u32;
    if first < 49 || first > 57 {
        return false;
    }
    for i in 2..n
        invariant
            n == phone@.len(),
            9 <= n <= 16,
            phone@[0] == '+',
            49 <= phone@[1] as u32 <= 57,
            forall|j: int| 2 <= j < i ==> spec_is_digit(phone@[j]),
    {
        if !is_digit(phone.get_char(i)) {
            return false;
        }
    }
    true
}

/// How many times a character occurs in a sequence.
pub open spec fn spec_count_char(s: Seq<char>, c: char) -> int
    decreases s.len(),
{
    if s.len() == 0 {
        0
    } else {
        spec_count_char(s.drop_last(), c) + if s.last() == c {
            1int
        } else {
            0int
        }
    }
}

/// The accepted email shape: exactly one at sign, standing neither first nor
/// last, so that both the local part and the domain are non-empty.
pub open spec fn spec_valid_email(s: Seq<char>) -> bool {
    &&& s.len() >= 3
    &&& spec_count_char(s, '@') == 1
    &&& s[0] != '@'
    &&& s[s.len() - 1] != '@'
}

/// Checks an email address against the accepted shape.
pub fn validate_email(email: &str) -> (r: bool)
    ensures
        r == spec_valid_email(email@),
{
    let n: usize = email.unicode_len();
    if n < 3 {
        return false;
    }
    let mut count: usize = 0;
    for i in 0..n
        invariant
            n == email@.len(),
            count <= i,
            count as int == spec_count_char(email@.take(i as int), '@'),
    {
        proof {
            assert(email@.take(i as int + 1).drop_last() =~= email@.take(i as int));
            assert(email@.take(i as int + 1).last() == email@[i as int]);
        }
        if email.get_char(i) == '@' {
            count = count + 1;
        }
    }
    proof {
        assert(email@.take(n as int) =~= email@);
    }
    count == 1 && email.get_char(0) != '@' && email.get_char(n - 1) != '@'
}

/// The role strings a user-management request may carry: exactly the stored
/// forms of the closed role set — patient, doctor, admissionist, admin. A
/// string is valid iff it parses to a role, so the boundary check and the
/// internal variant can never disagree.
pub open spec fn spec_valid_role(s: Seq<char>) -> bool {
    Role::spec_parse(s) is Some
}

/// Checks a submitted role string against the closed set.
pub fn validate_role(role: &str) -> (r: bool)
    ensures
        r == spec_valid_role(role@),
{
    Role::parse(role).is_some()
}

/// Whether a string has at least the given number of characters.
pub fn has_min_len(s: &str, min: usize) -> (r: bool)
    ensures
        r == (s@.len() >= min),
{
    s.unicode_len() >= min
}

/// Whether an optional string, when present, satisfies a minimum length.
pub open spec fn spec_opt_min_len(s: Option<String>, min: int) -> bool {
    match s {
        Some(v) => v@.len() >= min,
        None => true,
    }
}

/// Whether an optional string, when present, is a valid phone number.
pub open spec fn spec_opt_valid_phone(s: Option<String>) -> bool {
    match s {
        Some(v) => spec_valid_phone(v@),
        None => true,
    }
}

/// Whether an optional string, when present, is a valid email address.
pub open spec fn spec_opt_valid_email(s: Option<String>) -> bool {
    match s {
        Some(v) => spec_valid_email(v@),
        None => true,
    }
}

/// Checks an optional string for a minimum length when present.
pub fn opt_has_min_len(s: &Option<String>, min: usize) -> (r: bool)
    ensures
        r == spec_opt_min_len(*s, min as int),
{
    match s {
        Some(v) => has_min_len(v.as_str(), min),
        None => true,
    }
}

/// Checks an optional phone number when present.
pub fn opt_valid_phone(s: &Option<String>) -> (r: bool)
    ensures
        r == spec_opt_valid_phone(*s),
{
    match s {
        Some(v) => validate_phone(v.as_str()),
        None => true,
    }
}

/// Checks an optional email address when present.
pub fn opt_valid_email(s: &Option<String>) -> (r: bool)
    ensures
        r == spec_opt_valid_email(*s),
{
    match s {
        Some(v) => validate_email(v.as_str()),
        None => true,
    }
}

} // verus!
