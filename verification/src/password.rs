//! Password verification and generated initial passwords.
//!
//! Verification delegates to a slow, adaptive hashing scheme behind a trusted
//! boundary; what the scheme decides for a (password, stored hash) pair is a
//! function of those two values alone, so it is given a name that the
//! contracts above it use exactly.

use vstd::prelude::*;
use vstd::string::StrSliceExecFns;
use vstd::string::StringExecFns;

use crate::errors::LoginError;

verus! {

/// What bcrypt decides for a presented password and a stored hash: `None`
/// when the stored hash cannot be parsed, otherwise `Some` of the match
/// result. The decision depends on the two arguments alone.
pub uninterp spec fn bcrypt_accepts(password: Seq<char>, hash: Seq<char>) -> Option<bool>;

/// Relies on bcrypt::verify: parses the stored hash, re-derives the digest
/// with the embedded salt and cost, and compares in constant time. The
/// outcome is a function of password and hash alone; an unparsable hash is
/// an error value, never a panic.
#[verifier::external_body]
fn bcrypt_verify(password: &str, hash: &str) -> (r: Option<bool>)
    ensures
        r == bcrypt_accepts(password@, hash@),
{
    bcrypt::verify(password, hash).ok()
}

/// Confirms a presented plaintext password against a stored hash. A mismatch
/// and an unreadable stored hash are kept apart for the caller: the latter is
/// a data-integrity alarm, even though both surface identically to clients.
pub fn verify_password(password: &str, hash: &str) -> (r: Result<bool, LoginError>)
    ensures
        match r {
            Ok(b) => bcrypt_accepts(password@, hash@) == Some(b),
            Err(e) => {
                &&& e is HashCorrupt
                &&& bcrypt_accepts(password@, hash@) is None
            },
        },
{
    match bcrypt_verify(password, hash) {
        Some(b) => Ok(b),
        None => Err(LoginError::HashCorrupt),
    }
}

/// Relies on rand::random_range: a number drawn uniformly from the given
/// bounds. Only the bounds can be promised of a random draw.
#[verifier::external_body]
fn random_two_digits() -> (r: u8)
    ensures
        10 <= r < 99,
{
    rand::random_range(10..99u8)
}

/// Relies on String::push: appends exactly the given character.
#[verifier::external_body]
fn push_char(s: &mut String, c: char)
    ensures
        final(s)@ == old(s)@.push(c),
{
    s.push(c);
}

/// The character form of one decimal digit.
pub open spec fn spec_digit_char(d: int) -> char {
    if d == 0 {
        '0'
    } else if d == 1 {
        '1'
    } else if d == 2 {
        '2'
    } else if d == 3 {
        '3'
    } else if d == 4 {
        '4'
    } else if d == 5 {
        '5'
    } else if d == 6 {
        '6'
    } else if d == 7 {
        '7'
    } else if d == 8 {
        '8'
    } else {
        '9'
    }
}

/// The decimal rendering of a non-negative number, most significant digit
/// first, without leading zeros (a lone zero for zero itself).
pub open spec fn spec_decimal_digits(n: int) -> Seq<char>
    decreases n,
{
    if n < 0 {
        Seq::<char>::empty()
    } else if n < 10 {
        seq![spec_digit_char(n)]
    } else {
        spec_decimal_digits(n / 10).push(spec_digit_char(n % 10))
    }
}

/// The decimal rendering of a signed number: a minus sign before the digits
/// of the magnitude when negative.
pub open spec fn spec_signed_decimal(n: int) -> Seq<char> {
    if n < 0 {
        seq!['-'] + spec_decimal_digits(-n)
    } else {
        spec_decimal_digits(n)
    }
}

/// An ASCII lowercase letter turned into its uppercase form; any other
/// character kept as it is.
pub open spec fn spec_ascii_upper(c: char) -> char {
    if 97 <= c as u32 && c as u32 <= 122 {
        (((c as u32) - 32) as u8) as char
    } else {
        c
    }
}

/// The generated initial password for a patient: the upper-cased first
/// initial, the first last name, the birth year, an exclamation mark, and a
/// two-digit noise number.
pub open spec fn spec_patient_password(
    first_name: Seq<char>,
    first_lastname: Seq<char>,
    birth_year: int,
    noise: int,
) -> Seq<char> {
    seq![spec_ascii_upper(first_name[0])] + first_lastname + spec_signed_decimal(birth_year)
        + seq!['!'] + spec_decimal_digits(noise)
}

fn digit_char(d: u64) -> (r: char)
    requires
        d < 10,
    ensures
        r == spec_digit_char(d as int),
{
    match d {
        0 => '0',
        1 => '1',
        2 => '2',
        3 => '3',
        4 => '4',
        5 => '5',
        6 => '6',
        7 => '7',
        8 => '8',
        _ => '9',
    }
}

fn ascii_upper(c: char) -> (r: char)
    ensures
        r == spec_ascii_upper(c),
{
    let u: u32 = c as u32;
    if 97 <= u && u <= 122 {
        let b: u8 = (u - 32) as u8;
        b as char
    } else {
        c
    }
}

fn push_decimal_digits(s: &mut String, n: u64)
    ensures
        final(s)@ == old(s)@ + spec_decimal_digits(n as int),
    decreases n,
{
    if n >= 10 {
        push_decimal_digits(s, n / 10);
    }
    push_char(s, digit_char(n % 10));
    proof {
        if n < 10 {
            assert(n % 10 == n);
        }
        assert(final(s)@ =~= old(s)@ + spec_decimal_digits(n as int));
    }
}

/// Builds the generated patient password for a given noise number.
pub fn patient_password_from_noise(
    first_name: &str,
    first_lastname: &str,
    birth_year: i32,
    noise: u8,
) -> (r: String)
    requires
        first_name@.len() > 0,
        10 <= noise < 99,
    ensures
        r@ == spec_patient_password(
            first_name@,
            first_lastname@,
            birth_year as int,
            noise as int,
        ),
{
    let mut s = String::new();
    let initial = ascii_upper(first_name.get_char(0));
    push_char(&mut s, initial);
    s.append(first_lastname);
    if birth_year < 0 {
        proof {
            reveal_strlit("-");
            assert("-"@ =~= seq!['-']);
        }
        s.append("-");
        let m: u64 = (-(birth_year as i64)) as u64;
        push_decimal_digits(&mut s, m);
    } else {
        push_decimal_digits(&mut s, birth_year as u64);
    }
    push_char(&mut s, '!');
    push_decimal_digits(&mut s, noise as u64);
    proof {
        assert(s@ =~= spec_patient_password(
            first_name@,
            first_lastname@,
            birth_year as int,
            noise as int,
        ));
    }
    s
}

/// Generates an initial patient password: the upper-cased first initial, the
/// first last name, the birth year, an exclamation mark and two random
/// digits. Only the shape is promised; the noise is drawn fresh per call.
pub fn generate_patient_password(first_name: &str, first_lastname: &str, birth_year: i32) -> (r:
    String)
    requires
        first_name@.len() > 0,
    ensures
        exists|noise: int|
            #![auto]
            10 <= noise < 99 && r@ == spec_patient_password(
                first_name@,
                first_lastname@,
                birth_year as int,
                noise,
            ),
{
    let noise = random_two_digits();
    let r = patient_password_from_noise(first_name, first_lastname, birth_year, noise);
    proof {
        let ni: int = noise as int;
        assert(10 <= ni && ni < 99 && r@ == spec_patient_password(
            first_name@,
            first_lastname@,
            birth_year as int,
            ni,
        ));
    }
    r
}

} // verus!
