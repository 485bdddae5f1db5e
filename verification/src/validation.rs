use vstd::prelude::*;

verus! {

use vstd::string::StrSliceExecFns;

// Format validation of the strings the peer submits. The password, UUID and
// PIN grammars are small character-class checks, stated as spec functions
// and implemented here; the email grammar is delegated to the regex crate.
pub open spec fn is_upper_char(c: char) -> bool {
    65 <= c as u32 <= 90
}

pub open spec fn is_lower_char(c: char) -> bool {
    97 <= c as u32 <= 122
}

pub open spec fn is_digit_char(c: char) -> bool {
    48 <= c as u32 <= 57
}

/// The fixed set of symbols a password may use to satisfy the symbol rule.
pub open spec fn is_password_symbol(c: char) -> bool {
    c == '#' || c == '?' || c == '!' || c == '@' || c == '$' || c == ' ' || c == '%' || c == '^'
        || c == '&' || c == '*' || c == '-'
}

/// Password complexity: 8 to 64 characters, with at least one upper-case
/// letter, one lower-case letter, one digit and one symbol of the fixed set.
pub open spec fn valid_password(s: Seq<char>) -> bool {
    &&& 8 <= s.len() <= 64
    &&& exists|i: int| 0 <= i < s.len() && is_upper_char(#[trigger] s[i])
    &&& exists|i: int| 0 <= i < s.len() && is_lower_char(#[trigger] s[i])
    &&& exists|i: int| 0 <= i < s.len() && is_digit_char(#[trigger] s[i])
    &&& exists|i: int| 0 <= i < s.len() && is_password_symbol(#[trigger] s[i])
}

pub open spec fn is_hex_digit_char(c: char) -> bool {
    is_digit_char(c) || (97 <= c as u32 <= 102) || (65 <= c as u32 <= 70)
}

/// What character a hyphenated UUID holds at position `i`: a hyphen at the
/// four separator positions, a hexadecimal digit everywhere else.
pub open spec fn uuid_char_ok(s: Seq<char>, i: int) -> bool {
    if i == 8 || i == 13 || i == 18 || i == 23 {
        s[i] == '-'
    } else {
        is_hex_digit_char(s[i])
    }
}

/// The hyphenated UUID format: 8-4-4-4-12 hexadecimal digits, 36 characters.
pub open spec fn valid_uuid(s: Seq<char>) -> bool {
    s.len() == 36 && (forall|i: int| 0 <= i < 36 ==> uuid_char_ok(s, i))
}

pub open spec fn is_alnum_char(c: char) -> bool {
    is_upper_char(c) || is_lower_char(c) || is_digit_char(c)
}

/// PIN format: 6 to 8 alphanumeric characters.
pub open spec fn valid_pin(s: Seq<char>) -> bool {
    6 <= s.len() <= 8 && (forall|i: int| 0 <= i < s.len() ==> is_alnum_char(#[trigger] s[i]))
}

pub fn validate_password(password_input: &str) -> (r: bool)
    ensures
        r == valid_password(password_input@),
{
    let n = password_input.unicode_len();
    if n < 8 || n > 64 {
        return false;
    }
    let mut has_upper = false;
    let mut has_lower = false;
    let mut has_digit = false;
    let mut has_symbol = false;
    let mut i: usize = 0;
    while i < n
        invariant
            n == password_input@.len(),
            i <= n,
            has_upper == exists|j: int| 0 <= j < i && is_upper_char(#[trigger] password_input@[j]),
            has_lower == exists|j: int| 0 <= j < i && is_lower_char(#[trigger] password_input@[j]),
            has_digit == exists|j: int| 0 <= j < i && is_digit_char(#[trigger] password_input@[j]),
            has_symbol == exists|j: int| 0 <= j < i && is_password_symbol(
                #[trigger] password_input@[j],
            ),
        decreases n - i,
    {
        let c = password_input.get_char(i);
        let u = c as u32;
        if 65 <= u && u <= 90 {
            has_upper = true;
        }
        if 97 <= u && u <= 122 {
            has_lower = true;
        }
        if 48 <= u && u <= 57 {
            has_digit = true;
        }
        if c == '#' || c == '?' || c == '!' || c == '@' || c == '$' || c == ' ' || c == '%' || c
            == '^' || c == '&' || c == '*' || c == '-' {
            has_symbol = true;
        }
        i += 1;
    }
    has_upper && has_lower && has_digit && has_symbol
}

pub fn validate_uuid(uuid: &str) -> (r: bool)
    ensures
        r == valid_uuid(uuid@),
{
    let n = uuid.unicode_len();
    if n != 36 {
        return false;
    }
    let mut i: usize = 0;
    while i < 36
        invariant
            uuid@.len() == 36,
            i <= 36,
            forall|j: int| 0 <= j < i ==> uuid_char_ok(uuid@, j),
        decreases 36 - i,
    {
        let c = uuid.get_char(i);
        if i == 8 || i == 13 || i == 18 || i == 23 {
            if c != '-' {
                assert(!uuid_char_ok(uuid@, i as int));
                return false;
            }
        } else {
            let u = c as u32;
            if !((48 <= u && u <= 57) || (97 <= u && u <= 102) || (65 <= u && u <= 70)) {
                assert(!uuid_char_ok(uuid@, i as int));
                return false;
            }
        }
        i += 1;
    }
    true
}

pub fn validate_pin(pin: &str) -> (r: bool)
    ensures
        r == valid_pin(pin@),
{
    let n = pin.unicode_len();
    if n < 6 || n > 8 {
        return false;
    }
    let mut i: usize = 0;
    while i < n
        invariant
            n == pin@.len(),
            i <= n,
            forall|j: int| 0 <= j < i ==> is_alnum_char(#[trigger] pin@[j]),
        decreases n - i,
    {
        let c = pin.get_char(i);
        let u = c as u32;
        if !((65 <= u && u <= 90) || (97 <= u && u <= 122) || (48 <= u && u <= 57)) {
            return false;
        }
        i += 1;
    }
    true
}

/// Whether a string matches the email grammar. The grammar is the regular
/// expression below; its match result is a function of the input characters
/// alone, so it is given a name here and stated of the validator's result.
pub uninterp spec fn is_valid_email(s: Seq<char>) -> bool;

/// Relies on regex::Regex::new and regex::Regex::is_match: whether the input
/// matches the anchored email pattern depends on the input characters alone.
#[verifier::external_body]
pub fn validate_email(email_input: &str) -> (r: bool)
    ensures
        r == is_valid_email(email_input@),
{
    let re = regex::Regex::new(
        r#"^(?:[a-z0-9!#$%&'*+/=?^_`{|}~-]+(?:\.[a-z0-9!#$%&'*+/=?^_`{|}~-]+)*|"(?:[\x01-\x08\x0b\x0c\x0e-\x1f\x21\x23-\x5b\x5d-\x7f]|\\[\x01-\x09\x0b\x0c\x0e-\x7f])*")@(?:(?:[a-z0-9](?:[a-z0-9-]*[a-z0-9])?\.)+[a-z0-9](?:[a-z0-9-]*[a-z0-9])?|\[(?:(?:25[0-5]|2[0-4][0-9]|[01]?[0-9][0-9]?)\.){3}(?:25[0-5]|2[0-4][0-9]|[01]?[0-9][0-9]?|[a-z0-9-]*[a-z0-9]:(?:[\x01-\x08\x0b\x0c\x0e-\x1f\x21-\x5a\x53-\x7f]|\\[\x01-\x09\x0b\x0c\x0e-\x7f])+)\])$"#,
    ).unwrap();
    re.is_match(email_input)
}

} // verus!
