//! What each operation checks before a request is sent, and the body it
//! sends. Only the basic format is checked here; the backend's own rules
//! (uniqueness, normalization) come back from it as validation errors.
use vstd::prelude::*;

use crate::api::errors::{
    LoginError, RateDriverError, RegisterError, RegisterVehicleError, UpdateProfileError,
    UpdateVehicleError,
};
use crate::models::{
    LoginPayload, RateDriverPayload, RegisterDriverPayload, RegisterPassengerPayload,
    RegisterVehiclePayload, UpdateProfilePayload, UpdateVehiclePayload, VehicleType,
};
use crate::text::{
    all_ascii_digits, char_is_ascii_digit, char_is_ascii_uppercase, contains_char, is_ascii_digit,
    is_ascii_uppercase, is_ascii_text, ascii_uppercase, digits_value, parse_u16, to_uppercase, trim, trimmed, uppercase,
    without_plus,
};

verus! {

/// Whether `i` is the position of the first `@` of `s`.
pub open spec fn is_first_at(s: Seq<char>, i: int) -> bool {
    &&& 0 <= i < s.len()
    &&& s[i] == '@'
    &&& forall|j: int| 0 <= j < i ==> s[j] != '@'
}

/// The basic format of an email: no space, and around its first `@` a
/// non-empty part before and a part after that holds a dot.
pub open spec fn valid_email(s: Seq<char>) -> bool {
    &&& !s.contains(' ')
    &&& exists|i: int|
        #![trigger is_first_at(s, i)]
        is_first_at(s, i) && 0 < i && i + 1 < s.len() && s.subrange(i + 1, s.len() as int).contains(
            '.',
        )
}

/// A phone number in E.164 form: an optional `+`, then 7 to 15 ASCII digits.
pub open spec fn valid_phone(s: Seq<char>) -> bool {
    let digits = without_plus(s);
    7 <= digits.len() <= 15 && all_ascii_digits(digits)
}

/// A character allowed in a license number or a plate: an ASCII capital
/// letter, a digit or a hyphen.
pub open spec fn is_code_char(c: char) -> bool {
    is_ascii_uppercase(c) || is_ascii_digit(c) || c == '-'
}

/// Whether every character of `s` is allowed in a license number or a plate.
pub open spec fn all_code_chars(s: Seq<char>) -> bool {
    forall|i: int| 0 <= i < s.len() ==> is_code_char(#[trigger] s[i])
}

/// The backend's rule for a license number, `^[A-Z0-9-]{5,50}$`.
pub open spec fn valid_license_number(s: Seq<char>) -> bool {
    5 <= s.len() <= 50 && all_code_chars(s)
}

/// The backend's rule for a plate, `^[A-Z0-9-]{5,10}$`, checked after the
/// plate was put in upper case.
pub open spec fn valid_plate(s: Seq<char>) -> bool {
    5 <= s.len() <= 10 && all_code_chars(s)
}

/// Whether `s` has the basic format of an email.
pub fn is_valid_email(email: &str) -> (r: bool)
    ensures
        r == valid_email(email@),
{
    let n = email.unicode_len();
    if contains_char(email, ' ') {
        return false;
    }
    let mut at: usize = 0;
    while at < n && email.get_char(at) != '@'
        invariant
            n == email@.len(),
            at <= n,
            forall|j: int| 0 <= j < at ==> email@[j] != '@',
        decreases n - at,
    {
        at = at + 1;
    }
    if at == n {
        assert forall|i: int| !is_first_at(email@, i) by {
            if is_first_at(email@, i) {
                assert(email@[i] != '@');
            }
        }
        return false;
    }
    assert(is_first_at(email@, at as int));
    let ghost domain = email@.subrange(at + 1, n as int);
    if at == 0 || at + 1 >= n {
        assert forall|i: int| is_first_at(email@, i) implies i == at by {
            if i < at {
                assert(email@[i] != '@');
            } else if i > at {
                assert(email@[at as int] != '@');
            }
        }
        return false;
    }
    let mut k: usize = at + 1;
    while k < n
        invariant
            n == email@.len(),
            at + 1 <= k <= n,
            0 < at,
            is_first_at(email@, at as int),
            !email@.contains(' '),
            domain == email@.subrange(at + 1, n as int),
            forall|j: int| at + 1 <= j < k ==> email@[j] != '.',
        decreases n - k,
    {
        if email.get_char(k) == '.' {
            assert(domain[k - at - 1] == '.');
            return true;
        }
        k = k + 1;
    }
    assert forall|i: int| #[trigger] is_first_at(email@, i) implies !domain.contains('.') || i
        != at by {
        if domain.contains('.') {
            let j = choose|j: int| 0 <= j < domain.len() && domain[j] == '.';
            assert(email@[at + 1 + j] == '.');
        }
    }
    assert forall|i: int| is_first_at(email@, i) implies i == at by {
        if i < at {
            assert(email@[i] != '@');
        } else if i > at {
            assert(email@[at as int] != '@');
        }
    }
    false
}

/// Whether `phone` is in E.164 form.
pub fn is_valid_phone(phone: &str) -> (r: bool)
    ensures
        r == valid_phone(phone@),
{
    let n = phone.unicode_len();
    let mut start: usize = 0;
    if n > 0 && phone.get_char(0) == '+' {
        start = 1;
    }
    let ghost digits = phone@.subrange(start as int, n as int);
    assert(digits =~= without_plus(phone@));
    let count = n - start;
    if count < 7 || count > 15 {
        return false;
    }
    let mut i: usize = start;
    while i < n
        invariant
            n == phone@.len(),
            start <= i <= n,
            digits == phone@.subrange(start as int, n as int),
            digits == without_plus(phone@),
            forall|j: int| start <= j < i ==> is_ascii_digit(phone@[j]),
        decreases n - i,
    {
        if !char_is_ascii_digit(phone.get_char(i)) {
            assert(!is_ascii_digit(digits[i - start]));
            return false;
        }
        i = i + 1;
    }
    assert(all_ascii_digits(digits)) by {
        assert forall|j: int| 0 <= j < digits.len() implies is_ascii_digit(#[trigger] digits[j]) by {
            assert(digits[j] == phone@[start + j]);
        }
    }
    true
}

fn all_code_chars_exec(s: &str) -> (r: bool)
    ensures
        r == all_code_chars(s@),
{
    let n = s.unicode_len();
    let mut i: usize = 0;
    while i < n
        invariant
            n == s@.len(),
            i <= n,
            forall|j: int| 0 <= j < i ==> is_code_char(#[trigger] s@[j]),
        decreases n - i,
    {
        let c = s.get_char(i);
        if !(char_is_ascii_uppercase(c) || char_is_ascii_digit(c) || c == '-') {
            assert(!is_code_char(s@[i as int]));
            return false;
        }
        i = i + 1;
    }
    true
}

/// Whether `license_number` meets the backend's rule.
pub fn is_valid_license_number(license_number: &str) -> (r: bool)
    ensures
        r == valid_license_number(license_number@),
{
    let n = license_number.unicode_len();
    5 <= n && n <= 50 && all_code_chars_exec(license_number)
}

/// Whether `plate`, already in upper case, meets the backend's rule.
pub fn is_valid_plate(plate: &str) -> (r: bool)
    ensures
        r == valid_plate(plate@),
{
    let n = plate.unicode_len();
    5 <= n && n <= 10 && all_code_chars_exec(plate)
}

/// Why a login with these fields is refused before it is sent, if it is: an
/// email that is blank after trimming, or an empty password.
pub open spec fn login_refusal(email: Seq<char>, password: Seq<char>) -> Option<LoginError> {
    if trimmed(email).len() == 0 || password.len() == 0 {
        Some(LoginError::EmptyFields)
    } else {
        None
    }
}

/// Checks a login and gives its body. The email travels as typed.
pub fn validate_login(email: &str, password: &str) -> (r: Result<LoginPayload, LoginError>)
    ensures
        match r {
            Ok(payload) => login_refusal(email@, password@) is None && payload.email@ == email@
                && payload.password@ == password@,
            Err(e) => login_refusal(email@, password@) == Some(e),
        },
{
    if trim(email).unicode_len() == 0 || password.unicode_len() == 0 {
        return Err(LoginError::EmptyFields);
    }
    Ok(LoginPayload { email: email.to_owned(), password: password.to_owned() })
}

/// Why a passenger registration is refused before it is sent, if it is,
/// checked in this order: a blank field (name, email and phone are trimmed,
/// the password is not), a malformed email, a malformed phone.
pub open spec fn passenger_refusal(
    name: Seq<char>,
    email: Seq<char>,
    phone: Seq<char>,
    password: Seq<char>,
) -> Option<RegisterError> {
    if trimmed(name).len() == 0 || trimmed(email).len() == 0 || trimmed(phone).len() == 0
        || password.len() == 0 {
        Some(RegisterError::EmptyFields)
    } else if !valid_email(trimmed(email)) {
        Some(RegisterError::InvalidEmail)
    } else if !valid_phone(trimmed(phone)) {
        Some(RegisterError::InvalidPhone)
    } else {
        None
    }
}

/// Checks a passenger registration and gives its body, with name, email and
/// phone trimmed.
pub fn validate_passenger_registration(name: &str, email: &str, phone: &str, password: &str) -> (r:
    Result<RegisterPassengerPayload, RegisterError>)
    ensures
        match r {
            Ok(payload) => {
                &&& passenger_refusal(name@, email@, phone@, password@) is None
                &&& payload.name@ == trimmed(name@)
                &&& payload.email@ == trimmed(email@)
                &&& payload.phone@ == trimmed(phone@)
                &&& payload.password@ == password@
            },
            Err(e) => passenger_refusal(name@, email@, phone@, password@) == Some(e),
        },
{
    let name = trim(name);
    let email = trim(email);
    let phone = trim(phone);
    if name.unicode_len() == 0 || email.unicode_len() == 0 || phone.unicode_len() == 0
        || password.unicode_len() == 0 {
        return Err(RegisterError::EmptyFields);
    }
    if !is_valid_email(email) {
        return Err(RegisterError::InvalidEmail);
    }
    if !is_valid_phone(phone) {
        return Err(RegisterError::InvalidPhone);
    }
    Ok(
        RegisterPassengerPayload {
            name: name.to_owned(),
            email: email.to_owned(),
            phone: phone.to_owned(),
            password: password.to_owned(),
        },
    )
}

/// Why a driver registration is refused before it is sent, if it is: as for
/// a passenger, with the trimmed license number also required, and checked
/// last against the backend's rule.
pub open spec fn driver_refusal(
    name: Seq<char>,
    email: Seq<char>,
    phone: Seq<char>,
    password: Seq<char>,
    license_number: Seq<char>,
) -> Option<RegisterError> {
    if trimmed(name).len() == 0 || trimmed(email).len() == 0 || trimmed(phone).len() == 0
        || password.len() == 0 || trimmed(license_number).len() == 0 {
        Some(RegisterError::EmptyFields)
    } else if !valid_email(trimmed(email)) {
        Some(RegisterError::InvalidEmail)
    } else if !valid_phone(trimmed(phone)) {
        Some(RegisterError::InvalidPhone)
    } else if !valid_license_number(trimmed(license_number)) {
        Some(RegisterError::InvalidLicenseNumber)
    } else {
        None
    }
}

/// Checks a driver registration and gives its body, with every field but the
/// password trimmed.
pub fn validate_driver_registration(
    name: &str,
    email: &str,
    phone: &str,
    password: &str,
    license_number: &str,
) -> (r: Result<RegisterDriverPayload, RegisterError>)
    ensures
        match r {
            Ok(payload) => {
                &&& driver_refusal(name@, email@, phone@, password@, license_number@) is None
                &&& payload.name@ == trimmed(name@)
                &&& payload.email@ == trimmed(email@)
                &&& payload.phone@ == trimmed(phone@)
                &&& payload.password@ == password@
                &&& payload.license_number@ == trimmed(license_number@)
            },
            Err(e) => driver_refusal(name@, email@, phone@, password@, license_number@) == Some(e),
        },
{
    let name = trim(name);
    let email = trim(email);
    let phone = trim(phone);
    let license_number = trim(license_number);
    if name.unicode_len() == 0 || email.unicode_len() == 0 || phone.unicode_len() == 0
        || password.unicode_len() == 0 || license_number.unicode_len() == 0 {
        return Err(RegisterError::EmptyFields);
    }
    if !is_valid_email(email) {
        return Err(RegisterError::InvalidEmail);
    }
    if !is_valid_phone(phone) {
        return Err(RegisterError::InvalidPhone);
    }
    if !is_valid_license_number(license_number) {
        return Err(RegisterError::InvalidLicenseNumber);
    }
    Ok(
        RegisterDriverPayload {
            name: name.to_owned(),
            email: email.to_owned(),
            phone: phone.to_owned(),
            password: password.to_owned(),
            license_number: license_number.to_owned(),
        },
    )
}

/// Why a profile update is refused before it is sent, if it is: no field at
/// all, a malformed email, a malformed phone (as given, not trimmed).
pub open spec fn profile_update_refusal(update: UpdateProfilePayload) -> Option<UpdateProfileError> {
    if update.name is None && update.email is None && update.phone is None {
        Some(UpdateProfileError::NoFields)
    } else if update.email is Some && !valid_email(update.email->0@) {
        Some(UpdateProfileError::InvalidEmail)
    } else if update.phone is Some && !valid_phone(update.phone->0@) {
        Some(UpdateProfileError::InvalidPhone)
    } else {
        None
    }
}

/// Checks a profile update; the body sent is the update itself.
pub fn validate_profile_update(update: UpdateProfilePayload) -> (r: Result<
    UpdateProfilePayload,
    UpdateProfileError,
>)
    ensures
        match r {
            Ok(payload) => profile_update_refusal(update) is None && payload == update,
            Err(e) => profile_update_refusal(update) == Some(e),
        },
{
    if update.name.is_none() && update.email.is_none() && update.phone.is_none() {
        return Err(UpdateProfileError::NoFields);
    }
    if let Some(email) = &update.email {
        if !is_valid_email(email.as_str()) {
            return Err(UpdateProfileError::InvalidEmail);
        }
    }
    if let Some(phone) = &update.phone {
        if !is_valid_phone(phone.as_str()) {
            return Err(UpdateProfileError::InvalidPhone);
        }
    }
    Ok(update)
}

/// The earliest model year that the backend accepts.
pub const FIRST_MODEL_YEAR: u16 = 1970;

/// The plate as it is checked and sent: trimmed, then in upper case. On
/// ASCII text the upper case makes each small letter capital and leaves the
/// rest; on other text it is Unicode's.
pub open spec fn normalized_plate(plate: Seq<char>) -> Seq<char> {
    if is_ascii_text(trimmed(plate)) {
        ascii_uppercase(trimmed(plate))
    } else {
        uppercase(trimmed(plate))
    }
}

/// The year of a vehicle read from its trimmed text: exactly four ASCII
/// digits, not before `FIRST_MODEL_YEAR`.
pub open spec fn model_year(year: Seq<char>) -> Option<u16> {
    let digits = trimmed(year);
    if digits.len() == 4 && all_ascii_digits(digits) && digits_value(digits) >= FIRST_MODEL_YEAR {
        Some(digits_value(digits) as u16)
    } else {
        None
    }
}

/// Why a vehicle registration is refused before it is sent, if it is, checked
/// in this order: a blank plate or year, a plate against the backend's rule,
/// a year that is not four digits not before 1970.
pub open spec fn vehicle_registration_refusal(plate: Seq<char>, year: Seq<char>) -> Option<
    RegisterVehicleError,
> {
    if normalized_plate(plate).len() == 0 || trimmed(year).len() == 0 {
        Some(RegisterVehicleError::EmptyFields)
    } else if !valid_plate(normalized_plate(plate)) {
        Some(RegisterVehicleError::InvalidPlate)
    } else if model_year(year) is None {
        Some(RegisterVehicleError::InvalidYear)
    } else {
        None
    }
}

fn read_model_year(year: &str) -> (r: Option<u16>)
    ensures
        r == model_year(year@),
{
    let digits = trim(year);
    if digits.unicode_len() != 4 {
        return None;
    }
    let mut i: usize = 0;
    while i < 4
        invariant
            digits@ == trimmed(year@),
            digits@.len() == 4,
            i <= 4,
            forall|k: int| 0 <= k < i ==> is_ascii_digit(#[trigger] digits@[k]),
        decreases 4 - i,
    {
        if !char_is_ascii_digit(digits.get_char(i)) {
            assert(!all_ascii_digits(digits@)) by {
                assert(!is_ascii_digit(digits@[i as int]));
            }
            return None;
        }
        i = i + 1;
    }
    proof {
        let d = digits@;
        assert(all_ascii_digits(d));
        assert(without_plus(d) == d) by {
            assert(is_ascii_digit(d[0]));
        }
        reveal_with_fuel(digits_value, 5);
        assert(d.drop_last().drop_last().drop_last().drop_last().len() == 0);
        assert(digits_value(d) <= 9999) by {
            assert(d.drop_last().last() == d[2]);
            assert(d.drop_last().drop_last().last() == d[1]);
            assert(d.drop_last().drop_last().drop_last().last() == d[0]);
            assert(d.last() == d[3]);
            assert(is_ascii_digit(d[0]) && is_ascii_digit(d[1]) && is_ascii_digit(d[2]) && is_ascii_digit(d[3]));
        }
    }
    match parse_u16(digits) {
        Some(y) => if y >= FIRST_MODEL_YEAR {
            Some(y)
        } else {
            None
        },
        None => None,
    }
}

/// Checks a vehicle registration and gives its body, with the plate trimmed
/// and in upper case, as the backend stores it.
pub fn validate_vehicle_registration(plate: &str, vehicle_type: VehicleType, year: &str) -> (r:
    Result<RegisterVehiclePayload, RegisterVehicleError>)
    ensures
        match r {
            Ok(payload) => {
                &&& vehicle_registration_refusal(plate@, year@) is None
                &&& payload.plate@ == normalized_plate(plate@)
                &&& payload.vehicle_type == vehicle_type
                &&& Some(payload.year) == model_year(year@)
            },
            Err(e) => vehicle_registration_refusal(plate@, year@) == Some(e),
        },
{
    let plate = to_uppercase(trim(plate));
    if plate.as_str().unicode_len() == 0 || trim(year).unicode_len() == 0 {
        return Err(RegisterVehicleError::EmptyFields);
    }
    if !is_valid_plate(plate.as_str()) {
        return Err(RegisterVehicleError::InvalidPlate);
    }
    match read_model_year(year) {
        Some(year) => Ok(RegisterVehiclePayload { plate, vehicle_type, year }),
        None => Err(RegisterVehicleError::InvalidYear),
    }
}

/// Why a vehicle update is refused before it is sent, if it is, checked in
/// this order: no field at all, a plate against the backend's rule, a year
/// that is not four digits not before 1970.
pub open spec fn vehicle_update_refusal(
    plate: Option<Seq<char>>,
    vehicle_type: Option<VehicleType>,
    year: Option<Seq<char>>,
) -> Option<UpdateVehicleError> {
    if plate is None && vehicle_type is None && year is None {
        Some(UpdateVehicleError::NoFields)
    } else if plate is Some && !valid_plate(normalized_plate(plate->0)) {
        Some(UpdateVehicleError::InvalidPlate)
    } else if year is Some && model_year(year->0) is None {
        Some(UpdateVehicleError::InvalidYear)
    } else {
        None
    }
}

/// The view of an optional text.
pub open spec fn view_of(s: Option<&str>) -> Option<Seq<char>> {
    match s {
        Some(s) => Some(s@),
        None => None,
    }
}

/// Checks a vehicle update and gives its body: only the given fields, the
/// plate trimmed and in upper case.
pub fn validate_vehicle_update(
    plate: Option<&str>,
    vehicle_type: Option<VehicleType>,
    year: Option<&str>,
) -> (r: Result<UpdateVehiclePayload, UpdateVehicleError>)
    ensures
        match r {
            Ok(payload) => {
                &&& vehicle_update_refusal(view_of(plate), vehicle_type, view_of(year)) is None
                &&& payload.plate is Some == plate is Some
                &&& plate is Some ==> payload.plate->0@ == normalized_plate(plate->0@)
                &&& payload.vehicle_type == vehicle_type
                &&& payload.year is Some == year is Some
                &&& year is Some ==> Some(payload.year->0) == model_year(year->0@)
            },
            Err(e) => vehicle_update_refusal(view_of(plate), vehicle_type, view_of(year)) == Some(e),
        },
{
    if plate.is_none() && vehicle_type.is_none() && year.is_none() {
        return Err(UpdateVehicleError::NoFields);
    }
    let plate = match plate {
        Some(value) => {
            let value = to_uppercase(trim(value));
            if !is_valid_plate(value.as_str()) {
                return Err(UpdateVehicleError::InvalidPlate);
            }
            Some(value)
        },
        None => None,
    };
    let year = match year {
        Some(value) => match read_model_year(value) {
            Some(y) => Some(y),
            None => {
                return Err(UpdateVehicleError::InvalidYear);
            },
        },
        None => None,
    };
    Ok(UpdateVehiclePayload { plate, vehicle_type, year })
}

/// The lowest and highest score of a rating.
pub const MIN_SCORE: u8 = 1;

pub const MAX_SCORE: u8 = 5;

/// The comment as it is sent: trimmed, and left out when blank.
pub open spec fn sent_comment(comment: Option<Seq<char>>) -> Option<Seq<char>> {
    match comment {
        Some(c) => if trimmed(c).len() > 0 {
            Some(trimmed(c))
        } else {
            None
        },
        None => None,
    }
}

/// Checks a rating of a driver and gives its body: the score must lie
/// between 1 and 5; the comment is trimmed, and left out when blank.
pub fn validate_driver_rating(score: u8, comment: Option<&str>) -> (r: Result<
    RateDriverPayload,
    RateDriverError,
>)
    ensures
        match r {
            Ok(payload) => {
                &&& MIN_SCORE <= score <= MAX_SCORE
                &&& payload.score == score
                &&& view_of_string(payload.comment) == sent_comment(view_of(comment))
            },
            Err(e) => !(MIN_SCORE <= score <= MAX_SCORE) && e == RateDriverError::InvalidScore,
        },
{
    if score < MIN_SCORE || score > MAX_SCORE {
        return Err(RateDriverError::InvalidScore);
    }
    let comment = match comment {
        Some(c) => {
            let c = trim(c);
            if c.unicode_len() > 0 {
                Some(c.to_owned())
            } else {
                None
            }
        },
        None => None,
    };
    Ok(RateDriverPayload { score, comment })
}

/// The view of an optional owned text.
pub open spec fn view_of_string(s: Option<String>) -> Option<Seq<char>> {
    match s {
        Some(s) => Some(s@),
        None => None,
    }
}


/// Whether `d` is 7 to 15 ASCII digits.
pub open spec fn phone_digits_shape(d: Seq<char>) -> bool {
    7 <= d.len() <= 15 && forall|i: int| 0 <= i < d.len() ==> '0' <= #[trigger] d[i] <= '9'
}

/// Whether `p` is an optional `+` followed by 7 to 15 ASCII digits.
pub open spec fn phone_shape(p: Seq<char>) -> bool {
    if p.len() > 0 && p[0] == '+' {
        phone_digits_shape(p.subrange(1, p.len() as int))
    } else {
        phone_digits_shape(p)
    }
}

/// Whether `t` has `min` to `max` characters, each an ASCII capital letter,
/// an ASCII digit or a hyphen.
pub open spec fn code_shape(t: Seq<char>, min: int, max: int) -> bool {
    &&& min <= t.len() <= max
    &&& forall|i: int|
        0 <= i < t.len() ==> ('A' <= #[trigger] t[i] <= 'Z') || ('0' <= t[i] <= '9') || t[i] == '-'
}

proof fn lemma_phone_shape(p: Seq<char>)
    ensures
        valid_phone(p) == phone_shape(p),
{
    let d = if p.len() > 0 && p[0] == '+' {
        p.subrange(1, p.len() as int)
    } else {
        p
    };
    assert(without_plus(p) =~= d);
    assert(valid_phone(p) == (7 <= d.len() <= 15 && all_ascii_digits(d)));
    assert(phone_shape(p) == phone_digits_shape(d));
    if all_ascii_digits(d) {
        assert forall|i: int| 0 <= i < d.len() implies '0' <= #[trigger] d[i] <= '9' by {
            assert(is_ascii_digit(d[i]));
        }
    }
    if forall|i: int| 0 <= i < d.len() ==> '0' <= #[trigger] d[i] <= '9' {
        assert forall|i: int| 0 <= i < d.len() implies is_ascii_digit(#[trigger] d[i]) by {
            assert('0' <= d[i] <= '9');
        }
    }
}

/// A login is sent exactly when the email is not blank and the password is
/// not empty; otherwise it is refused as `EmptyFields`.
pub proof fn a_login_is_refused_only_for_a_missing_field(email: Seq<char>, password: Seq<char>)
    ensures
        login_refusal(email, password) is None <==> trimmed(email).len() > 0 && password.len() > 0,
        login_refusal(email, password) is Some ==> login_refusal(email, password) == Some(
            LoginError::EmptyFields,
        ),
{
}

/// A malformed phone is never sent with a profile update, whatever the other
/// fields hold: an update whose phone is not an optional `+` followed by 7 to
/// 15 ASCII digits is refused, as a malformed email or a malformed phone.
pub proof fn a_profile_update_with_a_malformed_phone_is_refused(update: UpdateProfilePayload)
    requires
        update.phone is Some,
        !phone_shape(update.phone->0@),
    ensures
        profile_update_refusal(update) == Some(UpdateProfileError::InvalidEmail)
            || profile_update_refusal(update) == Some(UpdateProfileError::InvalidPhone),
{
    lemma_phone_shape(update.phone->0@);
}

/// A profile update is sent when it changes some field and the email and the
/// phone it gives, if any, are well formed (the phone an optional `+`
/// followed by 7 to 15 ASCII digits).
pub proof fn a_well_formed_profile_update_is_sent(update: UpdateProfilePayload)
    requires
        update.name is Some || update.email is Some || update.phone is Some,
        update.email is Some ==> valid_email(update.email->0@),
        update.phone is Some ==> phone_shape(update.phone->0@),
    ensures
        profile_update_refusal(update) is None,
{
    if update.phone is Some {
        lemma_phone_shape(update.phone->0@);
    }
}

/// A driver whose other fields are in order is registered exactly when the
/// trimmed license number has 5 to 50 characters, each an ASCII capital
/// letter, a digit or a hyphen; otherwise the registration is refused as
/// `EmptyFields` (a blank number) or `InvalidLicenseNumber`.
pub proof fn a_license_number_follows_its_own_rule(
    name: Seq<char>,
    email: Seq<char>,
    phone: Seq<char>,
    password: Seq<char>,
    license_number: Seq<char>,
)
    requires
        trimmed(name).len() > 0,
        valid_email(trimmed(email)),
        phone_shape(trimmed(phone)),
        password.len() > 0,
    ensures
        driver_refusal(name, email, phone, password, license_number) is None <==> code_shape(
            trimmed(license_number),
            5,
            50,
        ),
        driver_refusal(name, email, phone, password, license_number) is Some ==> driver_refusal(
            name,
            email,
            phone,
            password,
            license_number,
        ) == Some(RegisterError::EmptyFields) || driver_refusal(
            name,
            email,
            phone,
            password,
            license_number,
        ) == Some(RegisterError::InvalidLicenseNumber),
{
    lemma_phone_shape(trimmed(phone));
    assert(trimmed(email).len() > 0) by {
        let i = choose|i: int| #![trigger is_first_at(trimmed(email), i)] is_first_at(trimmed(email), i) && 0 < i
            && i + 1 < trimmed(email).len() && trimmed(email).subrange(i + 1, trimmed(email).len() as int).contains('.');
    }
}

/// A passenger whose name, email and password are in order is registered
/// exactly when the trimmed phone is an optional `+` followed by 7 to 15
/// ASCII digits; otherwise the registration is refused as `EmptyFields` (a
/// blank phone) or `InvalidPhone`.
pub proof fn a_passenger_phone_follows_its_rule(
    name: Seq<char>,
    email: Seq<char>,
    phone: Seq<char>,
    password: Seq<char>,
)
    requires
        trimmed(name).len() > 0,
        valid_email(trimmed(email)),
        password.len() > 0,
    ensures
        passenger_refusal(name, email, phone, password) is None <==> phone_shape(trimmed(phone)),
        passenger_refusal(name, email, phone, password) is Some ==> passenger_refusal(
            name,
            email,
            phone,
            password,
        ) == Some(RegisterError::EmptyFields) || passenger_refusal(name, email, phone, password)
            == Some(RegisterError::InvalidPhone),
{
    lemma_phone_shape(trimmed(phone));
    assert(trimmed(email).len() > 0) by {
        let i = choose|i: int| #![trigger is_first_at(trimmed(email), i)] is_first_at(trimmed(email), i) && 0 < i
            && i + 1 < trimmed(email).len() && trimmed(email).subrange(i + 1, trimmed(email).len() as int).contains('.');
    }
}

/// Whether `y` is four ASCII digits whose value is not before 1970.
pub open spec fn year_shape(y: Seq<char>) -> bool {
    &&& y.len() == 4
    &&& forall|i: int| 0 <= i < 4 ==> '0' <= #[trigger] y[i] <= '9'
    &&& (y[0] as int - 48) * 1000 + (y[1] as int - 48) * 100 + (y[2] as int - 48) * 10 + (y[3] as int
        - 48) >= 1970
}

proof fn lemma_year_shape(year: Seq<char>)
    ensures
        model_year(year) is Some <==> year_shape(trimmed(year)),
        model_year(year) is Some ==> model_year(year)->0 as int == (trimmed(year)[0] as int - 48) * 1000
            + (trimmed(year)[1] as int - 48) * 100 + (trimmed(year)[2] as int - 48) * 10 + (
        trimmed(year)[3] as int - 48),
{
    let y = trimmed(year);
    if y.len() == 4 {
        reveal_with_fuel(digits_value, 5);
        assert(y.drop_last().drop_last().drop_last().drop_last().len() == 0);
        assert(y.drop_last().last() == y[2]);
        assert(y.drop_last().drop_last().last() == y[1]);
        assert(y.drop_last().drop_last().drop_last().last() == y[0]);
        assert(y.last() == y[3]);
        if year_shape(y) {
            assert(all_ascii_digits(y)) by {
                assert forall|i: int| 0 <= i < y.len() implies is_ascii_digit(#[trigger] y[i]) by {
                    assert('0' <= y[i] <= '9');
                }
            }
        }
        if all_ascii_digits(y) {
            assert(is_ascii_digit(y[0]) && is_ascii_digit(y[1]) && is_ascii_digit(y[2]) && is_ascii_digit(y[3]));
        }
    }
}

/// A vehicle registration is sent exactly when the plate, trimmed and in
/// upper case, has 5 to 10 characters, each an ASCII capital letter, a digit
/// or a hyphen, and the trimmed year is four digits not before 1970; the year
/// sent is the number those digits write.
pub proof fn a_vehicle_registration_follows_the_plate_and_year_rules(plate: Seq<char>, year: Seq<char>)
    ensures
        vehicle_registration_refusal(plate, year) is None <==> code_shape(normalized_plate(plate), 5, 10)
            && year_shape(trimmed(year)),
        model_year(year) is Some ==> model_year(year)->0 as int == (trimmed(year)[0] as int - 48) * 1000
            + (trimmed(year)[1] as int - 48) * 100 + (trimmed(year)[2] as int - 48) * 10 + (
        trimmed(year)[3] as int - 48),
{
    lemma_year_shape(year);
}

/// A vehicle update is sent exactly when it changes some field, its plate (if
/// any) follows the plate rule and its year (if any) is four digits not
/// before 1970.
pub proof fn a_vehicle_update_follows_the_plate_and_year_rules(
    plate: Option<Seq<char>>,
    vehicle_type: Option<VehicleType>,
    year: Option<Seq<char>>,
)
    ensures
        vehicle_update_refusal(plate, vehicle_type, year) is None <==> (plate is Some || vehicle_type is Some
            || year is Some) && (plate is Some ==> code_shape(normalized_plate(plate->0), 5, 10)) && (
        year is Some ==> year_shape(trimmed(year->0))),
{
    if year is Some {
        lemma_year_shape(year->0);
    }
}

/// A rating's comment is sent trimmed, and left out when it is missing or
/// blank after trimming.
pub proof fn a_blank_comment_is_left_out(comment: Option<Seq<char>>)
    ensures
        comment is None ==> sent_comment(comment) is None,
        comment is Some && trimmed(comment->0).len() == 0 ==> sent_comment(comment) is None,
        comment is Some && trimmed(comment->0).len() > 0 ==> sent_comment(comment) == Some(
            trimmed(comment->0),
        ),
{
}

} // verus!
