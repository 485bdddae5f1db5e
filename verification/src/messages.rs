use vstd::prelude::*;

verus! {

// The fixed texts carried by server responses. Each text exists twice: as a
// spec function, so contracts can pin down exactly which message a flow
// sends, and as an executable constructor of the `String` that is sent.
pub open spec fn invalid_email_msg() -> Seq<char> {
    "Invalid email"@
}

pub open spec fn invalid_password_msg() -> Seq<char> {
    "Invalid password: must contain at least 1 upper case, 1 lower case, 1 number and has a length of min 8"@
}

pub open spec fn invalid_public_key_msg() -> Seq<char> {
    "Invalid public key"@
}

pub open spec fn invalid_uuid_msg() -> Seq<char> {
    "Invalid uuid: must have format 00000000-0000-0000-0000-000000000000"@
}

pub open spec fn invalid_pin_msg() -> Seq<char> {
    "Invalid pin: must contains at least 6 and maximum 8 characters"@
}

pub open spec fn bad_uuid_msg() -> Seq<char> {
    "Bad uuid"@
}

pub open spec fn wrong_key_msg() -> Seq<char> {
    "Wrong yubikey"@
}

pub open spec fn auth_fail_msg() -> Seq<char> {
    "Invalid user and password combination"@
}

pub open spec fn account_existing_msg() -> Seq<char> {
    "An account with same email already exists"@
}

pub open spec fn email_sent_msg() -> Seq<char> {
    "Email sent"@
}

pub open spec fn valid_email_msg() -> Seq<char> {
    "Email is valid and account exists"@
}

pub open spec fn account_registered_msg() -> Seq<char> {
    "Account registered"@
}

pub open spec fn auth_success_msg() -> Seq<char> {
    "Authentification success"@
}

pub open spec fn auth_two_fa_msg() -> Seq<char> {
    "First part of authentification success"@
}

pub open spec fn correct_uuid_msg() -> Seq<char> {
    "Correct UUID from email"@
}

pub open spec fn register_mail_subject_msg() -> Seq<char> {
    "Mail validation token"@
}

pub open spec fn register_mail_body_msg() -> Seq<char> {
    "Here is the validation token"@
}

pub open spec fn reset_mail_subject_msg() -> Seq<char> {
    "Reset password mail"@
}

pub open spec fn reset_mail_body_msg() -> Seq<char> {
    "Here is the reset password token"@
}

pub fn register_mail_subject_text() -> (r: String)
    ensures
        r@ == register_mail_subject_msg(),
{
    "Mail validation token".to_owned()
}

pub fn register_mail_body_text() -> (r: String)
    ensures
        r@ == register_mail_body_msg(),
{
    "Here is the validation token".to_owned()
}

pub fn reset_mail_subject_text() -> (r: String)
    ensures
        r@ == reset_mail_subject_msg(),
{
    "Reset password mail".to_owned()
}

pub fn reset_mail_body_text() -> (r: String)
    ensures
        r@ == reset_mail_body_msg(),
{
    "Here is the reset password token".to_owned()
}

pub fn invalid_email_text() -> (r: String)
    ensures
        r@ == invalid_email_msg(),
{
    "Invalid email".to_owned()
}

pub fn invalid_password_text() -> (r: String)
    ensures
        r@ == invalid_password_msg(),
{
    "Invalid password: must contain at least 1 upper case, 1 lower case, 1 number and has a length of min 8".to_owned()
}

pub fn invalid_public_key_text() -> (r: String)
    ensures
        r@ == invalid_public_key_msg(),
{
    "Invalid public key".to_owned()
}

pub fn invalid_uuid_text() -> (r: String)
    ensures
        r@ == invalid_uuid_msg(),
{
    "Invalid uuid: must have format 00000000-0000-0000-0000-000000000000".to_owned()
}

pub fn invalid_pin_text() -> (r: String)
    ensures
        r@ == invalid_pin_msg(),
{
    "Invalid pin: must contains at least 6 and maximum 8 characters".to_owned()
}

pub fn bad_uuid_text() -> (r: String)
    ensures
        r@ == bad_uuid_msg(),
{
    "Bad uuid".to_owned()
}

pub fn wrong_key_text() -> (r: String)
    ensures
        r@ == wrong_key_msg(),
{
    "Wrong yubikey".to_owned()
}

pub fn auth_fail_text() -> (r: String)
    ensures
        r@ == auth_fail_msg(),
{
    "Invalid user and password combination".to_owned()
}

pub fn account_existing_text() -> (r: String)
    ensures
        r@ == account_existing_msg(),
{
    "An account with same email already exists".to_owned()
}

pub fn email_sent_text() -> (r: String)
    ensures
        r@ == email_sent_msg(),
{
    "Email sent".to_owned()
}

pub fn valid_email_text() -> (r: String)
    ensures
        r@ == valid_email_msg(),
{
    "Email is valid and account exists".to_owned()
}

pub fn account_registered_text() -> (r: String)
    ensures
        r@ == account_registered_msg(),
{
    "Account registered".to_owned()
}

pub fn auth_success_text() -> (r: String)
    ensures
        r@ == auth_success_msg(),
{
    "Authentification success".to_owned()
}

pub fn auth_two_fa_text() -> (r: String)
    ensures
        r@ == auth_two_fa_msg(),
{
    "First part of authentification success".to_owned()
}

pub fn correct_uuid_text() -> (r: String)
    ensures
        r@ == correct_uuid_msg(),
{
    "Correct UUID from email".to_owned()
}

} // verus!
