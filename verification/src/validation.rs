//! Validation of registration input, applied at the protocol boundary
//! before any credential or storage work happens.

use vstd::prelude::*;
use vstd::string::StrSliceExecFns;
use validator::ValidateEmail;

use crate::domain::CreateUserRequest;
use crate::errors::UserError;

verus! {

/// Minimum number of characters a password must have.
pub const MIN_PASSWORD_CHARS: usize = 6;

/// Whether a string is a well-formed email address under the HTML5
/// rules that the `validator` crate implements.
pub uninterp spec fn is_valid_email(s: Seq<char>) -> bool;

/// Relies on `validator`'s `ValidateEmail` impl for `&str`: an
/// HTML5-style well-formedness check whose verdict depends on the
/// characters alone. An empty string is never a valid address.
#[verifier::external_body]
fn email_is_valid(s: &str) -> (r: bool)
    ensures
        r == is_valid_email(s@),
        s@.len() == 0 ==> r == false,
{
    s.validate_email()
}

/// What a registration payload must satisfy to be accepted.
pub open spec fn spec_registration_valid(email: Seq<char>, password: Seq<char>) -> bool {
    is_valid_email(email) && password.len() >= MIN_PASSWORD_CHARS
}

/// Check a registration payload at the boundary: the email address must
/// be well formed and the password long enough. Rejected input never
/// reaches the credential or storage layer.
pub fn validate_registration(req: &CreateUserRequest) -> (r: Result<(), UserError>)
    ensures
        r is Ok <==> spec_registration_valid(req.email@, req.password@),
        r is Err ==> r->Err_0 is InvalidRegistrationCredentials,
{
    if !email_is_valid(req.email.as_str()) {
        return Err(UserError::InvalidRegistrationCredentials);
    }
    if req.password.as_str().unicode_len() < MIN_PASSWORD_CHARS {
        return Err(UserError::InvalidRegistrationCredentials);
    }
    Ok(())
}

} // verus!
