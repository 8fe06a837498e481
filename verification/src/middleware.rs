//! Authorization guard: extract the bearer token from the request's
//! authorization value and verify it, yielding the authenticated
//! identity or a rejection.
//!
//! An absent or malformed bearer value and a failed verification are
//! not distinguished to the caller: both are one rejection, so nothing
//! about signature validity leaks outward. Read-only operations never
//! pass through here.

use vstd::prelude::*;

use crate::credentials::{token_claims, JwtService};
use crate::domain::Claims;

verus! {

/// Relies on `str::strip_prefix` with a literal pattern: the suffix is
/// returned exactly when the string starts with the prefix.
#[verifier::external_body]
fn strip_bearer(header: &str) -> (r: Option<&str>)
    ensures
        r matches Some(t) ==> header@ == "Bearer "@ + t@,
        r is Some <==> "Bearer "@.is_prefix_of(header@),
{
    header.strip_prefix("Bearer ")
}

/// The identity a well-formed authorization value speaks for: the
/// claims behind the token after the bearer marker, if the value has
/// the marker and the token's signature matches `key`. Whether the
/// token is also unexpired is up to the clock.
pub open spec fn spec_auth_claims(key: Seq<u8>, header: Option<&str>) -> Option<(i64, Seq<char>, i64)> {
    match header {
        Option::None => Option::None,
        Option::Some(h) => if "Bearer "@.is_prefix_of(h@) {
            token_claims(key, h@.skip(7))
        } else {
            Option::None
        },
    }
}

/// Run the guard: `None` when the authorization value is absent, lacks
/// the bearer marker, or its token fails verification; the embedded
/// identity otherwise.
pub fn authorize(jwt: &JwtService, header: Option<&str>) -> (r: Option<Claims>)
    ensures
        r matches Some(c) ==> spec_auth_claims(jwt.key(), header) == Some(
            (c.user_id, c.username@, c.exp),
        ),
        spec_auth_claims(jwt.key(), header) is None ==> r is None,
{
    proof {
        reveal_strlit("Bearer ");
    }
    let h = match header {
        Some(h) => h,
        None => {
            return None;
        },
    };
    let token = match strip_bearer(h) {
        Some(t) => t,
        None => {
            return None;
        },
    };
    proof {
        assert(token@ =~= h@.skip(7));
    }
    jwt.verify_token(token)
}

} // verus!
