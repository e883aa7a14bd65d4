//! The auth gate: the ingestion path accepts a request only when its
//! Authorization header carries `Bearer <token>` with the token exactly equal
//! to the configured API key. Health endpoints are not gated.

use crate::error::AppError;
use crate::render::str_eq;
use vstd::prelude::*;
use vstd::string::StrSliceExecFns;
use vstd::string::StringExecFns;

verus! {

/// The header value opens with the `Bearer ` scheme.
pub open spec fn spec_has_bearer_scheme(h: Seq<char>) -> bool {
    h.len() >= 7 && h.subrange(0, 7) == "Bearer "@
}

/// The token carried after the `Bearer ` scheme.
pub open spec fn spec_bearer_token(h: Seq<char>) -> Seq<char>
    recommends
        spec_has_bearer_scheme(h),
{
    h.skip(7)
}

/// Decide whether a request is allowed through, from its Authorization header
/// (if any) and the configured API key. Allowed exactly when the header is
/// `Bearer <token>` with the token equal to the key; otherwise the error says
/// whether the header was missing, malformed, or carried the wrong key.
pub fn check_auth(header: Option<&str>, api_key: &str) -> (r: Result<(), AppError>)
    ensures
        r is Ok <==> (header matches Some(h) && spec_has_bearer_scheme(h@) && spec_bearer_token(
            h@,
        ) == api_key@),
        header is None ==> (r matches Err(e) && e matches AppError::Unauthorized(d) && d@
            == "Missing authorization header"@),
        (header matches Some(h) && !spec_has_bearer_scheme(h@)) ==> (r matches Err(e)
            && e matches AppError::Unauthorized(d) && d@ == "Invalid authorization format"@),
        (header matches Some(h) && spec_has_bearer_scheme(h@) && spec_bearer_token(h@)
            != api_key@) ==> (r matches Err(e) && e matches AppError::Unauthorized(d) && d@
            == "Invalid API key"@),
{
    match header {
        None => Err(AppError::Unauthorized(String::from_str("Missing authorization header"))),
        Some(h) => {
            let n = h.unicode_len();
            if n < 7 {
                return Err(
                    AppError::Unauthorized(String::from_str("Invalid authorization format")),
                );
            }
            let scheme = h.substring_char(0, 7);
            if !str_eq(scheme, "Bearer ") {
                return Err(
                    AppError::Unauthorized(String::from_str("Invalid authorization format")),
                );
            }
            let token = h.substring_char(7, n);
            proof {
                assert(token@ =~= spec_bearer_token(h@));
            }
            if !str_eq(token, api_key) {
                return Err(AppError::Unauthorized(String::from_str("Invalid API key")));
            }
            Ok(())
        },
    }
}

/// Law: a header holding exactly the `Bearer ` scheme followed by the
/// configured key satisfies both structural conditions, and the token it
/// carries is that key.
pub proof fn lemma_exact_key_passes(key: Seq<char>)
    ensures
        spec_has_bearer_scheme("Bearer "@ + key),
        spec_bearer_token("Bearer "@ + key) == key,
{
    reveal_strlit("Bearer ");
    assert(("Bearer "@ + key).subrange(0, 7) =~= "Bearer "@);
    assert(("Bearer "@ + key).skip(7) =~= key);
}

} // verus!
