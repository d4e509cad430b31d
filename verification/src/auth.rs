//! Building the authorization header value from an access token.

use vstd::prelude::*;

verus! {

use crate::strings::starts_with;
use crate::strings::str_starts_with;
use vstd::string::StringExecFns;

/// True when the token already carries the bearer scheme prefix.
pub open spec fn has_bearer_prefix(t: Seq<char>) -> bool {
    starts_with(t, "Bearer "@)
}

/// The authorization header value: the token under the bearer scheme,
/// applied exactly once.
pub open spec fn auth_token_of(t: Seq<char>) -> Seq<char> {
    if has_bearer_prefix(t) {
        t
    } else {
        "Bearer "@ + t
    }
}

/// The authorization header value for an access token: the bearer scheme
/// prefix is added unless the token already carries it.
pub fn auth_token(access_token: &str) -> (r: String)
    ensures
        r@ == auth_token_of(access_token@),
{
    if str_starts_with(access_token, "Bearer ") {
        access_token.to_owned()
    } else {
        let mut out = "Bearer ".to_owned();
        out.append(access_token);
        out
    }
}

} // verus!
