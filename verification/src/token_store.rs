//! Where the refresh token is kept: one OS keyring entry per D6E Auth origin.

use vstd::prelude::*;

use crate::urls::UrlParts;

verus! {

/// The OS keyring, which holds the CLI's refresh token and nothing else.
pub struct OsTokenStore;

/// The keyring service under which the refresh token is stored.
pub open spec fn keyring_service() -> Seq<char> {
    "d6e-cli-refresh-token"@
}

/// The keyring entry (service, account) for the D6E Auth origin `auth_url`: one credential per
/// origin, so that signing in again replaces that origin's credential.
pub fn keyring_entry(auth_url: &UrlParts) -> (r: (String, String))
    ensures
        r.0@ == keyring_service(),
        r.1@ == auth_url.origin@,
{
    (String::from_str("d6e-cli-refresh-token"), auth_url.origin.clone())
}

} // verus!
