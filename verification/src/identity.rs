//! Identity resolution: the decision steps that turn an opaque access token
//! into an account identity through two chained backend calls.
//!
//! The caller performs the calls; these functions build each request and
//! decide from each reply whether to continue. An absent account id or an
//! absent account record means "not authenticated", which is a legitimate
//! outcome, distinct from a transport failure (which the caller surfaces
//! itself and never hands to these functions).

use vstd::prelude::*;
use crate::messages::{GetAccount, ValidateAccountAccessToken};

verus! {

/// First step: the token-validation request for the given token.
pub fn validate_token_request(token: &str) -> (r: ValidateAccountAccessToken)
    ensures
        r.token@ == token@,
{
    ValidateAccountAccessToken { token: token.to_owned() }
}

/// Second step: from the validation reply's optional account id, either
/// stop (no account is associated with the token) or build the
/// account-lookup request for that id.
pub fn lookup_request_for(account_id: Option<String>) -> (r: Option<GetAccount>)
    ensures
        account_id is None ==> r is None,
        account_id is Some ==> r == Some(GetAccount { account_id }),
{
    match account_id {
        None => None,
        Some(id) => Some(GetAccount { account_id: Some(id) }),
    }
}

} // verus!
