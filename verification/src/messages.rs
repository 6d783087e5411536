//! Structured request messages the gateway sends to the backend services.
//!
//! The bus transport and the wire encoding live outside this crate; here a
//! message is a plain struct with named fields, built by a verified decision
//! function and handed to the caller to encode and send.

use vstd::prelude::*;

verus! {

/// Token-validation request: resolves an opaque access token to an
/// optional account id.
pub struct ValidateAccountAccessToken {
    pub token: String,
}

/// Account-lookup request: fetches the account record for a resolved id.
pub struct GetAccount {
    pub account_id: Option<String>,
}

/// Lists the linked platform accounts of one identity, keyed by the
/// legacy identifier.
pub struct ListMinecraftAccountsRequest {
    pub user_id: String,
}

/// Adds one linked platform account. The backend keys on the legacy
/// identifier, which is carried alongside the internal account id.
pub struct AddMinecraftAccountRequest {
    pub user_id: Option<String>,
    pub deprecated_discord_id: Option<String>,
    pub minecraft_uuid: Option<String>,
    pub minecraft_username: String,
    pub first_name: String,
}

/// Removes one linked platform account, keyed by the legacy identifier.
pub struct RemoveMinecraftAccountRequest {
    pub user_id: String,
    pub minecraft_uuid: Option<String>,
}

/// Batched statistics request: one call for the whole set of platform
/// account keys.
pub struct GetStats {
    pub minecraft_ids: Vec<String>,
}

} // verus!
