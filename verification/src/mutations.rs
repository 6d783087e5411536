//! Add and remove operations on linked platform accounts.
//!
//! Each operation validates its client input first, through a precheck the
//! caller runs before any backend call, token resolution included. The
//! decision over the resolved identity then either skips the backend when
//! the identity carries no legacy identifier (a no-op success, not an
//! error) or builds the one backend request the operation needs. The
//! caller performs the call and passes the backend's embedded error
//! message through verbatim.

use vstd::prelude::*;
use crate::messages::{AddMinecraftAccountRequest, RemoveMinecraftAccountRequest};
use crate::model::Account;

verus! {

/// What the add operation decided before any account-management call.
pub enum AddDecision {
    /// The token resolved to no account.
    NotFound,
    /// The identity has no legacy identifier: a no-op success.
    NoBackend,
    /// The one request to send to the account-management service.
    Backend(AddMinecraftAccountRequest),
}

/// What the remove operation decided before any account-management call.
pub enum RemoveDecision {
    /// The token resolved to no account.
    NotFound,
    /// The identity has no legacy identifier: a no-op success.
    NoBackend,
    /// The one request to send to the account-management service.
    Backend(RemoveMinecraftAccountRequest),
}

/// Whether a string is a well-formed UUID, exactly as the parser of the
/// `uuid` crate accepts it.
pub uninterp spec fn uuid_parses(s: Seq<char>) -> bool;

/// Relies on uuid::Uuid::parse_str: accepts hexadecimal digits with
/// optional hyphens (simple, hyphenated, urn and GUID forms); whether it
/// accepts depends on the characters alone.
#[verifier::external_body]
fn parse_uuid_ok(s: &str) -> (r: bool)
    ensures
        r == uuid_parses(s@),
{
    uuid::Uuid::parse_str(s).is_ok()
}

/// Validates the add operation's username argument before anything else:
/// an empty platform username is rejected with a message, and the caller
/// makes no backend call at all, not even token resolution.
pub fn add_precheck(minecraft_name: &str) -> (r: Option<String>)
    ensures
        r is None <==> minecraft_name@.len() > 0,
        r matches Some(m) ==> m@ == "Minecraft account name empty"@,
{
    if minecraft_name.is_empty() {
        Some("Minecraft account name empty".to_owned())
    } else {
        None
    }
}

/// Validates the remove operation's key argument before anything else:
/// a malformed key is rejected with a message, and the caller makes no
/// backend call at all, not even token resolution.
pub fn remove_precheck(minecraft_uuid: &str) -> (r: Option<String>)
    ensures
        r is None <==> uuid_parses(minecraft_uuid@),
        r matches Some(m) ==> m@ == "Could not parse UUID"@,
{
    if parse_uuid_ok(minecraft_uuid) {
        None
    } else {
        Some("Could not parse UUID".to_owned())
    }
}

/// Decides the add operation for a resolved identity and a username that
/// already passed `add_precheck`: not-found when the token resolved to no
/// account; a no-op without a legacy identifier; otherwise exactly one add
/// request, keyed on the legacy identifier.
pub fn add_decision(resolved: &Option<Account>, minecraft_name: &str, minecraft_uuid: &Option<String>) -> (d: AddDecision)
    ensures
        d is NotFound <==> resolved is None,
        d is NoBackend <==> (resolved matches Some(a) && a.discord_id is None),
        d is Backend <==> (resolved matches Some(a) && a.discord_id is Some),
        d matches AddDecision::Backend(req) ==> {
            let a = resolved->0;
            &&& req.user_id == Some(a.id)
            &&& req.deprecated_discord_id == a.discord_id
            &&& req.minecraft_uuid == *minecraft_uuid
            &&& req.minecraft_username@ == minecraft_name@
            &&& req.first_name@ == (if a.first_name is Some {
                a.first_name->0@
            } else {
                Seq::<char>::empty()
            })
        },
{
    match resolved {
        None => AddDecision::NotFound,
        Some(account) => {
            if account.discord_id.is_none() {
                AddDecision::NoBackend
            } else {
                let first_name = match &account.first_name {
                    Some(n) => n.clone(),
                    None => String::new(),
                };
                AddDecision::Backend(AddMinecraftAccountRequest {
                    user_id: Some(account.id.clone()),
                    deprecated_discord_id: account.discord_id.clone(),
                    minecraft_uuid: minecraft_uuid.clone(),
                    minecraft_username: minecraft_name.to_owned(),
                    first_name,
                })
            }
        },
    }
}

/// Decides the remove operation for a resolved identity and a key that
/// already passed `remove_precheck`: not-found when the token resolved to
/// no account; a no-op without a legacy identifier; otherwise exactly one
/// remove request, keyed on the legacy identifier.
pub fn remove_decision(resolved: &Option<Account>, minecraft_uuid: &str) -> (d: RemoveDecision)
    ensures
        d is NotFound <==> resolved is None,
        d is NoBackend <==> (resolved matches Some(a) && a.discord_id is None),
        d is Backend <==> (resolved matches Some(a) && a.discord_id is Some),
        d matches RemoveDecision::Backend(req) ==> {
            let a = resolved->0;
            &&& req.user_id@ == a.discord_id->0@
            &&& req.minecraft_uuid matches Some(u) && u@ == minecraft_uuid@
        },
{
    match resolved {
        None => RemoveDecision::NotFound,
        Some(account) => {
            match &account.discord_id {
                None => RemoveDecision::NoBackend,
                Some(discord_id) => RemoveDecision::Backend(RemoveMinecraftAccountRequest {
                    user_id: discord_id.clone(),
                    minecraft_uuid: Some(minecraft_uuid.to_owned()),
                }),
            }
        },
    }
}

} // verus!
