//! Data model: the account identity, the linked platform accounts, the raw
//! usage-statistic records the statistics service returns, and the
//! aggregated per-account view the gateway builds from them.

use vstd::prelude::*;

verus! {

/// A resolved account identity. `discord_id` is the optional legacy
/// identifier: the account-management backend keys on it, so operations on
/// accounts without one are no-ops.
pub struct Account {
    pub id: String,
    pub discord_id: Option<String>,
    pub first_name: Option<String>,
}

/// One linked platform account. `minecraft_uuid` is the key that joins
/// usage statistics to this account.
pub struct MinecraftAccount {
    pub minecraft_username: String,
    pub minecraft_uuid: String,
}

/// One raw usage-statistic record: one platform account on one server.
/// `playtime` is in ticks; absent counters are treated as zero.
pub struct Stats {
    pub minecraft_uuid: String,
    pub server: String,
    pub playtime: Option<i32>,
    pub deaths: Option<i32>,
}

/// One server's share of an aggregated view, in seconds.
pub struct ResponseAccountServer {
    pub name: String,
    pub playtime_sec: i32,
    pub deaths: i32,
}

/// The aggregated view of one linked platform account: per-server
/// breakdown plus totals summed across the breakdown.
pub struct ResponseAccount {
    pub username: String,
    pub uuid: String,
    pub playtime_sec: i32,
    pub deaths: i32,
    pub servers: Vec<ResponseAccountServer>,
}

} // verus!
