//! The aggregation operation: list the linked platform accounts of one
//! identity, fetch usage statistics for the whole key set in one batched
//! call, and fold the statistics into one view per account.
//!
//! Correlation is by exact key equality only: a statistic record joins an
//! account view exactly when its key equals the account's key. Unmatched
//! records are dropped; accounts with no matching record keep zero totals
//! and an empty breakdown. Playtime arrives in ticks and is converted to
//! whole seconds (twenty ticks per second, truncating toward zero); absent
//! counters count as zero.

use vstd::prelude::*;
use crate::messages::{GetStats, ListMinecraftAccountsRequest};
use crate::model::{Account, MinecraftAccount, ResponseAccount, ResponseAccountServer, Stats};

verus! {

/// What the aggregation operation decided before any backend call.
pub enum ListDecision {
    /// The token resolved to no account.
    NotFound,
    /// The identity has no legacy identifier: the view list is empty and
    /// no backend call is made, not even the statistics call.
    NoBackend,
    /// The one request that lists the identity's linked accounts.
    Backend(ListMinecraftAccountsRequest),
}

/// An absent counter counts as zero.
pub open spec fn opt_count(o: Option<i32>) -> int {
    match o {
        Some(v) => v as int,
        None => 0,
    }
}

/// Ticks to whole seconds, truncating toward zero, as the gateway reports
/// playtime.
pub open spec fn ticks_to_secs(t: int) -> int {
    if t >= 0 {
        t / 20
    } else {
        -((-t) / 20)
    }
}

/// The statistic records whose key equals `key`, in their original order.
pub open spec fn matching_stats(stats: Seq<Stats>, key: Seq<char>) -> Seq<Stats>
    decreases stats.len(),
{
    if stats.len() == 0 {
        Seq::empty()
    } else {
        let rest = matching_stats(stats.drop_last(), key);
        if stats.last().minecraft_uuid@ == key {
            rest.push(stats.last())
        } else {
            rest
        }
    }
}

/// Total playtime, in seconds, over a sequence of statistic records.
pub open spec fn sum_secs(stats: Seq<Stats>) -> int
    decreases stats.len(),
{
    if stats.len() == 0 {
        0
    } else {
        sum_secs(stats.drop_last()) + ticks_to_secs(opt_count(stats.last().playtime))
    }
}

/// Total event count over a sequence of statistic records.
pub open spec fn sum_deaths(stats: Seq<Stats>) -> int
    decreases stats.len(),
{
    if stats.len() == 0 {
        0
    } else {
        sum_deaths(stats.drop_last()) + opt_count(stats.last().deaths)
    }
}

/// One breakdown entry carries one record's server label and converted
/// values.
pub open spec fn entry_matches(s: Stats, e: ResponseAccountServer) -> bool {
    &&& e.name@ == s.server@
    &&& e.playtime_sec as int == ticks_to_secs(opt_count(s.playtime))
    &&& e.deaths as int == opt_count(s.deaths)
}

/// The breakdown lists one entry per matching record, in order.
pub open spec fn breakdown_matches(ms: Seq<Stats>, es: Seq<ResponseAccountServer>) -> bool {
    &&& es.len() == ms.len()
    &&& forall|j: int| 0 <= j < ms.len() ==> entry_matches(ms[j], #[trigger] es[j])
}

/// The aggregated view of one account against one batch of statistics:
/// the account's own fields, a breakdown of exactly the matching records,
/// and totals that are the sums over those records.
pub open spec fn view_matches(acc: MinecraftAccount, stats: Seq<Stats>, v: ResponseAccount) -> bool {
    let ms = matching_stats(stats, acc.minecraft_uuid@);
    &&& v.username@ == acc.minecraft_username@
    &&& v.uuid@ == acc.minecraft_uuid@
    &&& breakdown_matches(ms, v.servers@)
    &&& v.playtime_sec as int == sum_secs(ms)
    &&& v.deaths as int == sum_deaths(ms)
}

pub open spec fn in_i32(x: int) -> bool {
    i32::MIN <= x <= i32::MAX
}

/// Every running total over a prefix of these records stays within the
/// counter type; the machine limit under which the fold is defined.
pub open spec fn prefix_totals_fit(ms: Seq<Stats>) -> bool {
    forall|k: int| 0 <= k <= ms.len() ==> in_i32(sum_secs(#[trigger] ms.take(k))) && in_i32(
        sum_deaths(ms.take(k)),
    )
}

/// The machine limit for a whole batch: the running totals of every
/// account's matching records fit the counter type.
pub open spec fn totals_fit(accounts: Seq<MinecraftAccount>, stats: Seq<Stats>) -> bool {
    forall|i: int| 0 <= i < accounts.len() ==> prefix_totals_fit(
        matching_stats(stats, (#[trigger] accounts[i]).minecraft_uuid@),
    )
}

/// Scanning one more record extends the matching records by that record
/// exactly when its key matches.
proof fn lemma_matching_take_step(stats: Seq<Stats>, key: Seq<char>, j: int)
    requires
        0 <= j < stats.len(),
    ensures
        matching_stats(stats.take(j + 1), key) == (if stats[j].minecraft_uuid@ == key {
            matching_stats(stats.take(j), key).push(stats[j])
        } else {
            matching_stats(stats.take(j), key)
        }),
{
    assert(stats.take(j + 1).drop_last() =~= stats.take(j));
    assert(stats.take(j + 1).last() == stats[j]);
}

/// Appending a record adds its values to both sums.
proof fn lemma_sum_push(ms: Seq<Stats>, s: Stats)
    ensures
        sum_secs(ms.push(s)) == sum_secs(ms) + ticks_to_secs(opt_count(s.playtime)),
        sum_deaths(ms.push(s)) == sum_deaths(ms) + opt_count(s.deaths),
{
    assert(ms.push(s).drop_last() =~= ms);
    assert(ms.push(s).last() == s);
}

/// The records matched within a prefix of the batch are a prefix of the
/// records matched within the whole batch.
proof fn lemma_matching_take_prefix(stats: Seq<Stats>, key: Seq<char>, j: int)
    requires
        0 <= j <= stats.len(),
    ensures
        ({
            let pre = matching_stats(stats.take(j), key);
            let all = matching_stats(stats, key);
            pre.len() <= all.len() && pre == all.take(pre.len() as int)
        }),
    decreases stats.len() - j,
{
    let pre = matching_stats(stats.take(j), key);
    let all = matching_stats(stats, key);
    if j == stats.len() {
        assert(stats.take(j) =~= stats);
        assert(pre =~= all.take(pre.len() as int));
    } else {
        lemma_matching_take_prefix(stats, key, j + 1);
        lemma_matching_take_step(stats, key, j);
        let next = matching_stats(stats.take(j + 1), key);
        if stats[j].minecraft_uuid@ == key {
            assert(next == pre.push(stats[j]));
            assert(next == all.take(next.len() as int));
            assert(pre =~= all.take(pre.len() as int)) by {
                assert forall|i: int| 0 <= i < pre.len() implies pre[i] == all.take(
                    pre.len() as int,
                )[i] by {
                    assert(pre[i] == next[i]);
                    assert(next[i] == all.take(next.len() as int)[i]);
                }
            }
        }
    }
}

/// Total playtime, in seconds, over breakdown entries.
pub open spec fn sum_entry_secs(es: Seq<ResponseAccountServer>) -> int
    decreases es.len(),
{
    if es.len() == 0 {
        0
    } else {
        sum_entry_secs(es.drop_last()) + es.last().playtime_sec as int
    }
}

/// Total event count over breakdown entries.
pub open spec fn sum_entry_deaths(es: Seq<ResponseAccountServer>) -> int
    decreases es.len(),
{
    if es.len() == 0 {
        0
    } else {
        sum_entry_deaths(es.drop_last()) + es.last().deaths as int
    }
}

proof fn lemma_breakdown_sums(ms: Seq<Stats>, es: Seq<ResponseAccountServer>)
    requires
        breakdown_matches(ms, es),
    ensures
        sum_entry_secs(es) == sum_secs(ms),
        sum_entry_deaths(es) == sum_deaths(ms),
    decreases ms.len(),
{
    if ms.len() > 0 {
        assert(breakdown_matches(ms.drop_last(), es.drop_last())) by {
            assert forall|j: int| 0 <= j < ms.drop_last().len() implies entry_matches(
                ms.drop_last()[j],
                #[trigger] es.drop_last()[j],
            ) by {
                assert(ms.drop_last()[j] == ms[j]);
                assert(es.drop_last()[j] == es[j]);
            }
        }
        lemma_breakdown_sums(ms.drop_last(), es.drop_last());
        assert(entry_matches(ms[ms.len() - 1], es[ms.len() - 1]));
    }
}

/// Law: in every aggregated view, the totals equal the sums over the
/// breakdown entries themselves.
pub proof fn lemma_totals_match_breakdown(acc: MinecraftAccount, stats: Seq<Stats>, v: ResponseAccount)
    requires
        view_matches(acc, stats, v),
    ensures
        v.playtime_sec as int == sum_entry_secs(v.servers@),
        v.deaths as int == sum_entry_deaths(v.servers@),
{
    lemma_breakdown_sums(matching_stats(stats, acc.minecraft_uuid@), v.servers@);
}

/// Law: every record in an account's matching set carries that account's
/// key, so a record with any other key backs no breakdown entry.
pub proof fn lemma_matching_all_match(stats: Seq<Stats>, key: Seq<char>)
    ensures
        forall|j: int| 0 <= j < matching_stats(stats, key).len() ==> (#[trigger] matching_stats(
            stats,
            key,
        )[j]).minecraft_uuid@ == key,
    decreases stats.len(),
{
    if stats.len() > 0 {
        lemma_matching_all_match(stats.drop_last(), key);
    }
}

proof fn lemma_matching_insert_unmatched(stats: Seq<Stats>, key: Seq<char>, extra: Stats, k: int)
    requires
        0 <= k <= stats.len(),
        extra.minecraft_uuid@ != key,
    ensures
        matching_stats(stats.insert(k, extra), key) == matching_stats(stats, key),
    decreases stats.len(),
{
    let ins = stats.insert(k, extra);
    if k == stats.len() {
        assert(ins.drop_last() =~= stats);
        assert(ins.last() == extra);
    } else {
        assert(ins.last() == stats.last());
        assert(ins.drop_last() =~= stats.drop_last().insert(k, extra));
        lemma_matching_insert_unmatched(stats.drop_last(), key, extra, k);
    }
}

/// Law: a statistic record whose key differs from an account's key leaves
/// that account's view relation unchanged, wherever the record stands in
/// the batch — so a record matching no listed account affects no view.
pub proof fn lemma_unmatched_stat_ignored(
    acc: MinecraftAccount,
    stats: Seq<Stats>,
    extra: Stats,
    k: int,
    v: ResponseAccount,
)
    requires
        0 <= k <= stats.len(),
        extra.minecraft_uuid@ != acc.minecraft_uuid@,
    ensures
        view_matches(acc, stats.insert(k, extra), v) == view_matches(acc, stats, v),
{
    lemma_matching_insert_unmatched(stats, acc.minecraft_uuid@, extra, k);
}

/// Decides the aggregation operation for a resolved identity: not-found
/// when the token resolved to no account; an empty view list, with no
/// backend call at all, without a legacy identifier; otherwise the one
/// request that lists the linked accounts.
pub fn list_decision(resolved: &Option<Account>) -> (d: ListDecision)
    ensures
        d is NotFound <==> resolved is None,
        d is NoBackend <==> (resolved matches Some(a) && a.discord_id is None),
        d is Backend <==> (resolved matches Some(a) && a.discord_id is Some),
        d matches ListDecision::Backend(req) ==> req.user_id@ == resolved->0.discord_id->0@,
{
    match resolved {
        None => ListDecision::NotFound,
        Some(account) => {
            match &account.discord_id {
                None => ListDecision::NoBackend,
                Some(discord_id) => ListDecision::Backend(ListMinecraftAccountsRequest {
                    user_id: discord_id.clone(),
                }),
            }
        },
    }
}

/// Builds the one batched statistics request from the whole listed key
/// set: its ids are exactly the accounts' keys, in listing order.
pub fn stats_request(accounts: &Vec<MinecraftAccount>) -> (r: GetStats)
    ensures
        r.minecraft_ids@.len() == accounts@.len(),
        forall|i: int| 0 <= i < accounts@.len() ==> (#[trigger] r.minecraft_ids@[i])@
            == accounts@[i].minecraft_uuid@,
{
    let mut ids: Vec<String> = Vec::new();
    let mut i: usize = 0;
    while i < accounts.len()
        invariant
            0 <= i <= accounts@.len(),
            ids@.len() == i,
            forall|k: int| 0 <= k < i ==> (#[trigger] ids@[k])@ == accounts@[k].minecraft_uuid@,
        decreases accounts@.len() - i,
    {
        ids.push(accounts[i].minecraft_uuid.clone());
        i = i + 1;
    }
    GetStats { minecraft_ids: ids }
}

/// Converts a playtime in ticks to whole seconds, truncating toward zero.
fn secs_of_ticks(t: i32) -> (r: i32)
    ensures
        r as int == ticks_to_secs(t as int),
{
    if t >= 0 {
        ((t as u32) / 20) as i32
    } else {
        let m: u64 = (-(t as i64)) as u64;
        -((m / 20) as i32)
    }
}

/// Builds the aggregated view of one account: scans the batch once and
/// folds every record with this account's key into the breakdown and the
/// running totals.
pub fn view_for_account(account: &MinecraftAccount, stats: &Vec<Stats>) -> (v: ResponseAccount)
    requires
        prefix_totals_fit(matching_stats(stats@, account.minecraft_uuid@)),
    ensures
        view_matches(*account, stats@, v),
{
    let ghost key = account.minecraft_uuid@;
    let ghost all = matching_stats(stats@, key);
    let mut servers: Vec<ResponseAccountServer> = Vec::new();
    let mut playtime_sec: i32 = 0;
    let mut deaths: i32 = 0;
    let mut j: usize = 0;
    while j < stats.len()
        invariant
            0 <= j <= stats@.len(),
            key == account.minecraft_uuid@,
            all == matching_stats(stats@, key),
            prefix_totals_fit(all),
            breakdown_matches(matching_stats(stats@.take(j as int), key), servers@),
            playtime_sec as int == sum_secs(matching_stats(stats@.take(j as int), key)),
            deaths as int == sum_deaths(matching_stats(stats@.take(j as int), key)),
        decreases stats@.len() - j,
    {
        let ghost seen = matching_stats(stats@.take(j as int), key);
        proof {
            lemma_matching_take_step(stats@, key, j as int);
        }
        let record = &stats[j];
        if record.minecraft_uuid.eq(&account.minecraft_uuid) {
            proof {
                lemma_sum_push(seen, stats@[j as int]);
                lemma_matching_take_prefix(stats@, key, j as int + 1);
                let next = matching_stats(stats@.take(j as int + 1), key);
                assert(in_i32(sum_secs(all.take(next.len() as int))));
                assert(in_i32(sum_deaths(all.take(next.len() as int))));
            }
            let secs = secs_of_ticks(record.playtime.unwrap_or(0));
            let d = record.deaths.unwrap_or(0);
            let entry = ResponseAccountServer {
                name: record.server.clone(),
                playtime_sec: secs,
                deaths: d,
            };
            playtime_sec = playtime_sec + secs;
            deaths = deaths + d;
            servers.push(entry);
        }
        j = j + 1;
    }
    proof {
        assert(stats@.take(j as int) =~= stats@);
    }
    ResponseAccount {
        username: account.minecraft_username.clone(),
        uuid: account.minecraft_uuid.clone(),
        playtime_sec,
        deaths,
        servers,
    }
}

/// Builds one aggregated view per listed account, in listing order; an
/// account with no matching record keeps zero totals and an empty
/// breakdown, and a record matching no account joins no view.
pub fn build_views(accounts: &Vec<MinecraftAccount>, stats: &Vec<Stats>) -> (views: Vec<
    ResponseAccount,
>)
    requires
        totals_fit(accounts@, stats@),
    ensures
        views@.len() == accounts@.len(),
        forall|i: int| 0 <= i < accounts@.len() ==> view_matches(
            accounts@[i],
            stats@,
            #[trigger] views@[i],
        ),
{
    let mut views: Vec<ResponseAccount> = Vec::new();
    let mut i: usize = 0;
    while i < accounts.len()
        invariant
            0 <= i <= accounts@.len(),
            totals_fit(accounts@, stats@),
            views@.len() == i,
            forall|k: int| 0 <= k < i ==> view_matches(accounts@[k], stats@, #[trigger] views@[k]),
        decreases accounts@.len() - i,
    {
        let v = view_for_account(&accounts[i], stats);
        views.push(v);
        i = i + 1;
    }
    views
}

/// Decides whether one account's running totals stay within the counter
/// type over the whole batch, with wide arithmetic, so that a caller can
/// establish the machine limit `view_for_account` asks for.
pub fn totals_in_range(account: &MinecraftAccount, stats: &Vec<Stats>) -> (r: bool)
    ensures
        r == prefix_totals_fit(matching_stats(stats@, account.minecraft_uuid@)),
{
    let ghost key = account.minecraft_uuid@;
    let ghost all = matching_stats(stats@, key);
    let mut secs: i64 = 0;
    let mut deaths: i64 = 0;
    let mut j: usize = 0;
    proof {
        assert(stats@.take(0) =~= Seq::<Stats>::empty());
        assert(all.take(0) =~= Seq::<Stats>::empty());
    }
    while j < stats.len()
        invariant
            0 <= j <= stats@.len(),
            key == account.minecraft_uuid@,
            all == matching_stats(stats@, key),
            secs as int == sum_secs(matching_stats(stats@.take(j as int), key)),
            deaths as int == sum_deaths(matching_stats(stats@.take(j as int), key)),
            forall|k: int| 0 <= k <= matching_stats(stats@.take(j as int), key).len()
                ==> in_i32(sum_secs(#[trigger] all.take(k))) && in_i32(sum_deaths(all.take(k))),
        decreases stats@.len() - j,
    {
        let ghost seen = matching_stats(stats@.take(j as int), key);
        proof {
            lemma_matching_take_step(stats@, key, j as int);
            lemma_matching_take_prefix(stats@, key, j as int);
        }
        let record = &stats[j];
        if record.minecraft_uuid.eq(&account.minecraft_uuid) {
            proof {
                lemma_sum_push(seen, stats@[j as int]);
                lemma_matching_take_prefix(stats@, key, j as int + 1);
            }
            let ghost next = matching_stats(stats@.take(j as int + 1), key);
            let term: i64 = secs_of_ticks(record.playtime.unwrap_or(0)) as i64;
            let new_secs: i64 = secs + term;
            let new_deaths: i64 = deaths + (record.deaths.unwrap_or(0) as i64);
            if new_secs > (i32::MAX as i64) || new_secs < (i32::MIN as i64) || new_deaths > (
            i32::MAX as i64) || new_deaths < (i32::MIN as i64) {
                proof {
                    assert(next == all.take(next.len() as int));
                    assert(!in_i32(sum_secs(all.take(next.len() as int))) || !in_i32(
                        sum_deaths(all.take(next.len() as int)),
                    ));
                    assert(!prefix_totals_fit(all));
                }
                return false;
            }
            secs = new_secs;
            deaths = new_deaths;
        }
        j = j + 1;
    }
    proof {
        assert(stats@.take(j as int) =~= stats@);
    }
    true
}

/// Builds the aggregated views after deciding the machine limit itself:
/// returns the views exactly when every account's running totals fit the
/// counter type, and nothing otherwise.
pub fn build_views_checked(accounts: &Vec<MinecraftAccount>, stats: &Vec<Stats>) -> (r: Option<
    Vec<ResponseAccount>,
>)
    ensures
        r is Some <==> totals_fit(accounts@, stats@),
        r matches Some(views) ==> views@.len() == accounts@.len() && forall|i: int|
            0 <= i < accounts@.len() ==> view_matches(accounts@[i], stats@, #[trigger] views@[i]),
{
    let mut i: usize = 0;
    while i < accounts.len()
        invariant
            0 <= i <= accounts@.len(),
            forall|k: int| 0 <= k < i ==> prefix_totals_fit(
                matching_stats(stats@, (#[trigger] accounts@[k]).minecraft_uuid@),
            ),
        decreases accounts@.len() - i,
    {
        if !totals_in_range(&accounts[i], stats) {
            proof {
                assert(!prefix_totals_fit(
                    matching_stats(stats@, accounts@[i as int].minecraft_uuid@),
                ));
                assert(!totals_fit(accounts@, stats@));
            }
            return None;
        }
        i = i + 1;
    }
    Some(build_views(accounts, stats))
}

} // verus!
