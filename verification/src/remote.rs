//! Keeper data as the upstream authority serves it: the record type, one
//! fetched snapshot, the request URL, and how a completed fetch attempt is
//! applied to the local registry.

use vstd::prelude::*;
use vstd::string::StringExecFns;

use crate::registry::Registry;

verus! {

broadcast use vstd::std_specs::hash::group_hash_axioms;

/// One known keeper, as reported by the upstream authority.
#[derive(Debug, Clone)]
pub struct Keeper {
    /// Display name of the keeper on the upstream forum.
    pub username: String,
}

/// The full mapping from keeper id (a forum topic id) to keeper record.
pub type Keepers = std::collections::HashMap<u32, Keeper>;

/// One complete set of keeper records returned by a single fetch, together
/// with the timestamp the upstream reported for it (seconds since the Unix
/// epoch; used only for logging, never for staleness decisions).
pub struct KeeperSnapshot {
    /// Upstream-reported time of the snapshot, in Unix seconds.
    pub fetched_at: i64,
    /// The records of the snapshot, keyed by keeper id.
    pub records: Keepers,
}

/// Why a fetch attempt produced no snapshot. The two causes are kept apart:
/// a transport failure never even reached a body, a decode failure did.
#[derive(Debug)]
pub enum FetchError {
    /// The request could not be sent or no response arrived (DNS, connect,
    /// timeout). The payload is a diagnostic message.
    Transport(String),
    /// A response arrived but its body was not a well-formed keeper snapshot.
    /// The payload is a diagnostic message.
    Decode(String),
}

/// Path, relative to the upstream base URL, that serves the keeper snapshot.
pub open spec fn spec_keepers_path() -> Seq<char> {
    "/static/keepers_user_data"@
}

/// The exact URL a fetch must request for the given base URL.
pub open spec fn spec_keepers_url(api_base: Seq<char>) -> Seq<char> {
    api_base + spec_keepers_path()
}

/// Builds the URL of the upstream keeper snapshot: the configured base
/// followed by the fixed path.
pub fn keepers_url(api_base: &str) -> (url: String)
    ensures
        url@ == spec_keepers_url(api_base@),
{
    let mut url = api_base.to_owned();
    url.append("/static/keepers_user_data");
    url
}

/// The mapping that a sequence of `(id, username)` entries denotes: entries
/// are taken in order, a later entry for an id replacing an earlier one.
pub open spec fn map_of_entries(entries: Seq<(u32, String)>) -> Map<u32, Keeper>
    decreases entries.len(),
{
    if entries.len() == 0 {
        Map::empty()
    } else {
        map_of_entries(entries.drop_last()).insert(
            entries.last().0,
            Keeper { username: entries.last().1 },
        )
    }
}

impl KeeperSnapshot {
    /// Assembles a snapshot from the decoded upstream fields: the reported
    /// timestamp and the listed `(id, username)` entries.
    pub fn from_entries(fetched_at: i64, entries: Vec<(u32, String)>) -> (snapshot: KeeperSnapshot)
        ensures
            snapshot.fetched_at == fetched_at,
            snapshot.records@ == map_of_entries(entries@),
    {
        let mut records: Keepers = std::collections::HashMap::new();
        let n = entries.len();
        for i in 0..n
            invariant
                n == entries.len(),
                records@ == map_of_entries(entries@.take(i as int)),
        {
            let (id, username) = (entries[i].0, entries[i].1.clone());
            records.insert(id, Keeper { username });
            proof {
                assert(entries@.take(i + 1).drop_last() =~= entries@.take(i as int));
                assert(entries@.take(i + 1).last() == entries@[i as int]);
            }
        }
        proof {
            assert(entries@.take(n as int) =~= entries@);
        }
        KeeperSnapshot { fetched_at, records }
    }

    /// How many keepers the snapshot holds.
    pub fn record_count(&self) -> (n: usize)
        ensures
            n == self.records@.len(),
    {
        self.records.len()
    }
}

/// Applies one completed fetch attempt to the registry: a successful fetch
/// replaces the contents with exactly the fetched records, a failed fetch
/// leaves the registry untouched, keeping the last known-good data.
pub fn refresh_keepers(registry: &mut Registry, outcome: Result<KeeperSnapshot, FetchError>)
    ensures
        match outcome {
            Ok(snapshot) => final(registry)@ == snapshot.records@,
            Err(_) => final(registry)@ == old(registry)@,
        },
{
    match outcome {
        Ok(snapshot) => registry.replace(snapshot.records),
        Err(_) => (),
    }
}

} // verus!
