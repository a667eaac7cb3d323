//! Session handling: the state of one turtle connection and the registry of
//! all connections.

pub mod actor;
pub mod clock;

use std::collections::HashMap;

use vstd::prelude::*;
use vstd::std_specs::iter::IteratorSpec;

use crate::websockets::actor::DiggingData;
use crate::websockets::clock::{elapsed_exceeds, elapsed_nanos, utc_now, Timestamp};

verus! {

broadcast use vstd::std_specs::hash::group_hash_axioms;

/// Configuration for session timeout and cleanup behavior.
#[derive(Debug, Clone, Copy, PartialEq, Eq, Structural)]
pub struct SessionConfig {
    /// Maximum time in seconds without a keepalive before a session is considered stale
    pub keepalive_timeout_secs: u64,
    /// Interval in seconds between timeout checks
    pub check_interval_secs: u64,
}

impl Default for SessionConfig {
    fn default() -> (c: Self)
        ensures
            c.keepalive_timeout_secs == 120,
            c.check_interval_secs == 30,
    {
        SessionConfig { keepalive_timeout_secs: 120, check_interval_secs: 30 }
    }
}

/// The largest number of seconds a time span can be made of.
pub open spec fn max_span_secs() -> int {
    i64::MAX / 1000
}

/// The timeout in seconds that a configuration stands for: the configured
/// value where it fits in an `i64`, else 120.
pub open spec fn threshold_secs(config: SessionConfig) -> int {
    if config.keepalive_timeout_secs <= i64::MAX {
        config.keepalive_timeout_secs as int
    } else {
        120
    }
}

/// The timeouts that can be made into a time span: at most
/// `i64::MAX / 1000` seconds once read as an `i64`.
pub open spec fn timeout_supported(config: SessionConfig) -> bool {
    threshold_secs(config) <= max_span_secs()
}

/// Whether a session whose keepalive query gave `report` has timed out at
/// instant `now`: a failed query (`None`) counts as timed out, and otherwise
/// more than the threshold must have passed since the last keepalive.
pub open spec fn is_expired(threshold: int, now: Timestamp, report: Option<Timestamp>) -> bool {
    match report {
        None => true,
        Some(last) => elapsed_nanos(now, last) > threshold * 1_000_000_000,
    }
}

/// The sessions that `reports` show as timed out.
pub open spec fn expired_ids(
    threshold: int,
    now: Timestamp,
    reports: Seq<(u128, Option<Timestamp>)>,
) -> Set<u128> {
    Set::new(
        |id: u128|
            exists|i: int|
                0 <= i < reports.len() && #[trigger] reports[i].0 == id && is_expired(
                    threshold,
                    now,
                    reports[i].1,
                ),
    )
}

/// The map of snapshots built from the sessions' replies, in order: each
/// reply that holds a snapshot is entered under its session, a later one
/// replacing an earlier one; a reply without a snapshot is left out.
pub open spec fn replies_map(replies: Seq<(u128, Option<DiggingData>)>) -> Map<u128, DiggingData>
    decreases replies.len(),
{
    if replies.len() == 0 {
        Map::empty()
    } else {
        let earlier = replies_map(replies.drop_last());
        match replies.last().1 {
            Some(d) => earlier.insert(replies.last().0, d),
            None => earlier,
        }
    }
}

/// A session whose keepalive arrived at instant `now` has not timed out at
/// `now`, whatever the configuration.
pub proof fn lemma_fresh_keepalive_is_not_expired(config: SessionConfig, now: Timestamp)
    ensures
        !is_expired(threshold_secs(config), now, Some(now)),
{
}

/// A session that has timed out stays timed out as time goes on.
pub proof fn lemma_expiry_is_monotone(
    threshold: int,
    last: Option<Timestamp>,
    earlier: Timestamp,
    later: Timestamp,
)
    requires
        earlier.total_nanos() <= later.total_nanos(),
        is_expired(threshold, earlier, last),
    ensures
        is_expired(threshold, later, last),
{
}

/// After registering a handle under an id, the registry holds that handle
/// under the id and every other registration as it was.
pub proof fn lemma_register_then_lookup<H>(before: Map<u128, H>, uuid: u128, handle: H, other: u128)
    ensures
        before.insert(uuid, handle).contains_key(uuid),
        before.insert(uuid, handle)[uuid] == handle,
        other != uuid ==> (before.insert(uuid, handle).contains_key(other)
            == before.contains_key(other)),
        other != uuid && before.contains_key(other) ==> before.insert(uuid, handle)[other]
            == before[other],
{
}

/// Disconnecting a session that was registered under a fresh id gives back
/// the registry as it was before the registration, and after a disconnect
/// nothing is registered under the id.
pub proof fn lemma_disconnect_undoes_register<H>(before: Map<u128, H>, uuid: u128, handle: H)
    ensures
        !before.contains_key(uuid) ==> before.insert(uuid, handle).remove(uuid) == before,
        !before.insert(uuid, handle).remove(uuid).contains_key(uuid),
{
    if !before.contains_key(uuid) {
        assert(before.insert(uuid, handle).remove(uuid) =~= before);
    }
}

/// After a sweep no remaining session is reported as timed out, every
/// session not reported as timed out remains with its handle, and sweeping
/// again with the same reports removes nothing more.
pub proof fn lemma_sweep_keeps_exactly_live_sessions<H>(
    before: Map<u128, H>,
    threshold: int,
    now: Timestamp,
    reports: Seq<(u128, Option<Timestamp>)>,
)
    ensures
        ({
            let gone = expired_ids(threshold, now, reports);
            let after = before.remove_keys(gone);
            &&& forall|id: u128| #[trigger] after.contains_key(id) ==> !gone.contains(id)
            &&& forall|id: u128|
                before.contains_key(id) && !gone.contains(id) ==> #[trigger] after.contains_key(id)
                    && after[id] == before[id]
            &&& after.remove_keys(gone) == after
        }),
{
    let gone = expired_ids(threshold, now, reports);
    let after = before.remove_keys(gone);
    assert(after.remove_keys(gone) =~= after);
}

/// Taking one more report into account adds its session to the expired
/// sessions exactly when that report shows it timed out.
proof fn lemma_expired_ids_step(
    threshold: int,
    now: Timestamp,
    reports: Seq<(u128, Option<Timestamp>)>,
    i: int,
)
    requires
        0 <= i < reports.len(),
    ensures
        expired_ids(threshold, now, reports.take(i + 1)) == (if is_expired(
            threshold,
            now,
            reports[i].1,
        ) {
            expired_ids(threshold, now, reports.take(i)).insert(reports[i].0)
        } else {
            expired_ids(threshold, now, reports.take(i))
        }),
{
    let before = expired_ids(threshold, now, reports.take(i));
    let after = expired_ids(threshold, now, reports.take(i + 1));
    assert(reports.take(i + 1)[i] == reports[i]);
    assert forall|x: u128| before.contains(x) implies after.contains(x) by {
        let w = choose|w: int|
            0 <= w < i && #[trigger] reports.take(i)[w].0 == x && is_expired(
                threshold,
                now,
                reports.take(i)[w].1,
            );
        assert(reports.take(i + 1)[w] == reports.take(i)[w]);
    }
    assert forall|x: u128| after.contains(x) && !before.contains(x) implies x == reports[i].0
        && is_expired(threshold, now, reports[i].1) by {
        let w = choose|w: int|
            0 <= w < i + 1 && #[trigger] reports.take(i + 1)[w].0 == x && is_expired(
                threshold,
                now,
                reports.take(i + 1)[w].1,
            );
        if w < i {
            assert(reports.take(i + 1)[w] == reports.take(i)[w]);
        }
    }
    if is_expired(threshold, now, reports[i].1) {
        assert(after.contains(reports[i].0));
        assert(after =~= before.insert(reports[i].0));
    } else {
        assert(after =~= before);
    }
}

/// A session whose keepalive query failed is removed by a sweep.
pub proof fn lemma_unreachable_session_is_swept<H>(
    before: Map<u128, H>,
    threshold: int,
    now: Timestamp,
    reports: Seq<(u128, Option<Timestamp>)>,
    i: int,
)
    requires
        0 <= i < reports.len(),
        reports[i].1 is None,
    ensures
        !before.remove_keys(expired_ids(threshold, now, reports)).contains_key(reports[i].0),
{
    assert(expired_ids(threshold, now, reports).contains(reports[i].0));
}

/// The turtles answered for are exactly the sessions that replied with a
/// snapshot; when every session replies once, each is answered with the
/// snapshot it replied with.
pub proof fn lemma_replies_map_entries(replies: Seq<(u128, Option<DiggingData>)>)
    ensures
        forall|id: u128|
            #[trigger] replies_map(replies).contains_key(id) <==> exists|i: int|
                #![trigger replies[i]] 0 <= i < replies.len() && replies[i].0 == id && replies[i].1 is Some,
        (forall|i: int, j: int|
            0 <= i < j < replies.len() ==> #[trigger] replies[i].0 != #[trigger] replies[j].0)
            ==> forall|i: int|
            0 <= i < replies.len() && (#[trigger] replies[i]).1 is Some ==> replies_map(replies)[replies[i].0]
                == replies[i].1->0,
    decreases replies.len(),
{
    if replies.len() > 0 {
        let rest = replies.drop_last();
        lemma_replies_map_entries(rest);
        let n = replies.len() - 1;
        assert(replies.last() == replies[n]);
        assert forall|i: int| 0 <= i < n implies rest[i] == replies[i] by {}
        assert forall|id: u128|
            #[trigger] replies_map(replies).contains_key(id) <==> exists|i: int|
                #![trigger replies[i]] 0 <= i < replies.len() && replies[i].0 == id && replies[i].1 is Some by {
            if replies_map(replies).contains_key(id) {
                if replies_map(rest).contains_key(id) {
                    let i = choose|i: int|
                        #![trigger rest[i]] 0 <= i < rest.len() && rest[i].0 == id && rest[i].1 is Some;
                    assert(replies[i] == rest[i]);
                } else {
                    assert(replies[n].0 == id && replies[n].1 is Some);
                }
            } else {
                assert(!replies_map(rest).contains_key(id));
                assert(!(replies[n].0 == id && replies[n].1 is Some));
            }
            if exists|i: int| #![trigger replies[i]] 0 <= i < replies.len() && replies[i].0 == id && replies[i].1 is Some {
                let i = choose|i: int|
                    #![trigger replies[i]] 0 <= i < replies.len() && replies[i].0 == id && replies[i].1 is Some;
                if i < n {
                    assert(rest[i] == replies[i]);
                }
            }
        }
        if forall|i: int, j: int|
            0 <= i < j < replies.len() ==> #[trigger] replies[i].0 != #[trigger] replies[j].0 {
            assert forall|i: int, j: int|
                0 <= i < j < rest.len() implies #[trigger] rest[i].0 != #[trigger] rest[j].0 by {
                assert(rest[i] == replies[i] && rest[j] == replies[j]);
            }
            assert forall|i: int|
                0 <= i < replies.len() && (#[trigger] replies[i]).1 is Some implies replies_map(
                    replies,
                )[replies[i].0] == replies[i].1->0 by {
                if i < n {
                    assert(rest[i] == replies[i]);
                    assert(replies[i].0 != replies[n].0);
                }
            }
        }
    }
}

/// The timeout a sweep measures against is the configured number of
/// seconds wherever that fits in an `i64`, and 120 seconds otherwise.
pub proof fn lemma_threshold_is_configured_timeout(config: SessionConfig)
    ensures
        config.keepalive_timeout_secs <= i64::MAX ==> threshold_secs(config)
            == config.keepalive_timeout_secs,
        config.keepalive_timeout_secs > i64::MAX ==> threshold_secs(config) == 120,
{
}

/// With a configured timeout that fits in an `i64`, a sweep removes a
/// registered session whose only report shows more than that many seconds
/// since its last keepalive, and keeps one whose only report shows at most
/// that many.
pub proof fn lemma_sweep_measures_configured_timeout<H>(
    before: Map<u128, H>,
    config: SessionConfig,
    now: Timestamp,
    reports: Seq<(u128, Option<Timestamp>)>,
    i: int,
    last: Timestamp,
)
    requires
        config.keepalive_timeout_secs <= i64::MAX,
        0 <= i < reports.len(),
        reports[i].1 == Some(last),
        before.contains_key(reports[i].0),
        forall|j: int| 0 <= j < reports.len() && j != i ==> #[trigger] reports[j].0 != reports[i].0,
    ensures
        ({
            let after = before.remove_keys(expired_ids(threshold_secs(config), now, reports));
            &&& elapsed_nanos(now, last) > config.keepalive_timeout_secs * 1_000_000_000
                ==> !after.contains_key(reports[i].0)
            &&& elapsed_nanos(now, last) <= config.keepalive_timeout_secs * 1_000_000_000
                ==> after.contains_key(reports[i].0) && after[reports[i].0] == before[reports[i].0]
        }),
{
    let gone = expired_ids(threshold_secs(config), now, reports);
    let id = reports[i].0;
    if elapsed_nanos(now, last) > config.keepalive_timeout_secs * 1_000_000_000 {
        assert(gone.contains(id));
    } else {
        assert(!gone.contains(id)) by {
            if gone.contains(id) {
                let w = choose|w: int|
                    0 <= w < reports.len() && #[trigger] reports[w].0 == id && is_expired(
                        threshold_secs(config),
                        now,
                        reports[w].1,
                    );
                assert(w == i);
            }
        }
    }
}

impl SessionConfig {
    /// The timeout in seconds that this configuration stands for.
    pub fn timeout_threshold_secs(&self) -> (t: i64)
        ensures
            t == threshold_secs(*self),
            self.keepalive_timeout_secs <= i64::MAX ==> t == self.keepalive_timeout_secs,
            self.keepalive_timeout_secs > i64::MAX ==> t == 120,
    {
        if self.keepalive_timeout_secs <= 9_223_372_036_854_775_807u64 {
            self.keepalive_timeout_secs as i64
        } else {
            120
        }
    }
}

/// Central registry of all sessions, keyed by session id; `H` is how a
/// session is reached.
pub struct WebSocketSessionManager<H> {
    /// Map of session id to session handle
    pub sessions: HashMap<u128, H>,
    /// Configuration for session timeouts and cleanup
    pub config: SessionConfig,
}

impl<H> Default for WebSocketSessionManager<H> {
    fn default() -> (m: Self)
        ensures
            m.sessions@ == Map::<u128, H>::empty(),
            m.config.keepalive_timeout_secs == 120,
            m.config.check_interval_secs == 30,
    {
        Self::new()
    }
}

impl<H> WebSocketSessionManager<H> {
    /// An empty registry with the default configuration.
    pub fn new() -> (m: Self)
        ensures
            m.sessions@ == Map::<u128, H>::empty(),
            m.config.keepalive_timeout_secs == 120,
            m.config.check_interval_secs == 30,
    {
        Self::with_config(SessionConfig::default())
    }

    /// An empty registry with the given configuration.
    pub fn with_config(config: SessionConfig) -> (m: Self)
        ensures
            m.sessions@ == Map::<u128, H>::empty(),
            m.config == config,
    {
        WebSocketSessionManager { sessions: HashMap::new(), config }
    }

    /// Registers a session, replacing any session registered under the same id.
    pub fn register(&mut self, uuid: u128, handle: H)
        ensures
            final(self).sessions@ == old(self).sessions@.insert(uuid, handle),
            final(self).config == old(self).config,
    {
        self.sessions.insert(uuid, handle);
    }

    /// Removes a disconnected session; returns its handle, or `None` when no
    /// session was registered under that id.
    pub fn disconnect(&mut self, uuid: u128) -> (removed: Option<H>)
        ensures
            final(self).sessions@ == old(self).sessions@.remove(uuid),
            final(self).config == old(self).config,
            removed is Some <==> old(self).sessions@.contains_key(uuid),
            removed matches Some(h) ==> h == old(self).sessions@[uuid],
    {
        self.sessions.remove(&uuid)
    }

    /// The handle of a registered session.
    pub fn session(&self, uuid: u128) -> (h: Option<&H>)
        ensures
            h is Some <==> self.sessions@.contains_key(uuid),
            h matches Some(h) ==> *h == self.sessions@[uuid],
    {
        self.sessions.get(&uuid)
    }

    /// The number of registered sessions.
    pub fn len(&self) -> (n: usize)
        ensures
            n == self.sessions@.len(),
    {
        self.sessions.len()
    }

    /// The ids of all registered sessions, each once, in no stated order.
    pub fn session_ids(&self) -> (ids: Vec<u128>)
        ensures
            ids@.to_set() == self.sessions@.dom(),
            ids@.no_duplicates(),
    {
        let mut ids: Vec<u128> = Vec::new();
        let ghost keys = vstd::std_specs::hash::spec_keys_iter(&self.sessions).remaining();
        for k in it: self.sessions.keys()
            invariant
                it.seq() == keys,
                ids@ == keys.take(it.index() as int).map_values(|k: &u128| *k),
        {
            ids.push(*k);
            assert(ids@ =~= keys.take(it.index() + 1).map_values(|k: &u128| *k));
        }
        assert(keys.take(keys.len() as int) =~= keys);
        assert(ids@.to_set() =~= self.sessions@.dom()) by {
            assert(ids@ =~= keys.unref());
        }
        ids
    }

    /// Builds the answer to a query of all turtles from the sessions'
    /// replies: each reply that holds a snapshot is entered under its
    /// session; sessions that could not be reached are left out.
    pub fn client_data_from_replies(replies: Vec<(u128, Option<DiggingData>)>) -> (m: HashMap<
        u128,
        DiggingData,
    >)
        ensures
            m@ == replies_map(replies@),
    {
        let ghost all = replies@;
        let mut result: HashMap<u128, DiggingData> = HashMap::new();
        for reply in it: replies.into_iter()
            invariant
                it.seq() == all,
                result@ == replies_map(all.take(it.index() as int)),
        {
            let ghost i = it.index();
            assert(all.take(i + 1).drop_last() =~= all.take(i as int));
            let (uuid, data) = reply;
            match data {
                Some(d) => {
                    result.insert(uuid, d);
                },
                None => {},
            }
        }
        assert(all.take(all.len() as int) =~= all);
        result
    }

    /// Removes the sessions that have timed out at instant `now`, given for
    /// each session the instant of its last keepalive, or `None` where the
    /// session could not be asked. Returns the removed sessions, so that
    /// they can be stopped.
    pub fn check_timed_out_at(
        &mut self,
        now: Timestamp,
        reports: &Vec<(u128, Option<Timestamp>)>,
    ) -> (removed: Vec<(u128, H)>)
        requires
            timeout_supported(old(self).config),
        ensures
            final(self).config == old(self).config,
            final(self).sessions@ == old(self).sessions@.remove_keys(
                expired_ids(threshold_secs(old(self).config), now, reports@),
            ),
            forall|k: int|
                #![trigger removed@[k]]
                0 <= k < removed@.len() ==> {
                    &&& old(self).sessions@.contains_key(removed@[k].0)
                    &&& old(self).sessions@[removed@[k].0] == removed@[k].1
                    &&& expired_ids(threshold_secs(old(self).config), now, reports@).contains(
                        removed@[k].0,
                    )
                },
            forall|id: u128|
                #![trigger old(self).sessions@.contains_key(id)]
                old(self).sessions@.contains_key(id) && expired_ids(
                    threshold_secs(old(self).config),
                    now,
                    reports@,
                ).contains(id) ==> exists|k: int|
                    0 <= k < removed@.len() && #[trigger] removed@[k].0 == id,
            forall|j: int, k: int|
                0 <= j < k < removed@.len() ==> #[trigger] removed@[j].0 != #[trigger] removed@[k].0,
    {
        let threshold = self.config.timeout_threshold_secs();
        let ghost t = threshold as int;
        let ghost start = self.sessions@;
        let ghost all = reports@;
        let mut removed: Vec<(u128, H)> = Vec::new();
        let mut i: usize = 0;
        while i < reports.len()
            invariant
                i <= reports.len(),
                all == reports@,
                t == threshold_secs(old(self).config),
                t == threshold,
                start == old(self).sessions@,
                self.config == old(self).config,
                self.sessions@ == start.remove_keys(expired_ids(t, now, all.take(i as int))),
                forall|k: int|
                    #![trigger removed@[k]]
                    0 <= k < removed@.len() ==> {
                        &&& start.contains_key(removed@[k].0)
                        &&& start[removed@[k].0] == removed@[k].1
                        &&& expired_ids(t, now, all.take(i as int)).contains(removed@[k].0)
                    },
                forall|id: u128|
                    #![trigger start.contains_key(id)]
                    start.contains_key(id) && expired_ids(t, now, all.take(i as int)).contains(id)
                        ==> exists|k: int| 0 <= k < removed@.len() && #[trigger] removed@[k].0 == id,
                forall|j: int, k: int|
                    0 <= j < k < removed@.len() ==> #[trigger] removed@[j].0
                        != #[trigger] removed@[k].0,
            decreases reports.len() - i,
        {
            let (uuid, report) = reports[i];
            let expired = match report {
                None => true,
                Some(last) => elapsed_exceeds(now, last, threshold),
            };
            let ghost before = expired_ids(t, now, all.take(i as int));
            let ghost after = expired_ids(t, now, all.take(i + 1));
            proof {
                lemma_expired_ids_step(t, now, all, i as int);
            }
            assert(is_expired(t, now, report) == expired);
            if expired {
                let gone = self.sessions.remove(&uuid);
                assert(self.sessions@ =~= start.remove_keys(after));
                match gone {
                    Some(h) => {
                        assert(!before.contains(uuid));
                        let ghost earlier = removed@;
                        removed.push((uuid, h));
                        assert(removed@[removed@.len() - 1].0 == uuid);
                        assert forall|id: u128|
                            start.contains_key(id) && after.contains(id) implies exists|k: int|
                                0 <= k < removed@.len() && #[trigger] removed@[k].0 == id by {
                            if id == uuid {
                                assert(removed@[removed@.len() - 1].0 == id);
                            } else {
                                assert(before.contains(id));
                                assert(start.contains_key(id));
                                let k = choose|k: int|
                                    0 <= k < earlier.len() && #[trigger] earlier[k].0 == id;
                                assert(removed@[k] == earlier[k]);
                            }
                        }
                    },
                    None => {},
                }
            }
            i = i + 1;
        }
        assert(all.take(all.len() as int) =~= all);
        removed
    }

    /// Removes the sessions that have timed out by now; see
    /// `check_timed_out_at`, of which this is the call at the current time.
    pub fn check_timed_out(&mut self, reports: &Vec<(u128, Option<Timestamp>)>) -> (removed: Vec<
        (u128, H),
    >)
        requires
            timeout_supported(old(self).config),
        ensures
            final(self).config == old(self).config,
            exists|now: Timestamp|
                #![trigger expired_ids(threshold_secs(old(self).config), now, reports@)]
                now.wf() && now.secs >= 0 && {
                    let gone = expired_ids(threshold_secs(old(self).config), now, reports@);
                    &&& final(self).sessions@ == old(self).sessions@.remove_keys(gone)
                    &&& forall|k: int|
                        #![trigger removed@[k]]
                        0 <= k < removed@.len() ==> {
                            &&& old(self).sessions@.contains_key(removed@[k].0)
                            &&& old(self).sessions@[removed@[k].0] == removed@[k].1
                            &&& gone.contains(removed@[k].0)
                        }
                    &&& forall|id: u128|
                        #![trigger old(self).sessions@.contains_key(id)]
                        old(self).sessions@.contains_key(id) && gone.contains(id) ==> exists|k: int|
                            0 <= k < removed@.len() && #[trigger] removed@[k].0 == id
                },
            forall|j: int, k: int|
                0 <= j < k < removed@.len() ==> #[trigger] removed@[j].0 != #[trigger] removed@[k].0,
    {
        let now = utc_now();
        self.check_timed_out_at(now, reports)
    }
}

} // verus!
