//! The tiered message store: an in-process map that is always there, and the
//! connection policy of the optional networked cache and durable log.
//!
//! The network round trips themselves are made by the caller; this module
//! decides what is written where, and when a backend is given up.

use vstd::prelude::*;
use vstd::string::StringExecFns;
use crate::record::MessageRecord;
use crate::text::same_text;

verus! {

pub const DEFAULT_RECONNECT_MAX_ATTEMPTS: u32 = 3;

pub const DEFAULT_RECONNECT_INTERVAL_SECS: u64 = 60;

/// Settings of one backend; no URL means the backend is not used.
#[derive(Debug, Clone, PartialEq, Eq)]
pub struct StoreConfig {
    pub connection_url: Option<String>,
    pub reconnect_max_attempts: Option<u32>,
    pub reconnect_interval_secs: Option<u64>,
}

impl StoreConfig {
    /// A configuration that leaves the backend off.
    pub fn disabled() -> (r: StoreConfig)
        ensures
            r.connection_url is None,
            r.reconnect_max_attempts is None,
            r.reconnect_interval_secs is None,
    {
        StoreConfig { connection_url: None, reconnect_max_attempts: None, reconnect_interval_secs: None }
    }
}

#[derive(Debug, Clone, Copy, PartialEq, Eq, Structural)]
pub enum LinkState {
    /// No URL was configured.
    Unconfigured,
    /// Configured, and a connection attempt is due or in progress.
    Pending,
    Connected,
    /// Attempts are exhausted; the backend stays off for the rest of the process.
    GaveUp,
}

/// What the caller does after a connection attempt.
#[derive(Debug, Clone, Copy, PartialEq, Eq, Structural)]
pub enum LinkAction {
    /// Use the connection.
    Proceed,
    /// Sleep this many seconds, then try again.
    RetryAfter(u64),
    /// Stop trying; fall back to the remaining tiers.
    GiveUp,
}

/// Reconnect policy of one backend.
#[derive(Debug, Clone, Copy, PartialEq, Eq, Structural)]
pub struct BackendLink {
    pub state: LinkState,
    pub max_attempts: u32,
    pub interval_secs: u64,
    /// Failed attempts since the last success.
    pub failures: u32,
}

/// The link and action after one connection attempt that succeeded (`ok`) or failed.
pub open spec fn link_step(l: BackendLink, ok: bool) -> (BackendLink, LinkAction) {
    match l.state {
        LinkState::Unconfigured => (l, LinkAction::GiveUp),
        LinkState::GaveUp => (l, LinkAction::GiveUp),
        _ => if ok {
            (BackendLink { state: LinkState::Connected, failures: 0, ..l }, LinkAction::Proceed)
        } else if l.failures < l.max_attempts {
            (
                BackendLink { state: LinkState::Pending, failures: (l.failures + 1) as u32, ..l },
                LinkAction::RetryAfter(l.interval_secs),
            )
        } else {
            (BackendLink { state: LinkState::GaveUp, ..l }, LinkAction::GiveUp)
        },
    }
}

/// The link after `k` failed attempts in a row.
pub open spec fn after_failures(l: BackendLink, k: nat) -> BackendLink
    decreases k,
{
    if k == 0 {
        l
    } else {
        link_step(after_failures(l, (k - 1) as nat), false).0
    }
}

/// The policy of a fresh backend configured by `cfg`, with defaults for unset knobs.
pub open spec fn link_for(cfg: StoreConfig) -> BackendLink {
    BackendLink {
        state: if cfg.connection_url is Some {
            LinkState::Pending
        } else {
            LinkState::Unconfigured
        },
        max_attempts: match cfg.reconnect_max_attempts {
            Some(m) => m,
            None => DEFAULT_RECONNECT_MAX_ATTEMPTS,
        },
        interval_secs: match cfg.reconnect_interval_secs {
            Some(s) => s,
            None => DEFAULT_RECONNECT_INTERVAL_SECS,
        },
        failures: 0,
    }
}

impl BackendLink {
    pub open spec fn wf(&self) -> bool {
        self.failures <= self.max_attempts
    }

    pub open spec fn usable(&self) -> bool {
        self.state == LinkState::Pending || self.state == LinkState::Connected
    }

    /// The policy for a backend configured by `cfg`, with defaults for unset knobs.
    pub fn new(cfg: &StoreConfig) -> (r: BackendLink)
        ensures
            r.wf(),
            r == link_for(*cfg),
    {
        let max_attempts = match cfg.reconnect_max_attempts {
            Some(m) => m,
            None => DEFAULT_RECONNECT_MAX_ATTEMPTS,
        };
        let interval_secs = match cfg.reconnect_interval_secs {
            Some(s) => s,
            None => DEFAULT_RECONNECT_INTERVAL_SECS,
        };
        let state = if cfg.connection_url.is_some() {
            LinkState::Pending
        } else {
            LinkState::Unconfigured
        };
        BackendLink { state, max_attempts, interval_secs, failures: 0 }
    }

    /// Whether the backend may be used now.
    pub fn is_usable(&self) -> (r: bool)
        ensures
            r == self.usable(),
    {
        self.state == LinkState::Pending || self.state == LinkState::Connected
    }

    /// Records the outcome of a connection attempt and says what to do next.
    pub fn on_connect_result(&mut self, ok: bool) -> (r: LinkAction)
        requires
            old(self).wf(),
        ensures
            (*final(self), r) == link_step(*old(self), ok),
            final(self).wf(),
    {
        match self.state {
            LinkState::Unconfigured => LinkAction::GiveUp,
            LinkState::GaveUp => LinkAction::GiveUp,
            _ => {
                if ok {
                    self.state = LinkState::Connected;
                    self.failures = 0;
                    LinkAction::Proceed
                } else if self.failures < self.max_attempts {
                    self.state = LinkState::Pending;
                    self.failures = self.failures + 1;
                    LinkAction::RetryAfter(self.interval_secs)
                } else {
                    self.state = LinkState::GaveUp;
                    LinkAction::GiveUp
                }
            },
        }
    }
}

/// Once given up, a backend stays given up whatever happens.
pub proof fn lemma_gave_up_is_final(l: BackendLink, ok: bool)
    requires
        l.state == LinkState::GaveUp,
    ensures
        link_step(l, ok) == (l, LinkAction::GiveUp),
{
}

proof fn lemma_failures_counted(l: BackendLink, k: nat)
    requires
        l.state == LinkState::Pending,
        l.failures == 0,
        k <= l.max_attempts,
    ensures
        after_failures(l, k) == (BackendLink { failures: k as u32, ..l }),
    decreases k,
{
    if k > 0 {
        lemma_failures_counted(l, (k - 1) as nat);
    }
}

/// A configured backend that keeps failing is retried exactly `max_attempts`
/// times, each after the configured interval, and then given up.
pub proof fn lemma_retries_bounded(l: BackendLink, k: nat)
    requires
        l.state == LinkState::Pending,
        l.failures == 0,
        k <= l.max_attempts,
    ensures
        after_failures(l, k) == (BackendLink { failures: k as u32, ..l }),
        k < l.max_attempts ==> link_step(after_failures(l, k), false).1 == LinkAction::RetryAfter(
            l.interval_secs,
        ),
        k == l.max_attempts ==> link_step(after_failures(l, k), false).1 == LinkAction::GiveUp,
        after_failures(l, (l.max_attempts + 1) as nat).state == LinkState::GaveUp,
{
    lemma_failures_counted(l, k);
    lemma_failures_counted(l, l.max_attempts as nat);
    assert(after_failures(l, (l.max_attempts + 1) as nat) == link_step(
        after_failures(l, l.max_attempts as nat),
        false,
    ).0);
}

/// Errors of the store's optional backends.
#[derive(Debug, Clone, PartialEq, Eq)]
pub enum StoreError {
    /// The backend was given up after its reconnect attempts ran out.
    Unavailable,
    /// A round trip to a backend failed.
    Backend(String),
}

/// What `append_record` leaves for the caller to do.
#[derive(Debug, Clone, PartialEq, Eq)]
pub enum AppendAction {
    /// No durable log is configured: nothing to write.
    Skip,
    /// Write this record to the durable log.
    Write(MessageRecord),
}

/// What `append_record` answers for a log in state `log`.
pub open spec fn append_outcome(log: BackendLink, record: MessageRecord) -> Result<
    AppendAction,
    StoreError,
> {
    match log.state {
        LinkState::Unconfigured => Ok(AppendAction::Skip),
        LinkState::GaveUp => Err(StoreError::Unavailable),
        _ => Ok(AppendAction::Write(record)),
    }
}

/// What `hydrate` answers for a log in state `log` holding `n` rows.
pub open spec fn hydrate_outcome(log: BackendLink, n: nat, limit: nat) -> Result<usize, StoreError> {
    match log.state {
        LinkState::Unconfigured => Ok(0),
        LinkState::GaveUp => Err(StoreError::Unavailable),
        _ => Ok(hydration_count(n, limit) as usize),
    }
}

/// `m` with each `(key, value)` of `rows` put in turn.
pub open spec fn put_all(m: Map<Seq<char>, Seq<char>>, rows: Seq<(String, String)>) -> Map<
    Seq<char>,
    Seq<char>,
>
    decreases rows.len(),
{
    if rows.len() == 0 {
        m
    } else {
        put_all(m, rows.drop_last()).insert(rows.last().0@, rows.last().1@)
    }
}

/// The keys of `rows`.
pub open spec fn keys_of(rows: Seq<(String, String)>) -> Set<Seq<char>> {
    Set::new(|k: Seq<char>| exists|i: int| 0 <= i < rows.len() && rows[i].0@ == k)
}

/// How many of `n` rows a hydration with `limit` loads.
pub open spec fn hydration_count(n: nat, limit: nat) -> nat {
    if limit < n {
        limit
    } else {
        n
    }
}

/// The in-process tier and the policies of the two optional backends.
pub struct MessageStore {
    entries: Vec<(String, String)>,
    memory: Ghost<Map<Seq<char>, Seq<char>>>,
    cache: BackendLink,
    log: BackendLink,
}

impl MessageStore {
    /// The in-process map: key to value.
    pub closed spec fn memory(&self) -> Map<Seq<char>, Seq<char>> {
        self.memory@
    }

    pub closed spec fn cache_link(&self) -> BackendLink {
        self.cache
    }

    pub closed spec fn log_link(&self) -> BackendLink {
        self.log
    }

    pub closed spec fn wf(&self) -> bool {
        &&& self.cache.wf()
        &&& self.log.wf()
        &&& forall|i: int, j: int|
            0 <= i < j < self.entries@.len() ==> (#[trigger] self.entries@[i]).0@
                != (#[trigger] self.entries@[j]).0@
        &&& forall|i: int|
            0 <= i < self.entries@.len() ==> self.memory@.contains_key(
                (#[trigger] self.entries@[i]).0@,
            ) && self.memory@[self.entries@[i].0@] == self.entries@[i].1@
        &&& forall|k: Seq<char>|
            self.memory@.contains_key(k) ==> exists|i: int|
                0 <= i < self.entries@.len() && (#[trigger] self.entries@[i]).0@ == k
    }

    /// An empty store whose backends follow `cache` and `log`.
    pub fn new(cache: &StoreConfig, log: &StoreConfig) -> (r: MessageStore)
        ensures
            r.wf(),
            r.memory() == Map::<Seq<char>, Seq<char>>::empty(),
            r.cache_link() == link_for(*cache),
            r.log_link() == link_for(*log),
    {
        MessageStore {
            entries: Vec::new(),
            memory: Ghost(Map::empty()),
            cache: BackendLink::new(cache),
            log: BackendLink::new(log),
        }
    }

    /// An empty store with no networked cache and no durable log.
    pub fn memory_only() -> (r: MessageStore)
        ensures
            r.wf(),
            r.memory() == Map::<Seq<char>, Seq<char>>::empty(),
            r.cache_link().state == LinkState::Unconfigured,
            r.log_link().state == LinkState::Unconfigured,
    {
        let off = StoreConfig::disabled();
        MessageStore::new(&off, &off)
    }

    /// Whether writes are to be mirrored to the networked cache.
    pub fn cache_active(&self) -> (r: bool)
        ensures
            r == self.cache_link().usable(),
    {
        self.cache.is_usable()
    }

    /// Whether the durable log is in use.
    pub fn log_active(&self) -> (r: bool)
        ensures
            r == self.log_link().usable(),
    {
        self.log.is_usable()
    }

    /// Records the outcome of a connection attempt to the networked cache.
    pub fn on_cache_connect(&mut self, ok: bool) -> (r: LinkAction)
        requires
            old(self).wf(),
        ensures
            final(self).wf(),
            (final(self).cache_link(), r) == link_step(old(self).cache_link(), ok),
            final(self).log_link() == old(self).log_link(),
            final(self).memory() == old(self).memory(),
    {
        let r = self.cache.on_connect_result(ok);
        assert(self.entries@ == old(self).entries@);
        r
    }

    /// Records the outcome of a connection attempt to the durable log.
    pub fn on_log_connect(&mut self, ok: bool) -> (r: LinkAction)
        requires
            old(self).wf(),
        ensures
            final(self).wf(),
            (final(self).log_link(), r) == link_step(old(self).log_link(), ok),
            final(self).cache_link() == old(self).cache_link(),
            final(self).memory() == old(self).memory(),
    {
        let r = self.log.on_connect_result(ok);
        assert(self.entries@ == old(self).entries@);
        r
    }

    fn find(&self, key: &str) -> (r: Option<usize>)
        requires
            self.wf(),
        ensures
            r matches Some(i) ==> i < self.entries@.len() && self.entries@[i as int].0@ == key@,
            r is None ==> !self.memory@.contains_key(key@),
    {
        let mut i: usize = 0;
        while i < self.entries.len()
            invariant
                self.wf(),
                i <= self.entries@.len(),
                forall|j: int| 0 <= j < i ==> (#[trigger] self.entries@[j]).0@ != key@,
            decreases self.entries@.len() - i,
        {
            if same_text(self.entries[i].0.as_str(), key) {
                return Some(i);
            }
            i = i + 1;
        }
        None
    }

    /// Stores `value` under `key` in memory, replacing any earlier value.
    /// Returns whether the caller should mirror the write to the networked cache.
    pub fn store_message(&mut self, key: &str, value: &str) -> (mirror: bool)
        requires
            old(self).wf(),
        ensures
            final(self).wf(),
            final(self).memory() == old(self).memory().insert(key@, value@),
            final(self).cache_link() == old(self).cache_link(),
            final(self).log_link() == old(self).log_link(),
            mirror == old(self).cache_link().usable(),
    {
        let entry = (String::from_str(key), String::from_str(value));
        let ghost new_memory = self.memory@.insert(key@, value@);
        let ghost idx: int;
        match self.find(key) {
            Some(i) => {
                self.entries.set(i, entry);
                proof {
                    idx = i as int;
                }
            },
            None => {
                self.entries.push(entry);
                proof {
                    idx = self.entries@.len() - 1;
                }
            },
        }
        self.memory = Ghost(new_memory);
        assert(self.entries@[idx].0@ == key@);
        assert forall|k: Seq<char>| self.memory@.contains_key(k) implies exists|i: int|
            0 <= i < self.entries@.len() && (#[trigger] self.entries@[i]).0@ == k by {
            if k != key@ {
                let i = choose|i: int|
                    0 <= i < old(self).entries@.len() && (#[trigger] old(self).entries@[i]).0@
                        == k;
                assert(self.entries@[i].0@ == k);
            } else {
                assert(self.entries@[idx].0@ == k);
            }
        }
        self.cache.is_usable()
    }

    /// The value stored under `key`; memory is authoritative.
    pub fn get_message(&self, key: &str) -> (r: Option<String>)
        requires
            self.wf(),
        ensures
            r is Some <==> self.memory().contains_key(key@),
            r matches Some(v) ==> v@ == self.memory()[key@],
    {
        match self.find(key) {
            Some(i) => Some(self.entries[i].1.clone()),
            None => None,
        }
    }

    /// Hands a record to the durable log: nothing to do when none is
    /// configured, an error when it was given up.
    pub fn append_record(&self, record: MessageRecord) -> (r: Result<AppendAction, StoreError>)
        ensures
            r == append_outcome(self.log_link(), record),
    {
        match self.log.state {
            LinkState::Unconfigured => Ok(AppendAction::Skip),
            LinkState::GaveUp => Err(StoreError::Unavailable),
            _ => Ok(AppendAction::Write(record)),
        }
    }

    /// Loads the newest `limit` rows of the durable log into memory. `rows`
    /// holds the log's `(key, value)` rows, oldest first; the newer row wins
    /// where keys repeat. Returns how many rows were loaded.
    pub fn hydrate(&mut self, rows: &Vec<(String, String)>, limit: usize) -> (r: Result<
        usize,
        StoreError,
    >)
        requires
            old(self).wf(),
        ensures
            final(self).wf(),
            final(self).cache_link() == old(self).cache_link(),
            final(self).log_link() == old(self).log_link(),
            r == hydrate_outcome(old(self).log_link(), rows@.len(), limit as nat),
            !old(self).log_link().usable() ==> final(self).memory() == old(self).memory(),
            old(self).log_link().usable() ==> final(self).memory() == put_all(
                old(self).memory(),
                rows@.subrange(
                    rows@.len() - hydration_count(rows@.len(), limit as nat),
                    rows@.len() as int,
                ),
            ),
    {
        match self.log.state {
            LinkState::Unconfigured => return Ok(0),
            LinkState::GaveUp => return Err(StoreError::Unavailable),
            _ => {},
        }
        let n = rows.len();
        let count = if limit < n {
            limit
        } else {
            n
        };
        let start = n - count;
        let mut i: usize = start;
        assert(rows@.subrange(start as int, start as int) =~= Seq::<(String, String)>::empty());
        while i < n
            invariant
                self.wf(),
                n == rows@.len(),
                start <= i <= n,
                self.cache == old(self).cache,
                self.log == old(self).log,
                self.memory() == put_all(old(self).memory(), rows@.subrange(start as int, i as int)),
            decreases n - i,
        {
            assert(rows@.subrange(start as int, i + 1).drop_last() =~= rows@.subrange(
                start as int,
                i as int,
            ));
            self.store_message(rows[i].0.as_str(), rows[i].1.as_str());
            i = i + 1;
        }
        Ok(count)
    }
}

/// Reading a key right after storing `v` under it gives `v`: `store_message`
/// leaves `before.memory().insert(k, v)`, and `get_message` reads `memory()`.
pub proof fn lemma_store_then_get(before: MessageStore, after: MessageStore, k: Seq<char>, v: Seq<char>)
    requires
        after.memory() == before.memory().insert(k, v),
    ensures
        after.memory().contains_key(k),
        after.memory()[k] == v,
{
}

/// Of two writes to one key, the later one is read back.
pub proof fn lemma_last_write_wins(
    s0: MessageStore,
    s1: MessageStore,
    s2: MessageStore,
    k: Seq<char>,
    v1: Seq<char>,
    v2: Seq<char>,
)
    requires
        s1.memory() == s0.memory().insert(k, v1),
        s2.memory() == s1.memory().insert(k, v2),
    ensures
        s2.memory().contains_key(k),
        s2.memory()[k] == v2,
{
}

/// With neither backend configured the store works from memory alone: writes
/// are not mirrored, appending a record is a no-op that succeeds, and
/// hydration succeeds having loaded nothing.
pub proof fn lemma_memory_only_is_trivial(
    s: MessageStore,
    record: MessageRecord,
    rows: nat,
    limit: nat,
)
    requires
        s.cache_link().state == LinkState::Unconfigured,
        s.log_link().state == LinkState::Unconfigured,
    ensures
        !s.cache_link().usable(),
        !s.log_link().usable(),
        append_outcome(s.log_link(), record) == Ok::<AppendAction, StoreError>(AppendAction::Skip),
        hydrate_outcome(s.log_link(), rows, limit) == Ok::<usize, StoreError>(0),
{
}

/// The keys that `put_all` adds are exactly the keys of the rows.
pub proof fn lemma_put_all_keys(m: Map<Seq<char>, Seq<char>>, rows: Seq<(String, String)>)
    ensures
        put_all(m, rows).dom() == m.dom() + keys_of(rows),
    decreases rows.len(),
{
    if rows.len() > 0 {
        lemma_put_all_keys(m, rows.drop_last());
        assert forall|k: Seq<char>| #[trigger] keys_of(rows).contains(k) <==> keys_of(
            rows.drop_last(),
        ).contains(k) || k == rows.last().0@ by {
            if keys_of(rows).contains(k) {
                let i = choose|i: int| 0 <= i < rows.len() && rows[i].0@ == k;
                if i < rows.len() - 1 {
                    assert(rows.drop_last()[i].0@ == k);
                }
            }
            if keys_of(rows.drop_last()).contains(k) {
                let i = choose|i: int|
                    0 <= i < rows.drop_last().len() && rows.drop_last()[i].0@ == k;
                assert(rows[i].0@ == k);
            }
            if k == rows.last().0@ {
                assert(rows[rows.len() - 1].0@ == k);
            }
        }
        assert(put_all(m, rows).dom() =~= m.dom() + keys_of(rows));
    } else {
        assert(put_all(m, rows).dom() =~= m.dom() + keys_of(rows));
    }
}

/// Hydrating an empty store from a log of `n` rows loads exactly the newest
/// `min(limit, n)` of them: the keys in memory are those rows' keys, and the
/// count returned is `min(limit, n)`.
pub proof fn lemma_hydration_cap(rows: Seq<(String, String)>, limit: nat)
    ensures
        ({
            let c = hydration_count(rows.len(), limit);
            let newest = rows.subrange(rows.len() - c, rows.len() as int);
            &&& c == if limit < rows.len() {
                limit
            } else {
                rows.len()
            }
            &&& newest.len() == c
            &&& put_all(Map::empty(), newest).dom() == keys_of(newest)
        }),
{
    let c = hydration_count(rows.len(), limit);
    let newest = rows.subrange(rows.len() - c, rows.len() as int);
    lemma_put_all_keys(Map::empty(), newest);
    assert(Map::<Seq<char>, Seq<char>>::empty().dom() + keys_of(newest) =~= keys_of(newest));
}

} // verus!
