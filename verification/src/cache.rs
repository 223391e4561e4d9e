//! Bounded per-host store of TLS sessions.
//!
//! Each key owns a queue of at most `capacity` sessions, oldest first. An
//! insert into a full queue evicts the oldest session; a take hands out the
//! most recently inserted one and removes it.

use crate::text::lower_text;
use crate::text::to_ascii_lowercase;
use vstd::prelude::*;

verus! {

/// The TLS port that is used when the URI names none.
pub const DEFAULT_TLS_PORT: u16 = 443;

/// A session key as plain values: the host and the port.
pub type SessionKeyView = (Seq<char>, u16);

/// Identifies the peer whose sessions may be reused: host and port.
pub struct SessionKey {
    host: String,
    port: u16,
}

impl View for SessionKey {
    type V = SessionKeyView;

    closed spec fn view(&self) -> SessionKeyView {
        (self.host@, self.port)
    }
}

impl SessionKey {
    /// The key of a host as the TLS engine sees it (an IPv6 literal without
    /// its brackets): the host in lower case, and the port, 443 if none is
    /// given.
    pub fn new(host: &str, port: Option<u16>) -> (key: SessionKey)
        ensures
            key@ == (
                lower_text(host@),
                match port {
                    Some(p) => p,
                    None => DEFAULT_TLS_PORT,
                },
            ),
    {
        let port = match port {
            Some(p) => p,
            None => DEFAULT_TLS_PORT,
        };
        SessionKey { host: to_ascii_lowercase(host), port }
    }

    /// The host, in lower case.
    pub fn host(&self) -> (h: &str)
        ensures
            h@ == self@.0,
    {
        self.host.as_str()
    }

    /// The port.
    pub fn port(&self) -> (p: u16)
        ensures
            p == self@.1,
    {
        self.port
    }

    /// Whether two keys name the same host and port.
    pub fn same(&self, other: &SessionKey) -> (r: bool)
        ensures
            r == (self@ == other@),
    {
        self.port == other.port && self.host == other.host
    }

    /// A copy of the key.
    pub fn duplicate(&self) -> (key: SessionKey)
        ensures
            key@ == self@,
    {
        SessionKey { host: self.host.clone(), port: self.port }
    }
}

/// The sessions of one key, oldest first.
struct Bucket<S> {
    key: SessionKey,
    sessions: Vec<S>,
}

/// Whether some bucket belongs to the key.
spec fn has_bucket<S>(buckets: Seq<Bucket<S>>, key: SessionKeyView) -> bool {
    exists|i: int| 0 <= i < buckets.len() && (#[trigger] buckets[i]).key@ == key
}

/// The index of the key's bucket.
spec fn bucket_of<S>(buckets: Seq<Bucket<S>>, key: SessionKeyView) -> int {
    choose|i: int| 0 <= i < buckets.len() && (#[trigger] buckets[i]).key@ == key
}

/// The queue of a key after a session was inserted under a per-key bound:
/// the session goes to the back, and the front leaves if the bound would be
/// passed. With a bound of zero nothing is kept.
pub open spec fn queue_after_insert<S>(queue: Seq<S>, capacity: nat, session: S) -> Seq<S> {
    if capacity == 0 {
        Seq::empty()
    } else if queue.len() < capacity {
        queue.push(session)
    } else {
        queue.subrange(queue.len() - capacity + 1, queue.len() as int).push(session)
    }
}

/// The cache after `session` was inserted under `key`.
pub open spec fn cache_after_insert<S>(
    cache: Map<SessionKeyView, Seq<S>>,
    capacity: nat,
    key: SessionKeyView,
    session: S,
) -> Map<SessionKeyView, Seq<S>> {
    if capacity == 0 {
        cache
    } else {
        cache.insert(key, queue_after_insert(queue_of(cache, key), capacity, session))
    }
}

/// The sessions cached under a key, oldest first; empty if there are none.
pub open spec fn queue_of<S>(cache: Map<SessionKeyView, Seq<S>>, key: SessionKeyView) -> Seq<
    S,
> {
    if cache.contains_key(key) {
        cache[key]
    } else {
        Seq::empty()
    }
}

/// The session that a take under `key` hands out: the most recently
/// inserted one, if any.
pub open spec fn taken<S>(cache: Map<SessionKeyView, Seq<S>>, key: SessionKeyView) -> Option<
    S,
> {
    if queue_of(cache, key).len() > 0 {
        Some(queue_of(cache, key).last())
    } else {
        None
    }
}

/// The cache after a take under `key`: the session handed out is gone, and
/// a key whose last session left is no longer in the map.
pub open spec fn cache_after_take<S>(
    cache: Map<SessionKeyView, Seq<S>>,
    key: SessionKeyView,
) -> Map<SessionKeyView, Seq<S>> {
    let queue = queue_of(cache, key);
    if queue.len() > 1 {
        cache.insert(key, queue.drop_last())
    } else {
        cache.remove(key)
    }
}

/// What holds of the contents of every cache with the given per-key bound:
/// each key that is present has at least one session and at most `capacity`.
pub open spec fn bounded<S>(cache: Map<SessionKeyView, Seq<S>>, capacity: nat) -> bool {
    forall|key: SessionKeyView| #[trigger]
        cache.contains_key(key) ==> 0 < cache[key].len() <= capacity
}

/// No key has two buckets.
spec fn distinct_keys<S>(buckets: Seq<Bucket<S>>) -> bool {
    forall|i: int, j: int|
        0 <= i < j < buckets.len() ==> (#[trigger] buckets[i]).key@ != (#[trigger] buckets[j]).key@
}

/// The map that a sequence of buckets stands for.
spec fn model<S>(buckets: Seq<Bucket<S>>) -> Map<SessionKeyView, Seq<S>> {
    Map::new(
        |key: SessionKeyView| has_bucket(buckets, key),
        |key: SessionKeyView| buckets[bucket_of(buckets, key)].sessions@,
    )
}

/// Where the bucket at `j` stood before the bucket at `i` was swapped out
/// for the last one.
spec fn origin(i: int, last: int, j: int) -> int {
    if j == i {
        last
    } else {
        j
    }
}

/// The model maps the key of each bucket to the bucket's sessions.
proof fn lemma_model_at<S>(buckets: Seq<Bucket<S>>, i: int)
    requires
        distinct_keys(buckets),
        0 <= i < buckets.len(),
    ensures
        model(buckets).dom().contains(buckets[i].key@),
        model(buckets)[buckets[i].key@] == buckets[i].sessions@,
{
    let key = buckets[i].key@;
    let j = bucket_of(buckets, key);
    assert(has_bucket(buckets, key));
    assert(buckets[j].key@ == key);
    if i < j {
        assert(buckets[i].key@ != buckets[j].key@);
    } else if j < i {
        assert(buckets[j].key@ != buckets[i].key@);
    }
}

/// Swapping a bucket out removes its key from the model and nothing else.
proof fn lemma_model_swap_remove<S>(before: Seq<Bucket<S>>, i: int)
    requires
        distinct_keys(before),
        0 <= i < before.len(),
    ensures
        distinct_keys(before.update(i, before.last()).drop_last()),
        !has_bucket(before.update(i, before.last()).drop_last(), before[i].key@),
        model(before.update(i, before.last()).drop_last()) == model(before).remove(
            before[i].key@,
        ),
{
    let rest = before.update(i, before.last()).drop_last();
    let last = before.len() - 1;
    let gone = before[i].key@;
    assert forall|j: int| 0 <= j < rest.len() implies #[trigger] rest[j] == before[origin(
        i,
        last,
        j,
    )] && origin(i, last, j) != i by {}
    assert forall|a: int, b: int| 0 <= a < b < rest.len() implies (#[trigger] rest[a]).key@ != (
    #[trigger] rest[b]).key@ by {
        let oa = origin(i, last, a);
        let ob = origin(i, last, b);
        assert(rest[a] == before[oa] && rest[b] == before[ob]);
        if oa < ob {
            assert(before[oa].key@ != before[ob].key@);
        } else {
            assert(before[ob].key@ != before[oa].key@);
        }
    }
    if has_bucket(rest, gone) {
        let j = bucket_of(rest, gone);
        let oj = origin(i, last, j);
        assert(rest[j] == before[oj]);
        if oj < i {
            assert(before[oj].key@ != before[i].key@);
        } else {
            assert(before[i].key@ != before[oj].key@);
        }
    }
    let target = model(before).remove(gone);
    assert forall|k: SessionKeyView|
        (#[trigger] model(rest).dom().contains(k)) == target.dom().contains(k) && (model(
            rest,
        ).dom().contains(k) ==> model(rest)[k] == target[k]) by {
        if has_bucket(rest, k) {
            let j = bucket_of(rest, k);
            assert(rest[j] == before[origin(i, last, j)]);
            lemma_model_at(rest, j);
            lemma_model_at(before, origin(i, last, j));
        }
        if k != gone && has_bucket(before, k) {
            let j = bucket_of(before, k);
            let j2 = if j == last {
                i
            } else {
                j
            };
            assert(rest[j2] == before[j]);
            lemma_model_at(rest, j2);
            lemma_model_at(before, j);
        }
    }
    assert(model(rest) =~= target);
}

/// Pushing a bucket with a new key adds its key and sessions to the model.
proof fn lemma_model_push<S>(rest: Seq<Bucket<S>>, bucket: Bucket<S>)
    requires
        distinct_keys(rest),
        !has_bucket(rest, bucket.key@),
    ensures
        distinct_keys(rest.push(bucket)),
        model(rest.push(bucket)) == model(rest).insert(bucket.key@, bucket.sessions@),
{
    let all = rest.push(bucket);
    assert forall|a: int, b: int| 0 <= a < b < all.len() implies (#[trigger] all[a]).key@ != (
    #[trigger] all[b]).key@ by {
        assert(all[a] == rest[a]);
        if b < rest.len() {
            assert(all[b] == rest[b]);
            assert(rest[a].key@ != rest[b].key@);
        } else {
            if rest[a].key@ == bucket.key@ {
                assert(has_bucket(rest, bucket.key@));
            }
        }
    }
    let target = model(rest).insert(bucket.key@, bucket.sessions@);
    assert forall|k: SessionKeyView|
        (#[trigger] model(all).dom().contains(k)) == target.dom().contains(k) && (model(
            all,
        ).dom().contains(k) ==> model(all)[k] == target[k]) by {
        if has_bucket(all, k) {
            let j = bucket_of(all, k);
            lemma_model_at(all, j);
            if j < rest.len() {
                assert(all[j] == rest[j]);
                lemma_model_at(rest, j);
            }
        }
        if has_bucket(rest, k) {
            let j = bucket_of(rest, k);
            assert(all[j] == rest[j]);
            lemma_model_at(all, j);
            lemma_model_at(rest, j);
        }
        if k == bucket.key@ {
            assert(all[rest.len() as int] == bucket);
            lemma_model_at(all, rest.len() as int);
        }
    }
    assert(model(all) =~= target);
}

/// Bounded store of TLS sessions, keyed by host and port.
pub struct SessionCache<S> {
    capacity: usize,
    buckets: Vec<Bucket<S>>,
}

impl<S> View for SessionCache<S> {
    type V = Map<SessionKeyView, Seq<S>>;

    closed spec fn view(&self) -> Map<SessionKeyView, Seq<S>> {
        model(self.buckets@)
    }
}

impl<S> SessionCache<S> {
    /// The per-key bound that the cache was made with.
    pub closed spec fn spec_capacity(&self) -> usize {
        self.capacity
    }

    /// The representation invariant: no key has two buckets, and each
    /// bucket holds between one and `capacity` sessions.
    pub closed spec fn wf(&self) -> bool {
        &&& distinct_keys(self.buckets@)
        &&& forall|i: int|
            0 <= i < self.buckets@.len() ==> 0 < (#[trigger] self.buckets@[i]).sessions@.len()
                <= self.capacity
    }

    /// A well-formed cache keeps every queue within its bound.
    pub proof fn lemma_bounded(&self)
        requires
            self.wf(),
        ensures
            bounded(self@, self.spec_capacity() as nat),
    {
        assert forall|key: SessionKeyView| #[trigger] self@.contains_key(key) implies 0
            < self@[key].len() <= self.capacity by {
            let i = bucket_of(self.buckets@, key);
            assert(0 < self.buckets@[i].sessions@.len() <= self.capacity);
        }
    }

    /// An empty cache that keeps at most `capacity` sessions per key.
    pub fn with_capacity(capacity: usize) -> (cache: SessionCache<S>)
        ensures
            cache.wf(),
            cache@ == Map::<SessionKeyView, Seq<S>>::empty(),
            cache.spec_capacity() == capacity,
    {
        let cache = SessionCache { capacity, buckets: Vec::new() };
        assert(cache@ =~= Map::<SessionKeyView, Seq<S>>::empty());
        cache
    }

    /// The per-key bound that the cache was made with.
    #[verifier::when_used_as_spec(spec_capacity)]
    pub fn capacity(&self) -> (n: usize)
        ensures
            n == self.spec_capacity(),
    {
        self.capacity
    }

    /// The index of the key's bucket, or the number of buckets if it has
    /// none.
    fn find(&self, key: &SessionKey) -> (i: usize)
        ensures
            i <= self.buckets@.len(),
            i < self.buckets@.len() ==> self.buckets@[i as int].key@ == key@,
            i == self.buckets@.len() ==> !has_bucket(self.buckets@, key@),
    {
        let mut i: usize = 0;
        while i < self.buckets.len()
            invariant
                i <= self.buckets@.len(),
                forall|j: int| 0 <= j < i ==> (#[trigger] self.buckets@[j]).key@ != key@,
            decreases self.buckets@.len() - i,
        {
            if self.buckets[i].key.same(key) {
                return i;
            }
            i += 1;
        }
        i
    }

    /// The number of sessions cached under the key.
    pub fn cached(&self, key: &SessionKey) -> (n: usize)
        requires
            self.wf(),
        ensures
            n == queue_of(self@, key@).len(),
    {
        let i = self.find(key);
        if i < self.buckets.len() {
            proof {
                lemma_model_at(self.buckets@, i as int);
            }
            self.buckets[i].sessions.len()
        } else {
            0
        }
    }

    /// Caches a session under the key. If the key already holds `capacity`
    /// sessions, the oldest of them is evicted.
    pub fn insert(&mut self, key: SessionKey, session: S)
        requires
            old(self).wf(),
        ensures
            final(self).wf(),
            final(self).spec_capacity() == old(self).spec_capacity(),
            final(self)@ == cache_after_insert(
                old(self)@,
                old(self).spec_capacity() as nat,
                key@,
                session,
            ),
    {
        if self.capacity == 0 {
            return ;
        }
        let ghost before = self.buckets@;
        let i = self.find(&key);
        let mut bucket = if i < self.buckets.len() {
            proof {
                lemma_model_at(before, i as int);
                lemma_model_swap_remove(before, i as int);
            }
            self.buckets.swap_remove(i)
        } else {
            assert(model(before).remove(key@) =~= model(before));
            Bucket { key, sessions: Vec::new() }
        };
        let ghost rest = self.buckets@;
        let ghost queue = bucket.sessions@;
        assert(model(rest) == model(before).remove(key@));
        assert(queue == queue_of(model(before), key@));
        if bucket.sessions.len() >= self.capacity {
            let _ = bucket.sessions.remove(0);
        }
        bucket.sessions.push(session);
        assert(bucket.sessions@ =~= queue_after_insert(queue, self.capacity as nat, session));
        proof {
            lemma_model_push(rest, bucket);
            assert(model(before).remove(key@).insert(key@, bucket.sessions@) =~= model(
                before,
            ).insert(key@, bucket.sessions@));
        }
        self.buckets.push(bucket);
    }

    /// Takes in the session that the TLS engine reports for a connection:
    /// it is cached under the key that was attached to the connection, and
    /// dropped if none was.
    pub fn record_new_session(&mut self, key: Option<&SessionKey>, session: S)
        requires
            old(self).wf(),
        ensures
            final(self).wf(),
            final(self).spec_capacity() == old(self).spec_capacity(),
            final(self)@ == match key {
                Some(k) => cache_after_insert(
                    old(self)@,
                    old(self).spec_capacity() as nat,
                    k@,
                    session,
                ),
                None => old(self)@,
            },
    {
        match key {
            Some(k) => {
                self.insert(k.duplicate(), session);
            },
            None => {},
        }
    }

    /// Hands out the most recently inserted session of the key, if it has
    /// one, and removes it from the cache: a session is used once.
    pub fn take(&mut self, key: &SessionKey) -> (session: Option<S>)
        requires
            old(self).wf(),
        ensures
            final(self).wf(),
            final(self).spec_capacity() == old(self).spec_capacity(),
            session == taken(old(self)@, key@),
            final(self)@ == cache_after_take(old(self)@, key@),
    {
        let ghost before = self.buckets@;
        let i = self.find(key);
        if i >= self.buckets.len() {
            assert(model(before).remove(key@) =~= model(before));
            return None;
        }
        proof {
            lemma_model_at(before, i as int);
            lemma_model_swap_remove(before, i as int);
        }
        let mut bucket = self.buckets.swap_remove(i);
        let ghost rest = self.buckets@;
        let ghost queue = bucket.sessions@;
        let session = bucket.sessions.pop();
        if bucket.sessions.len() > 0 {
            assert(bucket.sessions@ =~= queue.drop_last());
            proof {
                lemma_model_push(rest, bucket);
                assert(model(before).remove(key@).insert(key@, bucket.sessions@) =~= model(
                    before,
                ).insert(key@, bucket.sessions@));
            }
            self.buckets.push(bucket);
        }
        session
    }
}


/// One operation on a cache, as the laws below speak of it.
pub enum CacheOp<S> {
    /// A session is inserted under a key.
    Insert(SessionKeyView, S),
    /// A session is taken from under a key.
    Take(SessionKeyView),
}

/// The cache after one operation, and what the operation handed out: a
/// take hands out a session or nothing, an insert never hands out anything.
pub open spec fn cache_after_op<S>(
    cache: Map<SessionKeyView, Seq<S>>,
    capacity: nat,
    op: CacheOp<S>,
) -> (Map<SessionKeyView, Seq<S>>, Option<S>) {
    match op {
        CacheOp::Insert(key, session) => (
            cache_after_insert(cache, capacity, key, session),
            None,
        ),
        CacheOp::Take(key) => (cache_after_take(cache, key), taken(cache, key)),
    }
}

/// The cache after a run of operations, and what each of them handed out.
pub open spec fn cache_after_ops<S>(
    cache: Map<SessionKeyView, Seq<S>>,
    capacity: nat,
    ops: Seq<CacheOp<S>>,
) -> (Map<SessionKeyView, Seq<S>>, Seq<Option<S>>)
    decreases ops.len(),
{
    if ops.len() == 0 {
        (cache, Seq::empty())
    } else {
        let (earlier, handed) = cache_after_ops(cache, capacity, ops.drop_last());
        let (after, out) = cache_after_op(earlier, capacity, ops.last());
        (after, handed.push(out))
    }
}

/// The cache after the sessions were inserted under one key, in order.
pub open spec fn cache_after_inserts<S>(
    cache: Map<SessionKeyView, Seq<S>>,
    capacity: nat,
    key: SessionKeyView,
    sessions: Seq<S>,
) -> Map<SessionKeyView, Seq<S>>
    decreases sessions.len(),
{
    if sessions.len() == 0 {
        cache
    } else {
        cache_after_insert(
            cache_after_inserts(cache, capacity, key, sessions.drop_last()),
            capacity,
            key,
            sessions.last(),
        )
    }
}

/// The newest `capacity` sessions of a queue, or all of them if there are
/// fewer.
pub open spec fn newest<S>(queue: Seq<S>, capacity: nat) -> Seq<S> {
    if queue.len() <= capacity {
        queue
    } else {
        queue.subrange(queue.len() - capacity, queue.len() as int)
    }
}

/// Whether some key of the cache holds the session.
pub open spec fn holds<S>(cache: Map<SessionKeyView, Seq<S>>, session: S) -> bool {
    exists|key: SessionKeyView| #[trigger]
        cache.contains_key(key) && cache[key].contains(session)
}

/// Inserting keeps the per-key bound.
pub proof fn lemma_insert_bounded<S>(
    cache: Map<SessionKeyView, Seq<S>>,
    capacity: nat,
    key: SessionKeyView,
    session: S,
)
    requires
        bounded(cache, capacity),
    ensures
        bounded(cache_after_insert(cache, capacity, key, session), capacity),
{
    let after = cache_after_insert(cache, capacity, key, session);
    assert forall|k: SessionKeyView| #[trigger] after.contains_key(k) implies 0
        < after[k].len() <= capacity by {
        if k != key {
            assert(cache.contains_key(k));
        } else if cache.contains_key(key) {
        }
    }
}

/// Taking keeps the per-key bound.
pub proof fn lemma_take_bounded<S>(
    cache: Map<SessionKeyView, Seq<S>>,
    capacity: nat,
    key: SessionKeyView,
)
    requires
        bounded(cache, capacity),
    ensures
        bounded(cache_after_take(cache, key), capacity),
{
    let after = cache_after_take(cache, key);
    assert forall|k: SessionKeyView| #[trigger] after.contains_key(k) implies 0
        < after[k].len() <= capacity by {
        assert(cache.contains_key(k));
    }
}

/// A take right after an insert under the same key hands out the inserted
/// session, in a cache that keeps at least one session per key.
pub proof fn lemma_take_after_insert<S>(
    cache: Map<SessionKeyView, Seq<S>>,
    capacity: nat,
    key: SessionKeyView,
    session: S,
)
    requires
        capacity > 0,
    ensures
        taken(cache_after_insert(cache, capacity, key, session), key) == Some(session),
{
}

/// After an insert under a key that held nothing (or into a cache that
/// keeps one session per key) and a take under that key, a second take
/// under it hands out nothing.
pub proof fn lemma_second_take_is_none<S>(
    cache: Map<SessionKeyView, Seq<S>>,
    capacity: nat,
    key: SessionKeyView,
    session: S,
)
    requires
        capacity > 0,
        queue_of(cache, key).len() == 0 || capacity == 1,
    ensures
        taken(
            cache_after_take(cache_after_insert(cache, capacity, key, session), key),
            key,
        ) is None,
{
}

/// An insert under a key whose queue is not full, followed by a take under
/// that key, leaves the cache as it was.
pub proof fn lemma_insert_take_restores<S>(
    cache: Map<SessionKeyView, Seq<S>>,
    capacity: nat,
    key: SessionKeyView,
    session: S,
)
    requires
        bounded(cache, capacity),
        queue_of(cache, key).len() < capacity,
    ensures
        cache_after_take(cache_after_insert(cache, capacity, key, session), key) == cache,
{
    let queue = queue_of(cache, key);
    let after = cache_after_take(cache_after_insert(cache, capacity, key, session), key);
    assert(queue.push(session).drop_last() =~= queue);
    if cache.contains_key(key) {
        assert(queue.len() > 0);
    }
    assert(after =~= cache);
}

/// After any number of inserts under one key, that key holds the newest
/// `capacity` of the sessions it held before followed by those inserted,
/// and every other key holds what it held.
pub proof fn lemma_inserts_keep_newest<S>(
    cache: Map<SessionKeyView, Seq<S>>,
    capacity: nat,
    key: SessionKeyView,
    sessions: Seq<S>,
)
    requires
        bounded(cache, capacity),
    ensures
        bounded(cache_after_inserts(cache, capacity, key, sessions), capacity),
        queue_of(cache_after_inserts(cache, capacity, key, sessions), key) == newest(
            queue_of(cache, key) + sessions,
            capacity,
        ),
        cache_after_inserts(cache, capacity, key, sessions).remove(key) == cache.remove(key),
    decreases sessions.len(),
{
    let start = queue_of(cache, key);
    if cache.contains_key(key) {
        assert(start.len() <= capacity);
    }
    if sessions.len() == 0 {
        assert(start + sessions =~= start);
    } else {
        let earlier = cache_after_inserts(cache, capacity, key, sessions.drop_last());
        lemma_inserts_keep_newest(cache, capacity, key, sessions.drop_last());
        lemma_insert_bounded(earlier, capacity, key, sessions.last());
        let after = cache_after_inserts(cache, capacity, key, sessions);
        assert(after == cache_after_insert(earlier, capacity, key, sessions.last()));
        assert(start + sessions =~= (start + sessions.drop_last()).push(sessions.last()));
        if capacity == 0 {
            assert(!earlier.contains_key(key));
            assert(queue_of(after, key) =~= newest(start + sessions, capacity));
        } else {
            assert(queue_of(after, key) =~= newest(start + sessions, capacity));
            assert(after.remove(key) =~= earlier.remove(key));
        }
    }
}

/// A session that no key holds is handed out by no later take, as long as
/// it is not inserted again.
pub proof fn lemma_absent_never_returned<S>(
    cache: Map<SessionKeyView, Seq<S>>,
    capacity: nat,
    session: S,
    later: Seq<CacheOp<S>>,
)
    requires
        !holds(cache, session),
        forall|i: int|
            0 <= i < later.len() ==> (#[trigger] later[i] matches CacheOp::Insert(_, s) ==> s
                != session),
    ensures
        !holds(cache_after_ops(cache, capacity, later).0, session),
        cache_after_ops(cache, capacity, later).1.len() == later.len(),
        forall|i: int|
            0 <= i < later.len() ==> (#[trigger] cache_after_ops(cache, capacity, later).1[i])
                != Some(session),
    decreases later.len(),
{
    if later.len() > 0 {
        let front = later.drop_last();
        assert forall|i: int| 0 <= i < front.len() implies (#[trigger] front[i] matches CacheOp::Insert(
            _,
            s,
        ) ==> s != session) by {
            assert(front[i] == later[i]);
        }
        lemma_absent_never_returned(cache, capacity, session, front);
        let (earlier, handed) = cache_after_ops(cache, capacity, front);
        let (after, out) = cache_after_op(earlier, capacity, later.last());
        assert(cache_after_ops(cache, capacity, later) == (after, handed.push(out)));
        match later.last() {
            CacheOp::Insert(key, s) => {
                assert(later[later.len() - 1] == later.last());
                assert(s != session);
                if holds(after, session) {
                    let k = choose|k: SessionKeyView| #[trigger]
                        after.contains_key(k) && after[k].contains(session);
                    if k == key && capacity > 0 {
                        let queue = queue_of(earlier, key);
                        let grown = queue_after_insert(queue, capacity, s);
                        let at = choose|i: int| 0 <= i < grown.len() && grown[i] == session;
                        if queue.len() < capacity {
                            assert(queue[at] == session);
                        } else {
                            assert(queue[at + queue.len() - capacity + 1] == session);
                        }
                        assert(queue.contains(session));
                        assert(earlier.contains_key(key));
                    } else {
                        assert(earlier.contains_key(k));
                    }
                    assert(false);
                }
            },
            CacheOp::Take(key) => {
                if out == Some(session) {
                    assert(queue_of(earlier, key).last() == session);
                    assert(earlier.contains_key(key));
                    assert(earlier[key].contains(session));
                    assert(false);
                }
                if holds(after, session) {
                    let k = choose|k: SessionKeyView| #[trigger]
                        after.contains_key(k) && after[k].contains(session);
                    if k == key {
                        let queue = queue_of(earlier, key);
                        let at = choose|i: int|
                            0 <= i < queue.drop_last().len() && queue.drop_last()[i] == session;
                        assert(queue[at] == session);
                        assert(earlier.contains_key(key));
                    } else {
                        assert(earlier.contains_key(k));
                    }
                    assert(false);
                }
            },
        }
        let outs = cache_after_ops(cache, capacity, later).1;
        assert forall|i: int| 0 <= i < later.len() implies (#[trigger] outs[i]) != Some(
            session,
        ) by {
            if i < front.len() {
                assert(outs[i] == handed[i]);
            }
        }
    }
}

/// After one insert more than a key can hold, all under that key, the first
/// of the inserted sessions is handed out by no later take. "The first
/// session" is told from the others by its value: it differs from the
/// sessions inserted with it and after it, and no other key holds it.
pub proof fn lemma_evicted_never_returned<S>(
    cache: Map<SessionKeyView, Seq<S>>,
    capacity: nat,
    key: SessionKeyView,
    sessions: Seq<S>,
    later: Seq<CacheOp<S>>,
)
    requires
        bounded(cache, capacity),
        sessions.len() == capacity + 1,
        forall|i: int| 1 <= i < sessions.len() ==> (#[trigger] sessions[i]) != sessions[0],
        !holds(cache.remove(key), sessions[0]),
        forall|i: int|
            0 <= i < later.len() ==> (#[trigger] later[i] matches CacheOp::Insert(_, s) ==> s
                != sessions[0]),
    ensures
        queue_of(cache_after_inserts(cache, capacity, key, sessions), key) == sessions.subrange(
            1,
            sessions.len() as int,
        ),
        forall|i: int|
            0 <= i < later.len() ==> (#[trigger] cache_after_ops(
                cache_after_inserts(cache, capacity, key, sessions),
                capacity,
                later,
            ).1[i]) != Some(sessions[0]),
{
    let filled = cache_after_inserts(cache, capacity, key, sessions);
    let start = queue_of(cache, key);
    if cache.contains_key(key) {
        assert(start.len() <= capacity);
    }
    lemma_inserts_keep_newest(cache, capacity, key, sessions);
    let kept = sessions.subrange(1, sessions.len() as int);
    assert(newest(start + sessions, capacity) =~= kept);
    if holds(filled, sessions[0]) {
        let k = choose|k: SessionKeyView| #[trigger]
            filled.contains_key(k) && filled[k].contains(sessions[0]);
        if k == key {
            let at = choose|i: int| 0 <= i < kept.len() && kept[i] == sessions[0];
            assert(sessions[at + 1] == sessions[0]);
        } else {
            assert(filled.remove(key).contains_key(k));
            assert(cache.remove(key).contains_key(k));
            assert(filled.remove(key)[k] == filled[k]);
        }
        assert(false);
    }
    lemma_absent_never_returned(filled, capacity, sessions[0], later);
}

} // verus!
