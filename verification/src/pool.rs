//! The pool of idle connections.

use crate::config::Config;
use crate::text::str_eq;
use crate::time::{duration_nanos, Instant};
use std::time::Duration;
use vstd::prelude::*;

verus! {

/// The scheme of a request.
#[derive(Debug, Clone, Copy, PartialEq, Eq, Structural)]
pub enum Scheme {
    Http,
    Https,
}

/// What decides whether two requests can share a connection.
#[derive(Debug)]
pub struct PoolKey {
    pub scheme: Scheme,
    pub host: String,
    pub port: u16,
    /// The proxy that the connection runs through, if any.
    pub proxy: Option<String>,
    /// A fingerprint of the TLS settings that the connection was made with.
    pub tls_profile: u64,
}

/// A pool key as a value: two keys are the same key where these are equal.
pub struct KeyView {
    pub scheme: Scheme,
    pub host: Seq<char>,
    pub port: u16,
    pub proxy: Option<Seq<char>>,
    pub tls_profile: u64,
}

impl View for PoolKey {
    type V = KeyView;

    open spec fn view(&self) -> KeyView {
        KeyView {
            scheme: self.scheme,
            host: self.host@,
            port: self.port,
            proxy: match self.proxy {
                Some(p) => Some(p@),
                None => None,
            },
            tls_profile: self.tls_profile,
        }
    }
}

impl PoolKey {
    /// Whether `other` is the same key: equal in every part.
    pub fn same(&self, other: &PoolKey) -> (r: bool)
        ensures
            r == (self@ == other@),
    {
        let proxies = match (&self.proxy, &other.proxy) {
            (Some(a), Some(b)) => str_eq(a.as_str(), b.as_str()),
            (None, None) => true,
            _ => false,
        };
        self.scheme == other.scheme && str_eq(self.host.as_str(), other.host.as_str())
            && self.port == other.port
            && proxies && self.tls_profile == other.tls_profile
    }
}

impl Clone for PoolKey {
    fn clone(&self) -> (r: Self)
        ensures
            r@ == self@,
    {
        PoolKey {
            scheme: self.scheme,
            host: self.host.clone(),
            port: self.port,
            proxy: match &self.proxy {
                Some(p) => Some(p.clone()),
                None => None,
            },
            tls_profile: self.tls_profile,
        }
    }
}

/// A connection: a transport of type `T`, with what the pool needs to know
/// of it.
pub struct Connection<T> {
    pub transport: T,
    pub key: PoolKey,
    pub created: Instant,
    pub last_use: Instant,
}

/// Whether a connection last used at `last_use` is too old at `now`.
pub open spec fn is_expired(last_use: Instant, now: Instant, max_age: nat) -> bool {
    now.since(last_use) > max_age
}

/// The connections of `s` that are not too old at `now`, in their order.
pub open spec fn fresh<T>(s: Seq<Connection<T>>, now: Instant, max_age: nat) -> Seq<Connection<T>>
    decreases s.len(),
{
    if s.len() == 0 {
        Seq::empty()
    } else if is_expired(s.last().last_use, now, max_age) {
        fresh(s.drop_last(), now, max_age)
    } else {
        fresh(s.drop_last(), now, max_age).push(s.last())
    }
}

/// The connections of `s` that are too old at `now`, in their order.
pub open spec fn stale<T>(s: Seq<Connection<T>>, now: Instant, max_age: nat) -> Seq<Connection<T>>
    decreases s.len(),
{
    if s.len() == 0 {
        Seq::empty()
    } else if is_expired(s.last().last_use, now, max_age) {
        stale(s.drop_last(), now, max_age).push(s.last())
    } else {
        stale(s.drop_last(), now, max_age)
    }
}

/// How many connections of `s` have the key `k`.
pub open spec fn count_key<T>(s: Seq<Connection<T>>, k: KeyView) -> nat
    decreases s.len(),
{
    if s.len() == 0 {
        0
    } else {
        count_key(s.drop_last(), k) + if s.last().key@ == k {
            1nat
        } else {
            0nat
        }
    }
}

/// The index of the first connection of `s` with the key `k`; the length of
/// `s` where it has none.
pub open spec fn first_with_key<T>(s: Seq<Connection<T>>, k: KeyView) -> int
    decreases s.len(),
{
    if s.len() == 0 {
        0
    } else if s[0].key@ == k {
        0
    } else {
        1 + first_with_key(s.drop_first(), k)
    }
}

/// The index of the last connection of `s` with the key `k`; -1 where it
/// has none.
pub open spec fn last_with_key<T>(s: Seq<Connection<T>>, k: KeyView) -> int
    decreases s.len(),
{
    if s.len() == 0 {
        -1
    } else if s.last().key@ == k {
        s.len() - 1
    } else {
        last_with_key(s.drop_last(), k)
    }
}

/// Every connection of `s` was used no longer than `max_age` before `now`.
pub open spec fn all_fresh<T>(s: Seq<Connection<T>>, now: Instant, max_age: nat) -> bool {
    forall|i: int| 0 <= i < s.len() ==> !is_expired(#[trigger] s[i].last_use, now, max_age)
}

/// No key has more than `per_host` connections in `s`.
pub open spec fn within_host_cap<T>(s: Seq<Connection<T>>, per_host: nat) -> bool {
    forall|k: KeyView| #[trigger] count_key(s, k) <= per_host
}

/// The idle connections after one was released: the released one in front
/// of those that are still fresh; without the oldest of its key, where the
/// key now has more than `per_host`; and without the least recently used of
/// all, where there are then more than `max_idle`.
pub open spec fn after_release<T>(
    idle: Seq<Connection<T>>,
    conn: Connection<T>,
    now: Instant,
    max_age: nat,
    per_host: nat,
    max_idle: nat,
) -> Seq<Connection<T>> {
    capped(capped_for_key(entered(idle, conn, now, max_age), conn.key@, per_host), max_idle)
}

/// The released connection, stamped with `now`, in front of the connections
/// that are still fresh.
pub open spec fn entered<T>(
    idle: Seq<Connection<T>>,
    conn: Connection<T>,
    now: Instant,
    max_age: nat,
) -> Seq<Connection<T>> {
    seq![Connection { last_use: now, ..conn }] + fresh(idle, now, max_age)
}

/// `s` without the oldest connection of the key `k`, where `k` has more
/// than `per_host` connections.
pub open spec fn capped_for_key<T>(s: Seq<Connection<T>>, k: KeyView, per_host: nat) -> Seq<
    Connection<T>,
> {
    if count_key(s, k) > per_host {
        s.remove(last_with_key(s, k))
    } else {
        s
    }
}

/// `s` without its last connection, where it has more than `max_idle`.
pub open spec fn capped<T>(s: Seq<Connection<T>>, max_idle: nat) -> Seq<Connection<T>> {
    if s.len() > max_idle {
        s.drop_last()
    } else {
        s
    }
}

/// What a release puts out of the pool: the stale connections, then the one
/// that the cap of the key pushes out, then the one that the cap of the pool
/// pushes out.
pub open spec fn evicted_by_release<T>(
    idle: Seq<Connection<T>>,
    conn: Connection<T>,
    now: Instant,
    max_age: nat,
    per_host: nat,
    max_idle: nat,
) -> Seq<Connection<T>> {
    let s1 = entered(idle, conn, now, max_age);
    let s2 = capped_for_key(s1, conn.key@, per_host);
    let by_key = if count_key(s1, conn.key@) > per_host {
        seq![s1[last_with_key(s1, conn.key@)]]
    } else {
        Seq::empty()
    };
    let by_pool = if s2.len() > max_idle {
        seq![s2.last()]
    } else {
        Seq::empty()
    };
    stale(idle, now, max_age) + by_key + by_pool
}

pub proof fn lemma_fresh<T>(s: Seq<Connection<T>>, now: Instant, max_age: nat)
    ensures
        fresh(s, now, max_age).len() <= s.len(),
        fresh(s, now, max_age).len() + stale(s, now, max_age).len() == s.len(),
        all_fresh(fresh(s, now, max_age), now, max_age),
        forall|k: KeyView| #[trigger]
            count_key(fresh(s, now, max_age), k) <= count_key(s, k),
    decreases s.len(),
{
    if s.len() > 0 {
        lemma_fresh(s.drop_last(), now, max_age);
        let f = fresh(s, now, max_age);
        let rest = fresh(s.drop_last(), now, max_age);
        if !is_expired(s.last().last_use, now, max_age) {
            assert(f.drop_last() =~= rest);
            assert forall|k: KeyView| #[trigger] count_key(f, k) <= count_key(s, k) by {
                assert(count_key(rest, k) <= count_key(s.drop_last(), k));
            }
        } else {
            assert forall|k: KeyView| #[trigger] count_key(f, k) <= count_key(s, k) by {
                assert(count_key(rest, k) <= count_key(s.drop_last(), k));
            }
        }
    }
}

pub proof fn lemma_count_bound<T>(s: Seq<Connection<T>>, k: KeyView)
    ensures
        count_key(s, k) <= s.len(),
        count_key(s, k) > 0 <==> 0 <= last_with_key(s, k) < s.len(),
        count_key(s, k) == 0 <==> last_with_key(s, k) == -1,
        last_with_key(s, k) >= 0 ==> s[last_with_key(s, k)].key@ == k,
        -1 <= last_with_key(s, k) < s.len(),
    decreases s.len(),
{
    if s.len() > 0 {
        lemma_count_bound(s.drop_last(), k);
    }
}

pub proof fn lemma_count_front<T>(c: Connection<T>, s: Seq<Connection<T>>, k: KeyView)
    ensures
        count_key(seq![c] + s, k) == count_key(s, k) + if c.key@ == k {
            1nat
        } else {
            0nat
        },
    decreases s.len(),
{
    let all = seq![c] + s;
    if s.len() == 0 {
        assert(all.drop_last() =~= Seq::<Connection<T>>::empty());
        assert(all.last() == c);
        assert(count_key(all.drop_last(), k) == 0);
    } else {
        lemma_count_front(c, s.drop_last(), k);
        assert(all.drop_last() =~= seq![c] + s.drop_last());
        assert(all.last() == s.last());
    }
}

pub proof fn lemma_count_remove<T>(s: Seq<Connection<T>>, i: int, k: KeyView)
    requires
        0 <= i < s.len(),
    ensures
        count_key(s.remove(i), k) + (if s[i].key@ == k {
            1nat
        } else {
            0nat
        }) == count_key(s, k),
    decreases s.len(),
{
    if i == s.len() - 1 {
        assert(s.remove(i) =~= s.drop_last());
    } else {
        lemma_count_remove(s.drop_last(), i, k);
        assert(s.remove(i).drop_last() =~= s.drop_last().remove(i));
        assert(s.remove(i).last() == s.last());
    }
}

/// The caps and the age bound that every pool keeps.
pub open spec fn pool_invariant<T>(
    idle: Seq<Connection<T>>,
    at: Instant,
    max_age: nat,
    per_host: nat,
    max_idle: nat,
) -> bool {
    &&& idle.len() <= max_idle
    &&& within_host_cap(idle, per_host)
    &&& all_fresh(idle, at, max_age)
}

/// Taking a connection out keeps the invariant.
pub proof fn lemma_remove_keeps<T>(
    s: Seq<Connection<T>>,
    i: int,
    at: Instant,
    max_age: nat,
    per_host: nat,
    max_idle: nat,
)
    requires
        0 <= i < s.len(),
        within_host_cap(s, per_host),
        all_fresh(s, at, max_age),
    ensures
        within_host_cap(s.remove(i), per_host),
        all_fresh(s.remove(i), at, max_age),
{
    assert forall|k: KeyView| #[trigger] count_key(s.remove(i), k) <= per_host by {
        lemma_count_remove(s, i, k);
        assert(count_key(s, k) <= per_host);
    }
    assert forall|j: int| 0 <= j < s.remove(i).len() implies !is_expired(
        #[trigger] s.remove(i)[j].last_use,
        at,
        max_age,
    ) by {
        if j < i {
            assert(s.remove(i)[j] == s[j]);
        } else {
            assert(s.remove(i)[j] == s[j + 1]);
        }
    }
}

/// The state after a release keeps the caps and the age bound, at the time
/// of the release.
pub proof fn lemma_release_keeps<T>(
    idle: Seq<Connection<T>>,
    conn: Connection<T>,
    now: Instant,
    max_age: nat,
    per_host: nat,
    max_idle: nat,
)
    requires
        idle.len() <= max_idle,
        within_host_cap(idle, per_host),
    ensures
        pool_invariant(
            after_release(idle, conn, now, max_age, per_host, max_idle),
            now,
            max_age,
            per_host,
            max_idle,
        ),
{
    let live = fresh(idle, now, max_age);
    let c = Connection { last_use: now, ..conn };
    let s1 = entered(idle, conn, now, max_age);
    let key = conn.key@;
    let s2 = capped_for_key(s1, key, per_host);
    let s3 = capped(s2, max_idle);
    lemma_fresh(idle, now, max_age);
    assert(all_fresh(s1, now, max_age)) by {
        assert forall|j: int| 0 <= j < s1.len() implies !is_expired(
            #[trigger] s1[j].last_use,
            now,
            max_age,
        ) by {
            if j > 0 {
                assert(s1[j] == live[j - 1]);
            }
        }
    }
    assert forall|k: KeyView| k != key implies #[trigger] count_key(s1, k) <= per_host by {
        lemma_count_front(c, live, k);
        assert(count_key(live, k) <= count_key(idle, k));
        assert(count_key(idle, k) <= per_host);
    }
    lemma_count_front(c, live, key);
    assert(count_key(live, key) <= count_key(idle, key));
    assert(count_key(idle, key) <= per_host);
    lemma_count_bound(s1, key);
    if count_key(s1, key) > per_host {
        let j = last_with_key(s1, key);
        lemma_count_remove(s1, j, key);
        assert forall|k: KeyView| #[trigger] count_key(s2, k) <= per_host by {
            lemma_count_remove(s1, j, k);
            if k != key {
                assert(count_key(s1, k) <= per_host);
            }
        }
        assert(all_fresh(s2, now, max_age)) by {
            assert forall|m: int| 0 <= m < s2.len() implies !is_expired(
                #[trigger] s2[m].last_use,
                now,
                max_age,
            ) by {
                if m < j {
                    assert(s2[m] == s1[m]);
                } else {
                    assert(s2[m] == s1[m + 1]);
                }
            }
        }
    } else {
        assert forall|k: KeyView| #[trigger] count_key(s2, k) <= per_host by {
            if k != key {
                assert(count_key(s1, k) <= per_host);
            }
        }
    }
    if s2.len() > max_idle {
        assert(s2.drop_last() =~= s2.remove(s2.len() - 1));
        lemma_remove_keeps(s2, s2.len() - 1, now, max_age, per_host, max_idle);
    }
}

/// Leaving the stale connections out keeps the caps and gives the age
/// bound, at the time of the access.
pub proof fn lemma_fresh_keeps<T>(
    idle: Seq<Connection<T>>,
    now: Instant,
    max_age: nat,
    per_host: nat,
    max_idle: nat,
)
    requires
        idle.len() <= max_idle,
        within_host_cap(idle, per_host),
    ensures
        pool_invariant(fresh(idle, now, max_age), now, max_age, per_host, max_idle),
{
    lemma_fresh(idle, now, max_age);
    let live = fresh(idle, now, max_age);
    assert forall|k: KeyView| #[trigger] count_key(live, k) <= per_host by {
        assert(count_key(live, k) <= count_key(idle, k));
        assert(count_key(idle, k) <= per_host);
    }
}

/// `s` is in order of use: no connection was used later than one that
/// stands before it.
pub open spec fn recent_first<T>(s: Seq<Connection<T>>) -> bool {
    forall|i: int, j: int|
        0 <= i < j < s.len() ==> (#[trigger] s[i]).last_use.nanos >= (#[trigger] s[j]).last_use.nanos
}

/// Every connection of `s` was last used between `lo` and `hi`.
pub open spec fn used_within<T>(s: Seq<Connection<T>>, lo: u64, hi: u64) -> bool {
    forall|i: int| 0 <= i < s.len() ==> lo <= (#[trigger] s[i]).last_use.nanos <= hi
}

/// Leaving the stale connections out keeps the times of use within their
/// bounds, and keeps the order of use.
pub proof fn lemma_fresh_keeps_order<T>(
    s: Seq<Connection<T>>,
    now: Instant,
    max_age: nat,
    lo: u64,
    hi: u64,
)
    requires
        used_within(s, lo, hi),
    ensures
        used_within(fresh(s, now, max_age), lo, hi),
        recent_first(s) ==> recent_first(fresh(s, now, max_age)),
    decreases s.len(),
{
    if s.len() > 0 {
        let rest = s.drop_last();
        let last = s.last();
        assert forall|i: int| 0 <= i < rest.len() implies lo <= (#[trigger] rest[i]).last_use.nanos
            <= hi by {
            assert(rest[i] == s[i]);
        }
        lemma_fresh_keeps_order(rest, now, max_age, lo, hi);
        if recent_first(s) {
            assert forall|i: int, j: int| 0 <= i < j < rest.len() implies (
            #[trigger] rest[i]).last_use.nanos >= (#[trigger] rest[j]).last_use.nanos by {
                assert(rest[i] == s[i] && rest[j] == s[j]);
            }
            assert forall|i: int| 0 <= i < rest.len() implies last.last_use.nanos <= (
            #[trigger] rest[i]).last_use.nanos <= hi by {
                assert(rest[i] == s[i]);
                assert(s[s.len() - 1] == last);
            }
            lemma_fresh_keeps_order(rest, now, max_age, last.last_use.nanos, hi);
        }
    }
}

/// Taking a connection out keeps the order of use, and the times of use
/// within their bounds.
pub proof fn lemma_remove_keeps_order<T>(s: Seq<Connection<T>>, i: int, lo: u64, hi: u64)
    requires
        0 <= i < s.len(),
        recent_first(s),
        used_within(s, lo, hi),
    ensures
        recent_first(s.remove(i)),
        used_within(s.remove(i), lo, hi),
{
    let t = s.remove(i);
    assert forall|a: int| 0 <= a < t.len() implies lo <= (#[trigger] t[a]).last_use.nanos <= hi by {
        if a < i {
            assert(t[a] == s[a]);
        } else {
            assert(t[a] == s[a + 1]);
        }
    }
    assert forall|a: int, b: int| 0 <= a < b < t.len() implies (#[trigger] t[a]).last_use.nanos >= (
    #[trigger] t[b]).last_use.nanos by {
        let a0 = if a < i {
            a
        } else {
            a + 1
        };
        let b0 = if b < i {
            b
        } else {
            b + 1
        };
        assert(t[a] == s[a0] && t[b] == s[b0]);
    }
}

/// A release at a time that is not before any last use keeps the order of
/// use, and no connection is then used after that time.
pub proof fn lemma_release_keeps_order<T>(
    idle: Seq<Connection<T>>,
    conn: Connection<T>,
    now: Instant,
    max_age: nat,
    per_host: nat,
    max_idle: nat,
)
    requires
        recent_first(idle),
        used_within(idle, 0, now.nanos),
    ensures
        recent_first(after_release(idle, conn, now, max_age, per_host, max_idle)),
        used_within(after_release(idle, conn, now, max_age, per_host, max_idle), 0, now.nanos),
{
    let live = fresh(idle, now, max_age);
    let s1 = entered(idle, conn, now, max_age);
    let key = conn.key@;
    let s2 = capped_for_key(s1, key, per_host);
    let s3 = capped(s2, max_idle);
    lemma_fresh_keeps_order(idle, now, max_age, 0, now.nanos);
    assert(recent_first(s1)) by {
        assert forall|i: int, j: int| 0 <= i < j < s1.len() implies (
        #[trigger] s1[i]).last_use.nanos >= (#[trigger] s1[j]).last_use.nanos by {
            assert(s1[j] == live[j - 1]);
            if i > 0 {
                assert(s1[i] == live[i - 1]);
            }
        }
    }
    assert(used_within(s1, 0, now.nanos)) by {
        assert forall|i: int| 0 <= i < s1.len() implies 0 <= (#[trigger] s1[i]).last_use.nanos
            <= now.nanos by {
            if i > 0 {
                assert(s1[i] == live[i - 1]);
            }
        }
    }
    lemma_count_bound(s1, key);
    if count_key(s1, key) > per_host {
        let j = last_with_key(s1, key);
        lemma_remove_keeps_order(s1, j, 0, now.nanos);
    }
    if s2.len() > max_idle {
        assert(s2.drop_last() =~= s2.remove(s2.len() - 1));
        lemma_remove_keeps_order(s2, s2.len() - 1, 0, now.nanos);
    }
}

/// The idle connections of an agent, most recently used first.
pub struct Pool<T> {
    idle: Vec<Connection<T>>,
    last_access: Instant,
    max_idle_connections: usize,
    max_idle_connections_per_host: usize,
    max_idle_age: Duration,
}

/// Parts `all` into the connections that are still fresh at `now` and those
/// that are stale, each in their order.
fn part_by_age<T>(all: Vec<Connection<T>>, now: Instant, max_age: Duration) -> (r: (
    Vec<Connection<T>>,
    Vec<Connection<T>>,
))
    ensures
        r.0@ == fresh(all@, now, duration_nanos(max_age)),
        r.1@ == stale(all@, now, duration_nanos(max_age)),
{
    let mut live: Vec<Connection<T>> = Vec::new();
    let mut dead: Vec<Connection<T>> = Vec::new();
    let ghost age = duration_nanos(max_age);
    let ghost whole = all@;
    for c in it: all
        invariant
            it.seq() == whole,
            age == duration_nanos(max_age),
            live@ == fresh(whole.take(it.index() as int), now, age),
            dead@ == stale(whole.take(it.index() as int), now, age),
    {
        proof {
            let i = it.index() as int;
            assert(whole.take(i + 1).drop_last() =~= whole.take(i));
            assert(whole.take(i + 1).last() == c);
        }
        if now.is_older_than(c.last_use, max_age) {
            dead.push(c);
        } else {
            live.push(c);
        }
    }
    proof {
        assert(whole.take(whole.len() as int) =~= whole);
    }
    (live, dead)
}

/// How many of `s` have the key `key`.
fn count_with_key<T>(s: &Vec<Connection<T>>, key: &PoolKey) -> (r: usize)
    ensures
        r == count_key(s@, key@),
{
    let mut n: usize = 0;
    let mut i: usize = 0;
    while i < s.len()
        invariant
            i <= s.len(),
            n <= i,
            n == count_key(s@.take(i as int), key@),
        decreases s.len() - i,
    {
        proof {
            assert(s@.take(i as int + 1).drop_last() =~= s@.take(i as int));
        }
        if s[i].key.same(key) {
            n += 1;
        }
        i += 1;
    }
    proof {
        assert(s@.take(s@.len() as int) =~= s@);
    }
    n
}

/// The index of the first of `s` with the key `key`, or the length of `s`.
fn find_first<T>(s: &Vec<Connection<T>>, key: &PoolKey) -> (r: usize)
    ensures
        r == first_with_key(s@, key@),
        r <= s.len(),
{
    let mut i: usize = 0;
    proof {
        assert(s@.skip(0) =~= s@);
    }
    while i < s.len() && !s[i].key.same(key)
        invariant
            i <= s.len(),
            first_with_key(s@, key@) == i + first_with_key(s@.skip(i as int), key@),
        decreases s.len() - i,
    {
        proof {
            assert(s@.skip(i as int).drop_first() =~= s@.skip(i as int + 1));
        }
        i += 1;
    }
    i
}

/// The index of the last of `s` with the key `key`, where there is one.
fn find_last<T>(s: &Vec<Connection<T>>, key: &PoolKey) -> (r: Option<usize>)
    ensures
        match r {
            Some(i) => i == last_with_key(s@, key@),
            None => last_with_key(s@, key@) == -1,
        },
{
    let mut i: usize = s.len();
    proof {
        assert(s@.take(s@.len() as int) =~= s@);
    }
    while i > 0 && !s[i - 1].key.same(key)
        invariant
            i <= s.len(),
            last_with_key(s@, key@) == last_with_key(s@.take(i as int), key@),
        decreases i,
    {
        proof {
            assert(s@.take(i as int).drop_last() =~= s@.take(i as int - 1));
        }
        i -= 1;
    }
    if i > 0 {
        Some(i - 1)
    } else {
        None
    }
}

impl<T> Pool<T> {
    /// The idle connections, most recently used first.
    pub closed spec fn idle(self) -> Seq<Connection<T>> {
        self.idle@
    }

    /// The time of the latest acquire or release.
    pub closed spec fn last_access(self) -> Instant {
        self.last_access
    }

    /// The cap on the idle connections of the pool.
    pub closed spec fn max_idle(self) -> nat {
        self.max_idle_connections as nat
    }

    /// The cap on the idle connections of one key.
    pub closed spec fn per_host(self) -> nat {
        self.max_idle_connections_per_host as nat
    }

    /// How long a connection may lie idle, in nanoseconds.
    pub closed spec fn max_age(self) -> nat {
        duration_nanos(self.max_idle_age)
    }

    /// What holds of every pool: no more idle connections than the pool's
    /// cap, no more of one key than the key's cap, none that was too old at
    /// the latest access, and all in order of use, the most recently used
    /// first, none used after the latest access. So the first connection of
    /// a key is the one of the key that was used most recently, the last of
    /// a key the one used least recently, and the last of all the one used
    /// least recently of all.
    pub open spec fn wf(self) -> bool {
        &&& pool_invariant(
            self.idle(),
            self.last_access(),
            self.max_age(),
            self.per_host(),
            self.max_idle(),
        )
        &&& recent_first(self.idle())
        &&& used_within(self.idle(), 0, self.last_access().nanos)
    }

    /// Whether `other` has the caps and the age bound of this pool.
    pub open spec fn same_limits(self, other: Self) -> bool {
        &&& self.max_idle() == other.max_idle()
        &&& self.per_host() == other.per_host()
        &&& self.max_age() == other.max_age()
    }

    /// An empty pool with the caps and the age bound of `config`.
    pub fn new(config: &Config) -> (r: Self)
        ensures
            r.idle() == Seq::<Connection<T>>::empty(),
            r.max_idle() == config.max_idle_connections,
            r.per_host() == config.max_idle_connections_per_host,
            r.max_age() == duration_nanos(config.max_idle_age),
            r.wf(),
    {
        let r = Pool {
            idle: Vec::new(),
            last_access: Instant { nanos: 0 },
            max_idle_connections: config.max_idle_connections,
            max_idle_connections_per_host: config.max_idle_connections_per_host,
            max_idle_age: config.max_idle_age,
        };
        assert forall|k: KeyView| #[trigger] count_key(r.idle(), k) <= r.per_host() by {
        }
        r
    }

    /// The time of the latest acquire or release.
    pub fn last_access_time(&self) -> (r: Instant)
        ensures
            r == self.last_access(),
    {
        self.last_access
    }

    /// The number of idle connections.
    pub fn len(&self) -> (n: usize)
        ensures
            n == self.idle().len(),
    {
        self.idle.len()
    }

    /// Takes the most recently used idle connection of `key` that is not
    /// too old at `now` out of the pool. Every connection that is too old at
    /// `now` leaves the pool as well, whatever its key, and is handed back
    /// beside the result, to be closed. The clock is monotonic: `now` is not
    /// before the latest access.
    pub fn acquire(&mut self, key: &PoolKey, now: Instant) -> (r: (
        Option<Connection<T>>,
        Vec<Connection<T>>,
    ))
        requires
            old(self).wf(),
            now.nanos >= old(self).last_access().nanos,
        ensures
            final(self).wf(),
            final(self).same_limits(*old(self)),
            final(self).last_access() == now,
            r.1@ == stale(old(self).idle(), now, old(self).max_age()),
            ({
                let live = fresh(old(self).idle(), now, old(self).max_age());
                let i = first_with_key(live, key@);
                if i < live.len() {
                    r.0 == Some(live[i]) && final(self).idle() == live.remove(i)
                } else {
                    r.0 is None && final(self).idle() == live
                }
            }),
    {
        let mut all: Vec<Connection<T>> = Vec::new();
        core::mem::swap(&mut self.idle, &mut all);
        let (mut live, dead) = part_by_age(all, now, self.max_idle_age);
        proof {
            lemma_fresh_keeps(
                old(self).idle(),
                now,
                old(self).max_age(),
                old(self).per_host(),
                old(self).max_idle(),
            );
            assert(used_within(old(self).idle(), 0, now.nanos));
            lemma_fresh_keeps_order(old(self).idle(), now, old(self).max_age(), 0, now.nanos);
        }
        let i = find_first(&live, key);
        let found = if i < live.len() {
            proof {
                lemma_remove_keeps_order(live@, i as int, 0, now.nanos);
                lemma_remove_keeps(
                    live@,
                    i as int,
                    now,
                    old(self).max_age(),
                    old(self).per_host(),
                    old(self).max_idle(),
                );
            }
            Some(live.remove(i))
        } else {
            None
        };
        self.idle = live;
        self.last_access = now;
        (found, dead)
    }

    /// Puts `conn` into the pool as the most recently used connection, its
    /// last use stamped `now`. Every connection that is too old at `now`
    /// leaves the pool; then the oldest of the key of `conn`, where the key
    /// now has more than its cap; then the least recently used of all, where
    /// the pool still has more than its cap. What left is handed back, to be
    /// closed. The clock is monotonic: `now` is not before the latest
    /// access.
    pub fn release(&mut self, conn: Connection<T>, now: Instant) -> (evicted: Vec<Connection<T>>)
        requires
            old(self).wf(),
            now.nanos >= old(self).last_access().nanos,
        ensures
            final(self).wf(),
            final(self).same_limits(*old(self)),
            final(self).last_access() == now,
            final(self).idle() == after_release(
                old(self).idle(),
                conn,
                now,
                old(self).max_age(),
                old(self).per_host(),
                old(self).max_idle(),
            ),
            evicted@ == evicted_by_release(
                old(self).idle(),
                conn,
                now,
                old(self).max_age(),
                old(self).per_host(),
                old(self).max_idle(),
            ),
    {
        let mut all: Vec<Connection<T>> = Vec::new();
        core::mem::swap(&mut self.idle, &mut all);
        let (mut live, mut evicted) = part_by_age(all, now, self.max_idle_age);
        let key = conn.key.clone();
        let Connection { transport, key: own_key, created, last_use: _ } = conn;
        let entering = Connection { transport, key: own_key, created, last_use: now };
        live.insert(0, entering);
        proof {
            assert(live@ =~= entered(old(self).idle(), conn, now, old(self).max_age()));
            lemma_count_bound(live@, key@);
            assert(used_within(old(self).idle(), 0, now.nanos));
            lemma_release_keeps_order(
                old(self).idle(),
                conn,
                now,
                old(self).max_age(),
                old(self).per_host(),
                old(self).max_idle(),
            );
            lemma_release_keeps(
                old(self).idle(),
                conn,
                now,
                old(self).max_age(),
                old(self).per_host(),
                old(self).max_idle(),
            );
        }
        if count_with_key(&live, &key) > self.max_idle_connections_per_host {
            match find_last(&live, &key) {
                Some(j) => {
                    evicted.push(live.remove(j));
                },
                None => {},
            }
        }
        if live.len() > self.max_idle_connections {
            match live.pop() {
                Some(c) => {
                    evicted.push(c);
                },
                None => {},
            }
        }
        self.idle = live;
        self.last_access = now;
        proof {
            let s1 = entered(old(self).idle(), conn, now, old(self).max_age());
            let s2 = capped_for_key(s1, conn.key@, old(self).per_host());
            assert(evicted@ =~= evicted_by_release(
                old(self).idle(),
                conn,
                now,
                old(self).max_age(),
                old(self).per_host(),
                old(self).max_idle(),
            ));
        }
        evicted
    }

    /// Empties the pool; the connections it held are handed back, to be
    /// closed.
    pub fn clear(&mut self) -> (all: Vec<Connection<T>>)
        requires
            old(self).wf(),
        ensures
            final(self).wf(),
            final(self).same_limits(*old(self)),
            final(self).last_access() == old(self).last_access(),
            final(self).idle() == Seq::<Connection<T>>::empty(),
            all@ == old(self).idle(),
    {
        let mut all: Vec<Connection<T>> = Vec::new();
        core::mem::swap(&mut self.idle, &mut all);
        assert forall|k: KeyView| #[trigger] count_key(self.idle(), k) <= self.per_host() by {
        }
        all
    }
}

} // verus!
