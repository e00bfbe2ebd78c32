//! The single-flight response cache.
//!
//! Responses to GET requests are memoized by their exact URL. Each key moves through
//! `Absent -> Pending -> Ready -> Absent`: the first request for an absent key is told to
//! fetch and leaves the key pending; requests that arrive while it is pending join it and
//! wait; the fetch's completion hands its outcome to every waiter and, only when it
//! succeeded, leaves the response ready for later requests. A failure is never kept, so a
//! later request fetches again. Ready responses are bounded by a capacity, the oldest going
//! first, and can all be dropped at once.
//!
//! The table holds no lock and performs no I/O: whoever shares it keeps it behind one lock,
//! performs the fetches it asks for, and delivers outcomes to the waiters it hands back.
//! Waiters are opaque handles of type `W` (a channel's sending half, say).
use vstd::prelude::*;

use crate::error::Error;
use crate::keyed::{
    has_key, key_index, keys_unique, lemma_key_index, lemma_remove_keys, lemma_update_keys, position,
    without_key,
};

verus! {

/// A fetched response: its body and HTTP status.
pub struct Response {
    pub body: Vec<u8>,
    pub status: u16,
}

impl View for Response {
    type V = (Seq<u8>, u16);

    open spec fn view(&self) -> (Seq<u8>, u16) {
        (self.body@, self.status)
    }
}

impl Response {
    /// A copy of the response.
    pub fn duplicate(&self) -> (r: Response)
        ensures
            r@ == self@,
    {
        let body = self.body.clone();
        assert(body@ =~= self.body@);
        Response { body, status: self.status }
    }
}

/// What the cache tells a request to do.
pub enum Lookup {
    /// The response is ready: serve this copy, no fetch.
    Hit(Response),
    /// A fetch for the key is under way: wait for its outcome.
    Joined,
    /// Nothing is known of the key: fetch it, then call `finish`.
    Fetch,
}

/// The lookup as the laws see it.
pub enum LookupModel {
    Hit((Seq<u8>, u16)),
    Joined,
    Fetch,
}

/// The view of a lookup.
pub open spec fn lookup_view(l: Lookup) -> LookupModel {
    match l {
        Lookup::Hit(r) => LookupModel::Hit(r@),
        Lookup::Joined => LookupModel::Joined,
        Lookup::Fetch => LookupModel::Fetch,
    }
}

/// Ready responses by key, oldest first.
pub type ReadyModel = Seq<(Seq<char>, (Seq<u8>, u16))>;

/// Pending keys with their waiters in arrival order.
pub type PendingModel<W> = Seq<(Seq<char>, Seq<W>)>;

/// The whole table: ready responses, pending keys, and the capacity.
pub type CacheModel<W> = (ReadyModel, PendingModel<W>, nat);

/// Well-formedness: keys unique within each part, no key both ready and pending, and no
/// more ready responses than the capacity.
pub open spec fn cache_wf<W>(m: CacheModel<W>) -> bool {
    &&& keys_unique(m.0)
    &&& keys_unique(m.1)
    &&& forall|k: Seq<char>| has_key(m.0, k) ==> !has_key(m.1, k)
    &&& m.0.len() <= m.2
}

/// A request for `k` registering `waiter`: the new table and what the request is told.
pub open spec fn begin_spec<W>(m: CacheModel<W>, k: Seq<char>, waiter: W) -> (
    CacheModel<W>,
    LookupModel,
) {
    if has_key(m.0, k) {
        (m, LookupModel::Hit(m.0[key_index(m.0, k)].1))
    } else if has_key(m.1, k) {
        let i = key_index(m.1, k);
        ((m.0, m.1.update(i, (k, m.1[i].1.push(waiter))), m.2), LookupModel::Joined)
    } else {
        ((m.0, m.1.push((k, Seq::empty())), m.2), LookupModel::Fetch)
    }
}

/// Ready responses after storing `v` under `k`: any older entry for `k` goes, and at
/// capacity the oldest entry is evicted; with no capacity nothing is stored.
pub open spec fn store_spec(ready: ReadyModel, k: Seq<char>, v: (Seq<u8>, u16), cap: nat) -> ReadyModel {
    let rest = without_key(ready, k);
    if cap == 0 {
        rest
    } else if rest.len() >= cap {
        rest.drop_first().push((k, v))
    } else {
        rest.push((k, v))
    }
}

/// The completion of the fetch for `k` with the response `outcome` (`None` for a failure):
/// the new table, and the waiters to hand the outcome to.
pub open spec fn finish_spec<W>(m: CacheModel<W>, k: Seq<char>, outcome: Option<(Seq<u8>, u16)>) -> (
    CacheModel<W>,
    Seq<W>,
) {
    let waiters = if has_key(m.1, k) {
        m.1[key_index(m.1, k)].1
    } else {
        Seq::empty()
    };
    let ready = match outcome {
        Some(v) => store_spec(m.0, k, v, m.2),
        None => m.0,
    };
    ((ready, without_key(m.1, k), m.2), waiters)
}

/// The table after every ready response is dropped.
pub open spec fn invalidate_spec<W>(m: CacheModel<W>) -> CacheModel<W> {
    (ReadyModel::empty(), m.1, m.2)
}

/// The table after requests for `k` registering each of `ws`, in order.
pub open spec fn begin_all<W>(m: CacheModel<W>, k: Seq<char>, ws: Seq<W>) -> CacheModel<W>
    decreases ws.len(),
{
    if ws.len() == 0 {
        m
    } else {
        begin_all(begin_spec(m, k, ws[0]).0, k, ws.drop_first())
    }
}

/// Whether each of the requests for `k` registering `ws`, in order, is told to wait.
pub open spec fn all_joined<W>(m: CacheModel<W>, k: Seq<char>, ws: Seq<W>) -> bool
    decreases ws.len(),
{
    ws.len() == 0 || (begin_spec(m, k, ws[0]).1 == LookupModel::Joined && all_joined(
        begin_spec(m, k, ws[0]).0,
        k,
        ws.drop_first(),
    ))
}

/// The view of a fetch outcome: the response, or `None` for a failure.
pub open spec fn outcome_view(o: Result<Response, Error>) -> Option<(Seq<u8>, u16)> {
    match o {
        Ok(r) => Some(r@),
        Err(_) => None,
    }
}

/// A request for a pending key joins it: the table keeps its keys and the key's waiters
/// gain the new one.
proof fn lemma_join_step<W>(m: CacheModel<W>, k: Seq<char>, w: W)
    requires
        cache_wf(m),
        !has_key(m.0, k),
        has_key(m.1, k),
    ensures
        begin_spec(m, k, w).1 == LookupModel::Joined,
        cache_wf(begin_spec(m, k, w).0),
        begin_spec(m, k, w).0.0 == m.0,
        begin_spec(m, k, w).0.2 == m.2,
        has_key(begin_spec(m, k, w).0.1, k),
        begin_spec(m, k, w).0.1[key_index(begin_spec(m, k, w).0.1, k)].1 == m.1[key_index(m.1, k)].1.push(w),
{
    let i = key_index(m.1, k);
    let e = (k, m.1[i].1.push(w));
    lemma_update_keys(m.1, i, e);
}

proof fn lemma_joins<W>(m: CacheModel<W>, k: Seq<char>, ws: Seq<W>)
    requires
        cache_wf(m),
        !has_key(m.0, k),
        has_key(m.1, k),
    ensures
        all_joined(m, k, ws),
        cache_wf(begin_all(m, k, ws)),
        begin_all(m, k, ws).0 == m.0,
        has_key(begin_all(m, k, ws).1, k),
        begin_all(m, k, ws).1[key_index(begin_all(m, k, ws).1, k)].1 == m.1[key_index(m.1, k)].1 + ws,
    decreases ws.len(),
{
    if ws.len() == 0 {
        assert(m.1[key_index(m.1, k)].1 + ws =~= m.1[key_index(m.1, k)].1);
    } else {
        lemma_join_step(m, k, ws[0]);
        let m1 = begin_spec(m, k, ws[0]).0;
        lemma_joins(m1, k, ws.drop_first());
        assert(m.1[key_index(m.1, k)].1.push(ws[0]) + ws.drop_first() =~= m.1[key_index(m.1, k)].1 + ws);
    }
}

/// Single flight: the first request for a key that is neither ready nor pending is told to
/// fetch; every request for it that arrives before the fetch completes is told to wait, none
/// to fetch again; and the completion, whatever its outcome, hands that outcome to exactly
/// those waiters, in arrival order.
pub proof fn lemma_single_flight<W>(
    m: CacheModel<W>,
    k: Seq<char>,
    first: W,
    ws: Seq<W>,
    outcome: Option<(Seq<u8>, u16)>,
)
    requires
        cache_wf(m),
        !has_key(m.0, k),
        !has_key(m.1, k),
    ensures
        begin_spec(m, k, first).1 == LookupModel::Fetch,
        all_joined(begin_spec(m, k, first).0, k, ws),
        finish_spec(begin_all(begin_spec(m, k, first).0, k, ws), k, outcome).1 == ws,
{
    let m1 = begin_spec(m, k, first).0;
    assert(m1.1 == m.1.push((k, Seq::<W>::empty())));
    let last = m.1.len() as int;
    assert(m1.1[last].0 == k);
    assert(keys_unique(m1.1)) by {
        assert forall|a: int, b: int| 0 <= a < m1.1.len() && 0 <= b < m1.1.len() && a != b implies #[trigger] m1.1[a].0
            != #[trigger] m1.1[b].0 by {
            if a < last && b < last {
            } else if a < last {
                assert(m.1[a].0 != k);
            } else {
                assert(m.1[b].0 != k);
            }
        }
    }
    assert(cache_wf(m1)) by {
        assert forall|k2: Seq<char>| has_key(m1.0, k2) implies !has_key(m1.1, k2) by {
            if has_key(m1.1, k2) {
                let j = choose|j: int| 0 <= j < m1.1.len() && #[trigger] m1.1[j].0 == k2;
                if j < last {
                    assert(m.1[j].0 == k2);
                }
            }
        }
    }
    lemma_key_index(m1.1, k, last);
    lemma_joins(m1, k, ws);
    assert(Seq::<W>::empty() + ws =~= ws);
}

/// A successful completion is served afterwards: the next request for the key gets the
/// fetched response without fetching, when the capacity allows any response to be kept.
pub proof fn lemma_success_is_served<W>(m: CacheModel<W>, k: Seq<char>, v: (Seq<u8>, u16), w: W)
    requires
        cache_wf(m),
        m.2 > 0,
    ensures
        begin_spec(finish_spec(m, k, Some(v)).0, k, w).1 == LookupModel::Hit(v),
{
    let rest = without_key(m.0, k);
    if has_key(m.0, k) {
        lemma_remove_keys(m.0, key_index(m.0, k));
    }
    assert(!has_key(rest, k));
    let kept = if rest.len() >= m.2 {
        rest.drop_first()
    } else {
        rest
    };
    assert(!has_key(kept, k)) by {
        if has_key(kept, k) {
            let j = choose|j: int| 0 <= j < kept.len() && #[trigger] kept[j].0 == k;
            if rest.len() >= m.2 {
                assert(rest[j + 1].0 == k);
            }
        }
    }
    let ready = kept.push((k, v));
    assert(ready == store_spec(m.0, k, v, m.2));
    let last = kept.len() as int;
    assert(ready[last].0 == k);
    assert(has_key(ready, k));
    let j = key_index(ready, k);
    if j != last {
        assert(kept[j].0 == k);
    }
}

/// A failed completion is not kept: the next request for the key is told to fetch again.
pub proof fn lemma_failure_not_kept<W>(m: CacheModel<W>, k: Seq<char>, w: W)
    requires
        cache_wf(m),
        !has_key(m.0, k),
    ensures
        begin_spec(finish_spec(m, k, None).0, k, w).1 == LookupModel::Fetch,
{
    if has_key(m.1, k) {
        lemma_remove_keys(m.1, key_index(m.1, k));
        let i = key_index(m.1, k);
        assert(m.1[i].0 == k);
    }
    assert(!has_key(without_key(m.1, k), k));
}

/// After every ready response is dropped, the next request for a key that is not pending
/// is told to fetch, whether or not its response was kept before.
pub proof fn lemma_invalidate_forces_fetch<W>(m: CacheModel<W>, k: Seq<char>, w: W)
    requires
        cache_wf(m),
        !has_key(m.1, k),
    ensures
        cache_wf(invalidate_spec(m)),
        begin_spec(invalidate_spec(m), k, w).1 == LookupModel::Fetch,
{
}

/// A URL-keyed single-flight table of responses.
pub struct ResponseCache<W> {
    ready: Vec<(String, Response)>,
    pending: Vec<(String, Vec<W>)>,
    capacity: usize,
}

impl<W> View for ResponseCache<W> {
    type V = CacheModel<W>;

    closed spec fn view(&self) -> CacheModel<W> {
        (
            self.ready@.map_values(|e: (String, Response)| (e.0@, e.1@)),
            self.pending@.map_values(|e: (String, Vec<W>)| (e.0@, e.1@)),
            self.capacity as nat,
        )
    }
}

impl<W> ResponseCache<W> {
    /// Whether the table is well formed.
    pub open spec fn wf(&self) -> bool {
        cache_wf(self@)
    }

    /// An empty table that keeps at most `capacity` ready responses.
    pub fn new(capacity: usize) -> (r: Self)
        ensures
            r.wf(),
            r@ == (ReadyModel::empty(), PendingModel::<W>::empty(), capacity as nat),
    {
        let r = ResponseCache { ready: Vec::new(), pending: Vec::new(), capacity };
        assert(r@.0 =~= ReadyModel::empty());
        assert(r@.1 =~= PendingModel::<W>::empty());
        r
    }

    /// A request for `key`, atomically: a ready response is served; a pending key gains
    /// `waiter`; an absent key becomes pending and the request is told to fetch it.
    pub fn begin(&mut self, key: &String, waiter: W) -> (r: Lookup)
        requires
            old(self).wf(),
        ensures
            final(self).wf(),
            (final(self)@, lookup_view(r)) == begin_spec(old(self)@, key@, waiter),
    {
        let ghost m = self@;
        match position(&self.ready, key) {
            Some(i) => {
                proof {
                    assert(m.0[i as int].0 == key@);
                    lemma_key_index(m.0, key@, i as int);
                }
                Lookup::Hit(self.ready[i].1.duplicate())
            },
            None => {
                assert(!has_key(m.0, key@));
                match position(&self.pending, key) {
                    Some(i) => {
                        proof {
                            assert(m.1[i as int].0 == key@);
                            lemma_key_index(m.1, key@, i as int);
                        }
                        let (k, mut ws) = self.pending.remove(i);
                        ws.push(waiter);
                        self.pending.insert(i, (k, ws));
                        proof {
                            assert(self@.1 =~= m.1.update(i as int, (key@, m.1[i as int].1.push(waiter))));
                            assert(self@.0 == m.0);
                            assert forall|k2: Seq<char>| has_key(self@.1, k2) <==> has_key(m.1, k2) by {
                                if has_key(self@.1, k2) {
                                    let j = choose|j: int| 0 <= j < self@.1.len() && #[trigger] self@.1[j].0 == k2;
                                    assert(m.1[j].0 == k2);
                                }
                                if has_key(m.1, k2) {
                                    let j = choose|j: int| 0 <= j < m.1.len() && #[trigger] m.1[j].0 == k2;
                                    assert(self@.1[j].0 == k2);
                                }
                            }
                        }
                        Lookup::Joined
                    },
                    None => {
                        assert(!has_key(m.1, key@));
                        self.pending.push((key.clone(), Vec::new()));
                        proof {
                            assert(self@.1 =~= m.1.push((key@, Seq::empty())));
                            assert(self@.0 == m.0);
                            assert forall|k2: Seq<char>| has_key(self@.1, k2) <==> (has_key(m.1, k2) || k2 == key@) by {
                                if has_key(self@.1, k2) {
                                    let j = choose|j: int| 0 <= j < self@.1.len() && #[trigger] self@.1[j].0 == k2;
                                    if j < m.1.len() {
                                        assert(m.1[j].0 == k2);
                                    }
                                }
                                if has_key(m.1, k2) {
                                    let j = choose|j: int| 0 <= j < m.1.len() && #[trigger] m.1[j].0 == k2;
                                    assert(self@.1[j].0 == k2);
                                }
                                if k2 == key@ {
                                    assert(self@.1[m.1.len() as int].0 == k2);
                                }
                            }
                        }
                        Lookup::Fetch
                    },
                }
            },
        }
    }

    /// The completion of the fetch for `key`: hands back its waiters, in arrival order, and
    /// keeps the response only when the fetch succeeded.
    pub fn finish(&mut self, key: &String, outcome: &Result<Response, Error>) -> (r: Vec<W>)
        requires
            old(self).wf(),
        ensures
            final(self).wf(),
            (final(self)@, r@) == finish_spec(old(self)@, key@, outcome_view(*outcome)),
    {
        let ghost m = self@;
        let waiters = match position(&self.pending, key) {
            Some(i) => {
                proof {
                    assert(m.1[i as int].0 == key@);
                    lemma_key_index(m.1, key@, i as int);
                    lemma_remove_keys(m.1, i as int);
                }
                let (_, ws) = self.pending.remove(i);
                assert(self@.1 =~= m.1.remove(i as int));
                ws
            },
            None => {
                assert(!has_key(m.1, key@));
                Vec::new()
            },
        };
        assert(self@.1 == without_key(m.1, key@));
        assert(forall|k2: Seq<char>| has_key(self@.1, k2) ==> has_key(m.1, k2) && k2 != key@);
        match outcome {
            Ok(resp) => {
                self.store(key, resp);
            },
            Err(_) => {},
        }
        waiters
    }

    /// Keeps `resp` as the ready response for `key`, evicting the oldest at capacity.
    fn store(&mut self, key: &String, resp: &Response)
        requires
            keys_unique(old(self)@.0),
            old(self)@.0.len() <= old(self)@.2,
        ensures
            final(self)@ == (store_spec(old(self)@.0, key@, resp@, old(self)@.2), old(self)@.1, old(self)@.2),
            keys_unique(final(self)@.0),
            final(self)@.0.len() <= final(self)@.2,
            forall|k2: Seq<char>| has_key(final(self)@.0, k2) ==> has_key(old(self)@.0, k2) || k2 == key@,
    {
        let ghost m = self@;
        match position(&self.ready, key) {
            Some(i) => {
                proof {
                    assert(m.0[i as int].0 == key@);
                    lemma_key_index(m.0, key@, i as int);
                    lemma_remove_keys(m.0, i as int);
                }
                self.ready.remove(i);
                assert(self@.0 =~= m.0.remove(i as int));
            },
            None => {
                assert(!has_key(m.0, key@));
            },
        }
        let ghost rest = self@.0;
        assert(rest == without_key(m.0, key@));
        assert(!has_key(rest, key@));
        if self.capacity == 0 {
            return;
        }
        if self.ready.len() >= self.capacity {
            proof {
                lemma_remove_keys(rest, 0);
            }
            self.ready.remove(0);
            assert(self@.0 =~= rest.remove(0));
            assert(rest.remove(0) =~= rest.drop_first());
        }
        let ghost kept = self@.0;
        self.ready.push((key.clone(), resp.duplicate()));
        proof {
            assert(self@.0 =~= kept.push((key@, resp@)));
            assert(!has_key(kept, key@));
            assert forall|k2: Seq<char>| has_key(self@.0, k2) implies has_key(kept, k2) || k2 == key@ by {
                if has_key(self@.0, k2) {
                    let j = choose|j: int| 0 <= j < self@.0.len() && #[trigger] self@.0[j].0 == k2;
                    if j < kept.len() {
                        assert(kept[j].0 == k2);
                    }
                }
            }
            assert forall|a: int, b: int| 0 <= a < self@.0.len() && 0 <= b < self@.0.len() && a != b
                implies #[trigger] self@.0[a].0 != #[trigger] self@.0[b].0 by {
                if a < kept.len() && b < kept.len() {
                } else if a < kept.len() {
                    assert(kept[a].0 != key@);
                } else if b < kept.len() {
                    assert(kept[b].0 != key@);
                }
            }
        }
    }

    /// Drops every ready response; pending fetches are left to complete.
    pub fn invalidate_all(&mut self)
        requires
            old(self).wf(),
        ensures
            final(self).wf(),
            final(self)@ == invalidate_spec(old(self)@),
    {
        self.ready.clear();
        assert(self@.0 =~= ReadyModel::empty());
    }
}

} // verus!
