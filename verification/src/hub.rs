//! The broadcast hub: the one shared primitive of the relay server.
//!
//! Any number of writers publish state strings; any number of viewer
//! sessions subscribe and each receives every value published after
//! its subscription, in publication order, with no backfill of earlier
//! values. The hub retains only a bounded backlog: a subscriber that
//! falls more than `capacity` values behind loses the oldest
//! undelivered ones and resumes at the oldest retained value, so a
//! slow or dead subscriber can never stall publishing or any other
//! subscriber. Publishing itself is total: it cannot fail and does not
//! depend on how many subscribers exist — the hub does not even track
//! them; a subscription is just a position in the publication history,
//! and dropping it is all the cleanup there is.
//!
//! The full publication history is carried as a ghost sequence so that
//! contracts can speak of every value ever published, while the
//! executable state keeps only the retained tail.

use vstd::prelude::*;

verus! {

/// The backlog bound the relay server builds its hub with.
pub const DEFAULT_CAPACITY: usize = 100;

/// The shared publish/subscribe primitive distributing state strings.
pub struct Hub {
    /// The retained values: the last `min(published, capacity)`
    /// entries of the publication history, in order.
    pub ring: Vec<String>,
    /// How many values have ever been published.
    pub published: usize,
    /// Bound on the backlog retained for a lagging subscriber.
    pub capacity: usize,
    /// Every value ever published, in publication order.
    pub history: Ghost<Seq<Seq<char>>>,
}

/// One viewer session's handle into the hub: the position in the
/// publication history of the next value it is owed.
pub struct Subscription {
    pub cursor: usize,
}

/// What one attempt to take the next value yields.
pub enum RecvOutcome {
    /// Nothing published beyond the subscriber's position yet; a live
    /// session suspends here until a value arrives.
    Pending,
    /// The subscriber fell behind the retained backlog; its position
    /// jumps forward to the oldest retained value, and the values
    /// skipped are lost to it.
    Lagged,
    /// The next value, in publication order.
    Arrived(String),
}

/// Where in `log` a subscriber at position `c` resumes: at `c` itself,
/// unless more than `cap` values are pending, in which case the oldest
/// pending ones are dropped and it resumes `cap` values from the end.
pub open spec fn start_index(log: Seq<Seq<char>>, c: nat, cap: nat) -> int {
    if log.len() - c > cap {
        log.len() - cap
    } else {
        c as int
    }
}

/// The exact sequence of values a subscriber at position `c` receives
/// when it drains a hub whose publication log is `log`: the contiguous
/// tail of the log from its resume point.
pub open spec fn delivered(log: Seq<Seq<char>>, c: nat, cap: nat) -> Seq<Seq<char>>
    recommends
        c <= log.len(),
{
    log.subrange(start_index(log, c, cap), log.len() as int)
}

impl Hub {
    /// The full publication history, in order.
    pub open spec fn log(self) -> Seq<Seq<char>> {
        self.history@
    }

    /// The retained ring is exactly the last `min(published,
    /// capacity)` entries of the history.
    pub open spec fn wf(self) -> bool {
        &&& self.capacity >= 1
        &&& self.history@.len() == self.published
        &&& self.ring@.len() == if self.published <= self.capacity {
            self.published as int
        } else {
            self.capacity as int
        }
        &&& self.ring.deep_view() == self.history@.subrange(
            self.published - self.ring@.len(),
            self.published as int,
        )
    }

    /// A fresh hub with the given backlog bound and nothing published.
    pub fn new(capacity: usize) -> (r: Hub)
        requires
            capacity >= 1,
        ensures
            r.wf(),
            r.log() == Seq::<Seq<char>>::empty(),
            r.capacity == capacity,
            r.published == 0,
    {
        let r = Hub {
            ring: Vec::new(),
            published: 0,
            capacity,
            history: Ghost(Seq::empty()),
        };
        proof {
            assert(r.ring.deep_view() =~= r.history@.subrange(0, 0));
        }
        r
    }

    /// A fresh hub with the relay server's default backlog bound.
    pub fn with_default_capacity() -> (r: Hub)
        ensures
            r.wf(),
            r.log() == Seq::<Seq<char>>::empty(),
            r.capacity == DEFAULT_CAPACITY,
            r.published == 0,
    {
        Hub::new(DEFAULT_CAPACITY)
    }

    /// Publish one value: append it to the history. Total — there is
    /// no failure path, and nothing about subscribers (the hub holds
    /// no subscriber state) can block or fail it; publishing with zero
    /// subscribers is the same append.
    pub fn publish(&mut self, value: String)
        requires
            old(self).wf(),
            old(self).published < usize::MAX,
        ensures
            final(self).wf(),
            final(self).log() == old(self).log().push(value@),
            final(self).capacity == old(self).capacity,
            final(self).published == old(self).published + 1,
    {
        let ghost v = value@;
        let ghost h0 = self.history@;
        let ghost r0 = self.ring.deep_view();
        let ghost p = self.published as int;
        let ghost l = self.ring@.len() as int;
        self.ring.push(value);
        proof {
            assert(self.ring.deep_view() =~= r0.push(v));
            assert(r0.push(v) =~= h0.push(v).subrange(p - l, p + 1));
        }
        if self.ring.len() > self.capacity {
            let ghost r1 = self.ring.deep_view();
            self.ring.remove(0);
            proof {
                assert(self.ring.deep_view() =~= r1.subrange(1, r1.len() as int));
                assert(r1.subrange(1, r1.len() as int) =~= h0.push(v).subrange(
                    p - l + 1,
                    p + 1,
                ));
            }
        }
        self.published = self.published + 1;
        self.history = Ghost(self.history@.push(v));
    }

    /// Open a subscription at the current end of the history: only
    /// values published from now on can ever reach it.
    pub fn subscribe(&self) -> (s: Subscription)
        ensures
            s.cursor == self.published,
    {
        Subscription { cursor: self.published }
    }
}

impl Subscription {
    /// The subscription points into the hub's history.
    pub open spec fn valid_for(self, hub: Hub) -> bool {
        self.cursor <= hub.published
    }

    /// One attempt to take the next value. Reads the hub only; another
    /// session's subscription, or the publisher, is untouched by it.
    pub fn try_recv(&mut self, hub: &Hub) -> (r: RecvOutcome)
        requires
            hub.wf(),
            old(self).valid_for(*hub),
        ensures
            final(self).valid_for(*hub),
            (match r {
                RecvOutcome::Pending => {
                    &&& old(self).cursor == hub.published
                    &&& final(self).cursor == old(self).cursor
                },
                RecvOutcome::Lagged => {
                    &&& hub.published - old(self).cursor > hub.capacity
                    &&& final(self).cursor + hub.capacity == hub.published
                },
                RecvOutcome::Arrived(v) => {
                    &&& old(self).cursor < hub.published
                    &&& hub.published - old(self).cursor <= hub.capacity
                    &&& v@ == hub.log()[old(self).cursor as int]
                    &&& final(self).cursor == old(self).cursor + 1
                },
            }),
    {
        if self.cursor == hub.published {
            RecvOutcome::Pending
        } else if hub.published - self.cursor > hub.capacity {
            self.cursor = hub.published - hub.capacity;
            RecvOutcome::Lagged
        } else {
            let base = hub.published - hub.ring.len();
            let idx = self.cursor - base;
            let v = hub.ring[idx].clone();
            proof {
                assert(hub.ring.deep_view()[idx as int] == hub.log()[self.cursor as int]);
            }
            self.cursor = self.cursor + 1;
            RecvOutcome::Arrived(v)
        }
    }

    /// Drain everything currently pending, in publication order. The
    /// result is exactly the tail of the publication log from this
    /// subscription's resume point: each pending value within the
    /// backlog bound appears exactly once, and none from before the
    /// subscription's position.
    pub fn receive_available(&mut self, hub: &Hub) -> (r: Vec<String>)
        requires
            hub.wf(),
            old(self).valid_for(*hub),
        ensures
            final(self).cursor == hub.published,
            r.deep_view() == delivered(hub.log(), old(self).cursor as nat, hub.capacity as nat),
    {
        let ghost c0 = self.cursor as nat;
        let ghost start = start_index(hub.log(), c0, hub.capacity as nat);
        let mut r: Vec<String> = Vec::new();
        proof {
            assert(r.deep_view() =~= Seq::<Seq<char>>::empty());
        }
        while self.cursor < hub.published
            invariant
                hub.wf(),
                self.cursor <= hub.published,
                c0 <= hub.published,
                start == start_index(hub.log(), c0, hub.capacity as nat),
                (r@.len() == 0 && self.cursor == c0) || (self.cursor >= start
                    && r.deep_view() == hub.log().subrange(start, self.cursor as int)),
            decreases hub.published - self.cursor,
        {
            let ghost rv0 = r.deep_view();
            let ghost c_before = self.cursor as int;
            match self.try_recv(hub) {
                RecvOutcome::Pending => {
                    proof {
                        assert(false);
                    }
                },
                RecvOutcome::Lagged => {
                    proof {
                        assert(self.cursor >= start);
                        assert(rv0 =~= hub.log().subrange(start, self.cursor as int));
                    }
                },
                RecvOutcome::Arrived(v) => {
                    let ghost vv = v@;
                    r.push(v);
                    proof {
                        assert(r.deep_view() =~= rv0.push(vv));
                        if rv0.len() == 0 && c_before == c0 {
                            assert(start == c0) by {
                                assert(hub.log().len() - c0 <= hub.capacity);
                            }
                            assert(rv0 =~= hub.log().subrange(start, c_before));
                        }
                        assert(rv0.push(vv) =~= hub.log().subrange(start, c_before + 1));
                    }
                },
            }
        }
        proof {
            if r@.len() == 0 && self.cursor == c0 {
                assert(start == c0);
                assert(r.deep_view() =~= hub.log().subrange(start, self.cursor as int));
            }
            assert(hub.log().subrange(start, self.cursor as int) == delivered(
                hub.log(),
                c0,
                hub.capacity as nat,
            ));
        }
        r
    }
}

/// Fan-out is exact for every subscriber within the backlog bound:
/// whatever its position `c`, a subscriber that has not fallen behind
/// receives precisely the log's tail from `c` — each value published
/// at an index `i` after its subscription is delivered exactly once,
/// at position `i - c`, so all concurrently connected sessions observe
/// each published value, in publication order.
pub proof fn lemma_fanout_exactly_once(log: Seq<Seq<char>>, c: nat, cap: nat, i: int)
    requires
        c <= log.len(),
        log.len() - c <= cap,
        c <= i < log.len(),
    ensures
        delivered(log, c, cap) == log.subrange(c as int, log.len() as int),
        delivered(log, c, cap).len() == log.len() - c,
        delivered(log, c, cap)[i - c] == log[i],
        forall|j: int|
            0 <= j < delivered(log, c, cap).len() && j != i - c
                ==> #[trigger] delivered(log, c, cap)[j] == log[c + j] && c + j != i,
{
}

/// No backfill: every value a subscriber receives was published at or
/// after its subscription position — a session that subscribed when
/// the log had length `c` can never see a value from before; and the
/// first value published after the subscription is received whenever
/// the subscriber is within the backlog bound.
pub proof fn lemma_no_backfill(log: Seq<Seq<char>>, c: nat, cap: nat)
    requires
        c <= log.len(),
        cap >= 1,
    ensures
        start_index(log, c, cap) >= c,
        forall|j: int|
            0 <= j < delivered(log, c, cap).len() ==> #[trigger] delivered(log, c, cap)[j]
                == log[start_index(log, c, cap) + j],
{
}

/// A session that subscribes after `log1` was published and before
/// `v2` is receives exactly `v2` once `v2` is published: the earlier
/// values never reach it, the new one does.
pub proof fn lemma_connect_between(log1: Seq<Seq<char>>, v2: Seq<char>, cap: nat)
    requires
        cap >= 1,
    ensures
        delivered(log1.push(v2), log1.len(), cap) == seq![v2],
{
    assert(delivered(log1.push(v2), log1.len(), cap) =~= seq![v2]);
}

/// A session that keeps up misses nothing across successive drains:
/// draining, then draining again after `ext` was published, delivers
/// exactly the log's tail from the session's position — every value
/// once, in publication order, with no seam between the drains.
pub proof fn lemma_drains_concatenate(log: Seq<Seq<char>>, ext: Seq<Seq<char>>, c: nat, cap: nat)
    requires
        c <= log.len(),
        log.len() - c <= cap,
        ext.len() <= cap,
    ensures
        delivered(log, c, cap) + delivered(log + ext, log.len(), cap) == (log + ext).subrange(
            c as int,
            (log + ext).len() as int,
        ),
{
    assert(delivered(log, c, cap) + delivered(log + ext, log.len(), cap) =~= (log + ext).subrange(
        c as int,
        (log + ext).len() as int,
    ));
}

/// Whatever became of any other session — including one whose delivery
/// just failed and which therefore closed — a session still subscribed
/// at a valid position receives the next published value: no other
/// session's fate is even a parameter of what this one is owed.
pub proof fn lemma_failure_isolation(log: Seq<Seq<char>>, v: Seq<char>, c: nat, cap: nat)
    requires
        c <= log.len(),
        cap >= 1,
    ensures
        delivered(log.push(v), c, cap).len() >= 1,
        delivered(log.push(v), c, cap).last() == v,
{
    let d = delivered(log.push(v), c, cap);
    assert(d.last() == log.push(v)[log.len() as int]);
}

} // verus!
