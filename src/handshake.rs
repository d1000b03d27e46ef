use vstd::prelude::*;
use crate::peer::PeerAddr;

verus! {

broadcast use vstd::seq_lib::group_seq_properties;

/// `a + b`, stopping at `u64::MAX` instead of wrapping.
pub open spec fn add_capped(a: u64, b: u64) -> u64 {
    if a as int + b as int > u64::MAX as int {
        u64::MAX
    } else {
        (a + b) as u64
    }
}

/// The later of two instants.
pub open spec fn later(a: u64, b: u64) -> u64 {
    if a >= b {
        a
    } else {
        b
    }
}

/// One raw connection whose security handshake is running.
#[derive(Clone, Copy, Debug, PartialEq, Eq, Structural)]
pub struct PendingHandshake {
    /// The caller's identifier for the raw connection.
    pub id: u64,
    /// The peer, captured before the handshake starts.
    pub peer: PeerAddr,
    /// The instant, in milliseconds, from which the handshake counts as expired.
    pub deadline_ms: u64,
}

/// How one handshake ended.
#[derive(Clone, Copy, Debug, PartialEq, Eq, Structural)]
pub enum HandshakeOutcome {
    /// The secure session is established: the connection can be served.
    Succeeded(PendingHandshake),
    /// The security negotiation failed: the connection is dropped and reported.
    Failed(PendingHandshake),
    /// The deadline passed first: the connection is dropped silently.
    TimedOut(PendingHandshake),
    /// No handshake with that identifier is in flight (it already ended).
    NotInFlight,
}

/// Why a handshake was not taken in.
#[derive(Clone, Copy, Debug, PartialEq, Eq, Structural)]
pub enum SubmitError {
    /// A handshake with the same identifier is already in flight.
    DuplicateId,
    /// The configured bound on handshakes in flight is reached.
    AtCapacity,
    /// The count of submitted handshakes cannot grow any more.
    CounterExhausted,
}

/// What a finished handshake becomes, given the instant at which its result arrived.
///
/// A result that arrives at or after the deadline counts as a timeout, whatever it was.
pub open spec fn classify(p: PendingHandshake, handshake_ok: bool, now_ms: u64) -> HandshakeOutcome {
    if now_ms >= p.deadline_ms {
        HandshakeOutcome::TimedOut(p)
    } else if handshake_ok {
        HandshakeOutcome::Succeeded(p)
    } else {
        HandshakeOutcome::Failed(p)
    }
}

pub open spec fn is_expired_at(now_ms: u64) -> spec_fn(PendingHandshake) -> bool {
    |p: PendingHandshake| p.deadline_ms <= now_ms
}

pub open spec fn is_alive_at(now_ms: u64) -> spec_fn(PendingHandshake) -> bool {
    |p: PendingHandshake| p.deadline_ms > now_ms
}

/// The in-flight set of security handshakes, each bounded by its own deadline.
///
/// The manager never waits: the caller runs the handshakes and reports each result
/// with `complete`, and calls `expire` to drop those whose deadline has passed.
/// The clock only moves forward: an instant earlier than one already seen counts
/// as the latest one seen.
///
/// Without a bound (`max_in_flight` is `None`) the set grows as fast as raw
/// connections arrive; with one, `submit` rejects what does not fit.
pub struct HandshakeManager {
    in_flight: Vec<PendingHandshake>,
    timeout_ms: u64,
    max_in_flight: Option<usize>,
    clock_ms: u64,
    submitted: u64,
    succeeded: u64,
    failed: u64,
    timed_out: u64,
}

impl HandshakeManager {
    pub closed spec fn pending(&self) -> Seq<PendingHandshake> {
        self.in_flight@
    }

    pub closed spec fn timeout(&self) -> u64 {
        self.timeout_ms
    }

    pub closed spec fn capacity(&self) -> Option<usize> {
        self.max_in_flight
    }

    pub closed spec fn clock(&self) -> u64 {
        self.clock_ms
    }

    pub closed spec fn submitted_count(&self) -> u64 {
        self.submitted
    }

    pub closed spec fn succeeded_count(&self) -> u64 {
        self.succeeded
    }

    pub closed spec fn failed_count(&self) -> u64 {
        self.failed
    }

    pub closed spec fn timed_out_count(&self) -> u64 {
        self.timed_out
    }

    pub open spec fn is_in_flight(&self, id: u64) -> bool {
        exists|i: int| 0 <= i < self.pending().len() && #[trigger] self.pending()[i].id == id
    }

    /// The position of the handshake `id` in the in-flight set.
    pub open spec fn index_of(&self, id: u64) -> int {
        choose|i: int| 0 <= i < self.pending().len() && #[trigger] self.pending()[i].id == id
    }

    pub open spec fn is_full(&self) -> bool {
        match self.capacity() {
            Some(c) => self.pending().len() >= c,
            None => false,
        }
    }

    /// What `submit(id, _, now_ms)` returns.
    pub open spec fn submit_result(&self, id: u64, now_ms: u64) -> Result<u64, SubmitError> {
        if self.is_in_flight(id) {
            Err(SubmitError::DuplicateId)
        } else if self.is_full() {
            Err(SubmitError::AtCapacity)
        } else if self.submitted_count() == u64::MAX {
            Err(SubmitError::CounterExhausted)
        } else {
            Ok(add_capped(later(self.clock(), now_ms), self.timeout()))
        }
    }

    /// What `complete(id, handshake_ok, now_ms)` returns.
    pub open spec fn complete_result(&self, id: u64, handshake_ok: bool, now_ms: u64) -> HandshakeOutcome {
        if self.is_in_flight(id) {
            classify(self.pending()[self.index_of(id)], handshake_ok, later(self.clock(), now_ms))
        } else {
            HandshakeOutcome::NotInFlight
        }
    }

    /// The handshakes that `expire(now_ms)` drops.
    pub open spec fn expired_at(&self, now_ms: u64) -> Seq<PendingHandshake> {
        self.pending().filter(is_expired_at(later(self.clock(), now_ms)))
    }

    /// How the manager stands after `submit(id, peer, now_ms)`, as `next`.
    pub open spec fn submit_post(&self, next: HandshakeManager, id: u64, peer: PeerAddr, now_ms: u64) -> bool {
        &&& next.clock() == later(self.clock(), now_ms)
        &&& next.timeout() == self.timeout()
        &&& next.capacity() == self.capacity()
        &&& match self.submit_result(id, now_ms) {
            Ok(d) => next.pending() == self.pending().push(PendingHandshake { id, peer, deadline_ms: d })
                && next.submitted_count() == self.submitted_count() + 1,
            Err(_) => next.pending() == self.pending() && next.submitted_count()
                == self.submitted_count(),
        }
        &&& next.succeeded_count() == self.succeeded_count()
        &&& next.failed_count() == self.failed_count()
        &&& next.timed_out_count() == self.timed_out_count()
    }

    /// How the manager stands after `complete(id, handshake_ok, now_ms)`, as `next`:
    /// the handshake has left the set and exactly one count has grown.
    pub open spec fn complete_post(&self, next: HandshakeManager, id: u64, handshake_ok: bool, now_ms: u64) -> bool {
        let o = self.complete_result(id, handshake_ok, now_ms);
        &&& next.clock() == later(self.clock(), now_ms)
        &&& next.timeout() == self.timeout()
        &&& next.capacity() == self.capacity()
        &&& next.submitted_count() == self.submitted_count()
        &&& next.pending() == if self.is_in_flight(id) {
            self.pending().remove(self.index_of(id))
        } else {
            self.pending()
        }
        &&& !next.is_in_flight(id)
        &&& next.succeeded_count() == self.succeeded_count() + (if o is Succeeded { 1int } else { 0int })
        &&& next.failed_count() == self.failed_count() + (if o is Failed { 1int } else { 0int })
        &&& next.timed_out_count() == self.timed_out_count() + (if o is TimedOut { 1int } else { 0int })
    }

    /// How the manager stands after `expire(now_ms)`, as `next`.
    pub open spec fn expire_post(&self, next: HandshakeManager, now_ms: u64) -> bool {
        &&& next.clock() == later(self.clock(), now_ms)
        &&& next.timeout() == self.timeout()
        &&& next.capacity() == self.capacity()
        &&& next.pending() == self.pending().filter(is_alive_at(later(self.clock(), now_ms)))
        &&& next.submitted_count() == self.submitted_count()
        &&& next.succeeded_count() == self.succeeded_count()
        &&& next.failed_count() == self.failed_count()
        &&& next.timed_out_count() == self.timed_out_count() + self.expired_at(now_ms).len()
    }

    /// Identifiers are unique in the set, every submission is in flight or ended
    /// in exactly one way, no deadline lies beyond the clock plus the timeout,
    /// and the set respects its bound.
    pub closed spec fn wf(&self) -> bool {
        &&& forall|i: int, j: int|
            0 <= i < j < self.in_flight@.len() ==> self.in_flight@[i].id != self.in_flight@[j].id
        &&& self.submitted as int == self.in_flight@.len() + self.succeeded + self.failed
            + self.timed_out
        &&& forall|i: int|
            0 <= i < self.in_flight@.len() ==> #[trigger] self.in_flight@[i].deadline_ms
                <= add_capped(self.clock_ms, self.timeout_ms)
        &&& match self.max_in_flight {
            Some(c) => self.in_flight@.len() <= c,
            None => true,
        }
    }

    /// An empty manager whose handshakes each get `timeout_ms` milliseconds.
    ///
    /// A timeout of zero does not disable the deadline: every handshake is then
    /// expired as soon as it is submitted.
    pub fn new(timeout_ms: u64, max_in_flight: Option<usize>) -> (r: HandshakeManager)
        ensures
            r.wf(),
            r.pending() == Seq::<PendingHandshake>::empty(),
            r.timeout() == timeout_ms,
            r.capacity() == max_in_flight,
            r.clock() == 0,
            r.submitted_count() == 0,
            r.succeeded_count() == 0,
            r.failed_count() == 0,
            r.timed_out_count() == 0,
    {
        HandshakeManager {
            in_flight: Vec::new(),
            timeout_ms,
            max_in_flight,
            clock_ms: 0,
            submitted: 0,
            succeeded: 0,
            failed: 0,
            timed_out: 0,
        }
    }

    pub fn timeout_ms(&self) -> (r: u64)
        ensures
            r == self.timeout(),
    {
        self.timeout_ms
    }

    pub fn in_flight_len(&self) -> (r: usize)
        ensures
            r == self.pending().len(),
    {
        self.in_flight.len()
    }

    /// The counts of submitted, succeeded, failed and timed-out handshakes.
    pub fn counts(&self) -> (r: (u64, u64, u64, u64))
        ensures
            r == (self.submitted_count(), self.succeeded_count(), self.failed_count(),
                self.timed_out_count()),
    {
        (self.submitted, self.succeeded, self.failed, self.timed_out)
    }

    fn advance_clock(&mut self, now_ms: u64)
        requires
            old(self).wf(),
        ensures
            final(self).wf(),
            final(self).clock() == later(old(self).clock(), now_ms),
            final(self).pending() == old(self).pending(),
            final(self).timeout() == old(self).timeout(),
            final(self).capacity() == old(self).capacity(),
            final(self).submitted_count() == old(self).submitted_count(),
            final(self).succeeded_count() == old(self).succeeded_count(),
            final(self).failed_count() == old(self).failed_count(),
            final(self).timed_out_count() == old(self).timed_out_count(),
    {
        if now_ms > self.clock_ms {
            self.clock_ms = now_ms;
        }
    }

    fn find(&self, id: u64) -> (r: Option<usize>)
        requires
            self.wf(),
        ensures
            match r {
                Some(i) => self.is_in_flight(id) && i as int == self.index_of(id)
                    && self.pending()[i as int].id == id,
                None => !self.is_in_flight(id),
            },
    {
        let mut i: usize = 0;
        while i < self.in_flight.len()
            invariant
                self.wf(),
                i <= self.in_flight@.len(),
                forall|k: int| 0 <= k < i ==> self.in_flight@[k].id != id,
            decreases self.in_flight@.len() - i,
        {
            if self.in_flight[i].id == id {
                assert(self.pending()[i as int].id == id);
                assert(self.is_in_flight(id));
                let ghost c = self.index_of(id);
                assert(self.pending()[c].id == id);
                assert(c == i as int);
                return Some(i);
            }
            i = i + 1;
        }
        None
    }

    /// Takes a raw connection into the in-flight set, with the deadline
    /// `now_ms + timeout` (stopping at `u64::MAX`), and returns that deadline.
    ///
    /// It never waits on other handshakes: it is refused only for a duplicate
    /// identifier, a full set, or an exhausted count.
    pub fn submit(&mut self, id: u64, peer: PeerAddr, now_ms: u64) -> (r: Result<u64, SubmitError>)
        requires
            old(self).wf(),
        ensures
            final(self).wf(),
            final(self).clock() == later(old(self).clock(), now_ms),
            final(self).timeout() == old(self).timeout(),
            final(self).capacity() == old(self).capacity(),
            r == old(self).submit_result(id, now_ms),
            old(self).submit_post(*final(self), id, peer, now_ms),
            (r == Err::<u64, SubmitError>(SubmitError::DuplicateId)) == old(self).is_in_flight(id),
            (r == Err::<u64, SubmitError>(SubmitError::AtCapacity)) == (!old(self).is_in_flight(id)
                && old(self).is_full()),
            (r == Err::<u64, SubmitError>(SubmitError::CounterExhausted)) == (!old(self).is_in_flight(id)
                && !old(self).is_full() && old(self).submitted_count() == u64::MAX),
            r.is_ok() ==> {
                let d = add_capped(later(old(self).clock(), now_ms), old(self).timeout());
                &&& r == Ok::<u64, SubmitError>(d)
                &&& final(self).pending() == old(self).pending().push(
                    PendingHandshake { id, peer, deadline_ms: d },
                )
                &&& final(self).submitted_count() == old(self).submitted_count() + 1
            },
            r.is_err() ==> final(self).pending() == old(self).pending(),
            r.is_err() ==> final(self).submitted_count() == old(self).submitted_count(),
            final(self).succeeded_count() == old(self).succeeded_count(),
            final(self).failed_count() == old(self).failed_count(),
            final(self).timed_out_count() == old(self).timed_out_count(),
    {
        self.advance_clock(now_ms);
        if self.find(id).is_some() {
            return Err(SubmitError::DuplicateId);
        }
        match self.max_in_flight {
            Some(c) => {
                if self.in_flight.len() >= c {
                    return Err(SubmitError::AtCapacity);
                }
            },
            None => {},
        }
        if self.submitted == u64::MAX {
            return Err(SubmitError::CounterExhausted);
        }
        let deadline = if self.clock_ms > u64::MAX - self.timeout_ms {
            u64::MAX
        } else {
            self.clock_ms + self.timeout_ms
        };
        let ghost before = self.in_flight@;
        self.in_flight.push(PendingHandshake { id, peer, deadline_ms: deadline });
        self.submitted = self.submitted + 1;
        assert forall|i: int, j: int|
            0 <= i < j < self.in_flight@.len() implies self.in_flight@[i].id
            != self.in_flight@[j].id by {
            if j == before.len() {
                assert(before[i].id == self.in_flight@[i].id);
            }
        }
        Ok(deadline)
    }
    /// Reports the result of the handshake `id`, which arrived at `now_ms`, and
    /// takes it out of the in-flight set.
    ///
    /// A result at or after the deadline is a timeout; an identifier that is not
    /// in flight (its handshake already ended) changes nothing but the clock.
    pub fn complete(&mut self, id: u64, handshake_ok: bool, now_ms: u64) -> (r: HandshakeOutcome)
        requires
            old(self).wf(),
        ensures
            final(self).wf(),
            final(self).clock() == later(old(self).clock(), now_ms),
            final(self).timeout() == old(self).timeout(),
            final(self).capacity() == old(self).capacity(),
            final(self).submitted_count() == old(self).submitted_count(),
            r == old(self).complete_result(id, handshake_ok, now_ms),
            old(self).complete_post(*final(self), id, handshake_ok, now_ms),
            !old(self).is_in_flight(id) ==> {
                &&& r == HandshakeOutcome::NotInFlight
                &&& final(self).pending() == old(self).pending()
                &&& final(self).succeeded_count() == old(self).succeeded_count()
                &&& final(self).failed_count() == old(self).failed_count()
                &&& final(self).timed_out_count() == old(self).timed_out_count()
            },
            old(self).is_in_flight(id) ==> {
                let i = old(self).index_of(id);
                let o = classify(old(self).pending()[i], handshake_ok, later(old(self).clock(), now_ms));
                &&& r == o
                &&& final(self).pending() == old(self).pending().remove(i)
                &&& final(self).succeeded_count() == old(self).succeeded_count() + (
                if o is Succeeded { 1int } else { 0int })
                &&& final(self).failed_count() == old(self).failed_count() + (
                if o is Failed { 1int } else { 0int })
                &&& final(self).timed_out_count() == old(self).timed_out_count() + (
                if o is TimedOut { 1int } else { 0int })
            },
    {
        self.advance_clock(now_ms);
        match self.find(id) {
            None => HandshakeOutcome::NotInFlight,
            Some(i) => {
                let ghost before = self.in_flight@;
                let p = self.in_flight.remove(i);
                assert forall|a: int, b: int|
                    0 <= a < b < self.in_flight@.len() implies self.in_flight@[a].id
                    != self.in_flight@[b].id by {
                    if a >= i {
                        assert(before[a + 1] == self.in_flight@[a]);
                    } else {
                        assert(before[a] == self.in_flight@[a]);
                    }
                    if b >= i {
                        assert(before[b + 1] == self.in_flight@[b]);
                    } else {
                        assert(before[b] == self.in_flight@[b]);
                    }
                }
                assert forall|k: int| 0 <= k < self.in_flight@.len() implies
                    #[trigger] self.in_flight@[k].deadline_ms <= add_capped(self.clock_ms, self.timeout_ms) by {
                    if k >= i {
                        assert(before[k + 1] == self.in_flight@[k]);
                    } else {
                        assert(before[k] == self.in_flight@[k]);
                    }
                }
                assert forall|k: int| 0 <= k < self.in_flight@.len() implies #[trigger] self.in_flight@[k].id != id by {
                    if k >= i {
                        assert(before[k + 1] == self.in_flight@[k]);
                    } else {
                        assert(before[k] == self.in_flight@[k]);
                    }
                }
                if self.clock_ms >= p.deadline_ms {
                    self.timed_out = self.timed_out + 1;
                    HandshakeOutcome::TimedOut(p)
                } else if handshake_ok {
                    self.succeeded = self.succeeded + 1;
                    HandshakeOutcome::Succeeded(p)
                } else {
                    self.failed = self.failed + 1;
                    HandshakeOutcome::Failed(p)
                }
            },
        }
    }

    /// Drops every handshake whose deadline is at or before `now_ms` and returns
    /// them, in the order in which they were submitted.
    pub fn expire(&mut self, now_ms: u64) -> (r: Vec<PendingHandshake>)
        requires
            old(self).wf(),
        ensures
            final(self).wf(),
            final(self).clock() == later(old(self).clock(), now_ms),
            final(self).timeout() == old(self).timeout(),
            final(self).capacity() == old(self).capacity(),
            r@ == old(self).expired_at(now_ms),
            old(self).expire_post(*final(self), now_ms),
            final(self).pending() == old(self).pending().filter(
                is_alive_at(later(old(self).clock(), now_ms)),
            ),
            final(self).submitted_count() == old(self).submitted_count(),
            final(self).succeeded_count() == old(self).succeeded_count(),
            final(self).failed_count() == old(self).failed_count(),
            final(self).timed_out_count() == old(self).timed_out_count() + r@.len(),
    {
        self.advance_clock(now_ms);
        let now = self.clock_ms;
        let ghost all = self.in_flight@;
        let mut kept: Vec<PendingHandshake> = Vec::new();
        let mut dropped: Vec<PendingHandshake> = Vec::new();
        let mut i: usize = 0;
        while i < self.in_flight.len()
            invariant
                self.wf(),
                self.in_flight@ == all,
                self.clock_ms == now,
                i <= all.len(),
                kept@ == all.take(i as int).filter(is_alive_at(now)),
                dropped@ == all.take(i as int).filter(is_expired_at(now)),
                kept@.len() + dropped@.len() == i,
            decreases all.len() - i,
        {
            let p = self.in_flight[i];
            proof {
                assert(all.take(i as int + 1) == all.take(i as int).push(all[i as int]));
                all.take(i as int).lemma_filter_push(all[i as int], is_alive_at(now));
                all.take(i as int).lemma_filter_push(all[i as int], is_expired_at(now));
            }
            if p.deadline_ms <= now {
                dropped.push(p);
            } else {
                kept.push(p);
            }
            i = i + 1;
        }
        assert(all.take(all.len() as int) == all);
        proof {
            lemma_filter_keeps_unique(all, is_alive_at(now));
        }
        assert forall|k: int| 0 <= k < kept@.len() implies
            #[trigger] kept@[k].deadline_ms <= add_capped(now, self.timeout_ms) by {
            let b = choose|b: int| 0 <= b < all.len() && all[b] == kept@[k];
            assert(all[b].deadline_ms <= add_capped(now, self.timeout_ms));
        }
        let n = dropped.len();
        self.in_flight = kept;
        self.timed_out = self.timed_out + n as u64;
        dropped
    }

    /// The earliest deadline in the in-flight set, the instant at which the
    /// caller should next call `expire`.
    pub fn next_deadline(&self) -> (r: Option<u64>)
        ensures
            r is None <==> self.pending().len() == 0,
            r matches Some(d) ==> (exists|i: int| 0 <= i < self.pending().len() && #[trigger] self.pending()[i].deadline_ms == d)
                && (forall|i: int| 0 <= i < self.pending().len() ==> d <= #[trigger] self.pending()[i].deadline_ms),
    {
        if self.in_flight.len() == 0 {
            return None;
        }
        let mut best = self.in_flight[0].deadline_ms;
        let mut i: usize = 1;
        while i < self.in_flight.len()
            invariant
                1 <= i <= self.in_flight@.len(),
                exists|k: int| 0 <= k < i && #[trigger] self.in_flight@[k].deadline_ms == best,
                forall|k: int| 0 <= k < i ==> best <= #[trigger] self.in_flight@[k].deadline_ms,
            decreases self.in_flight@.len() - i,
        {
            if self.in_flight[i].deadline_ms < best {
                best = self.in_flight[i].deadline_ms;
            }
            i = i + 1;
        }
        Some(best)
    }
}

/// Filtering a sequence whose identifiers are unique leaves them unique, and
/// keeps only elements of the sequence.
proof fn lemma_filter_keeps_unique(s: Seq<PendingHandshake>, pred: spec_fn(PendingHandshake) -> bool)
    requires
        forall|i: int, j: int| 0 <= i < j < s.len() ==> s[i].id != s[j].id,
    ensures
        forall|i: int, j: int| 0 <= i < j < s.filter(pred).len() ==> s.filter(pred)[i].id != s.filter(pred)[j].id,
        forall|i: int| 0 <= i < s.filter(pred).len() ==> exists|k: int| 0 <= k < s.len() && s[k] == #[trigger] s.filter(pred)[i],
    decreases s.len(),
{
    reveal(Seq::filter);
    if s.len() > 0 {
        let init = s.drop_last();
        lemma_filter_keeps_unique(init, pred);
        let g = init.filter(pred);
        let f = s.filter(pred);
        assert forall|i: int| 0 <= i < g.len() implies exists|k: int| 0 <= k < s.len() - 1 && s[k] == #[trigger] g[i] by {
            let k = choose|k: int| 0 <= k < init.len() && init[k] == g[i];
            assert(s[k] == init[k]);
        }
        if pred(s.last()) {
            assert(f == g.push(s.last()));
            assert forall|i: int| 0 <= i < f.len() implies exists|k: int| 0 <= k < s.len() && s[k] == #[trigger] f[i] by {
                if i < g.len() {
                    assert(f[i] == g[i]);
                } else {
                    assert(f[i] == s[s.len() - 1]);
                }
            }
            assert forall|i: int, j: int| 0 <= i < j < f.len() implies f[i].id != f[j].id by {
                assert(f[i] == g[i]);
                if j == f.len() - 1 {
                    let k = choose|k: int| 0 <= k < s.len() - 1 && s[k] == #[trigger] g[i];
                    assert(f[j] == s[s.len() - 1]);
                } else {
                    assert(f[j] == g[j]);
                }
            }
        } else {
            assert(f == g);
        }
    }
}

/// Every submitted handshake is, at any time, either still in flight or has
/// ended in exactly one of three ways: success, failure, or timeout.
pub proof fn lemma_every_submission_accounted(m: HandshakeManager)
    requires
        m.wf(),
    ensures
        m.submitted_count() as int == m.pending().len() + m.succeeded_count() + m.failed_count()
            + m.timed_out_count(),
        m.pending().len() == 0 ==> m.submitted_count() as int == m.succeeded_count()
            + m.failed_count() + m.timed_out_count(),
{
}

/// With a timeout of zero no handshake can succeed: whatever its result and
/// whenever it arrives, it counts as timed out.
pub proof fn lemma_zero_timeout_never_succeeds(m: HandshakeManager, id: u64, handshake_ok: bool, now_ms: u64)
    requires
        m.wf(),
        m.timeout() == 0,
        m.is_in_flight(id),
    ensures
        classify(m.pending()[m.index_of(id)], handshake_ok, later(m.clock(), now_ms)) is TimedOut,
{
    let i = m.index_of(id);
    assert(m.in_flight@[i].deadline_ms <= add_capped(m.clock_ms, m.timeout_ms));
}

/// A new raw connection is taken in however many handshakes are in flight and
/// however slow they are: only a duplicate identifier, the configured bound, or
/// an exhausted count refuse it.
pub proof fn lemma_submission_never_waits(m: HandshakeManager, id: u64, now_ms: u64)
    requires
        m.wf(),
        !m.is_in_flight(id),
        !m.is_full(),
        m.submitted_count() < u64::MAX,
    ensures
        m.submit_result(id, now_ms) == Ok::<u64, SubmitError>(add_capped(later(m.clock(), now_ms), m.timeout())),
{
}

} // verus!
