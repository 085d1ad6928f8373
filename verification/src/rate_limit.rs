//! A limit on the requests that one address may make within a window of time.
//!
//! Times are nanoseconds since some fixed origin.

use vstd::prelude::*;

use crate::assoc;
use crate::status;
use crate::status::{Code, Status};

verus! {

/// The address that a request comes from.
#[derive(Clone, Copy, Debug, PartialEq, Eq, Structural)]
pub enum ClientAddr {
    V4(u32),
    V6(u128),
}

/// The requests of one address since its window began.
#[derive(Clone, Copy, Debug, PartialEq, Eq, Structural)]
pub struct Entry {
    pub count: u32,
    pub window_start: u128,
}

/// The number of known addresses above which stale ones are dropped.
pub const CLEANUP_THRESHOLD: usize = 10_000;

/// The seconds between two regular clean-ups.
pub const CLEANUP_INTERVAL_SECONDS: u64 = 600;

/// The time from `start` to `now`; zero where `start` lies ahead.
pub open spec fn elapsed(now: u128, start: u128) -> int {
    if now >= start {
        now - start
    } else {
        0
    }
}

/// The entries whose window is still open.
pub open spec fn open_windows(m: Map<ClientAddr, Entry>, window: u128, now: u128) -> Map<
    ClientAddr,
    Entry,
> {
    assoc::kept(m, within(window, now))
}

/// The property of an entry whose window is still open.
pub open spec fn within(window: u128, now: u128) -> spec_fn(Entry) -> bool {
    |e: Entry| elapsed(now, e.window_start) < window
}

/// The entry of `addr`, or the one that a first request at `now` begins with.
pub open spec fn entry_at(m: Map<ClientAddr, Entry>, addr: ClientAddr, now: u128) -> Entry {
    if m.contains_key(addr) {
        m[addr]
    } else {
        Entry { count: 0, window_start: now }
    }
}

/// The number of requests after one more; the largest number stays.
pub open spec fn one_more(count: u32) -> u32 {
    if count < u32::MAX {
        (count + 1) as u32
    } else {
        count
    }
}

/// Whether a request of `addr` at `now` is let through.
pub open spec fn lets_through(
    m: Map<ClientAddr, Entry>,
    max_requests: u32,
    window: u128,
    addr: ClientAddr,
    now: u128,
) -> bool {
    let entry = entry_at(m, addr, now);
    elapsed(now, entry.window_start) >= window || one_more(entry.count) <= max_requests
}

/// The entries after a request of `addr` at `now`.
pub open spec fn after_request(
    m: Map<ClientAddr, Entry>,
    max_requests: u32,
    window: u128,
    addr: ClientAddr,
    now: u128,
) -> Map<ClientAddr, Entry> {
    let entry = entry_at(m, addr, now);
    if elapsed(now, entry.window_start) >= window {
        m.insert(addr, Entry { count: 1, window_start: now })
    } else {
        let counted = m.insert(
            addr,
            Entry { count: one_more(entry.count), window_start: entry.window_start },
        );
        if one_more(entry.count) <= max_requests && counted.dom().len() > CLEANUP_THRESHOLD {
            open_windows(counted, window, now)
        } else {
            counted
        }
    }
}

/// Counts the requests of each address in its current window.
pub struct RateLimiter {
    entries: Vec<(ClientAddr, Entry)>,
    max_requests: u32,
    window: u128,
}

impl RateLimiter {
    /// Every address is known at most once.
    pub closed spec fn wf(&self) -> bool {
        assoc::distinct(self.entries@)
    }

    /// The known addresses, each with its entry.
    pub closed spec fn known(&self) -> Map<ClientAddr, Entry> {
        assoc::as_map(self.entries@)
    }

    /// The requests that one address may make in a window.
    pub closed spec fn quota(&self) -> u32 {
        self.max_requests
    }

    /// The length of a window.
    pub closed spec fn period(&self) -> u128 {
        self.window
    }

    /// A limiter that knows no address yet.
    pub fn new(max_requests: u32, window: u128) -> (r: RateLimiter)
        ensures
            r.wf(),
            r.known() == Map::<ClientAddr, Entry>::empty(),
            r.quota() == max_requests,
            r.period() == window,
    {
        let r = RateLimiter { entries: Vec::new(), max_requests, window };
        assert(assoc::as_map(r.entries@) =~= Map::empty());
        r
    }

    fn elapsed_since(now: u128, start: u128) -> (r: u128)
        ensures
            r == elapsed(now, start),
    {
        if now >= start {
            now - start
        } else {
            0
        }
    }

    fn find(&self, addr: ClientAddr) -> (r: Option<usize>)
        requires
            self.wf(),
        ensures
            match r {
                Some(i) => i < self.entries@.len() && self.entries@[i as int].0 == addr,
                None => !assoc::has_key(self.entries@, addr),
            },
    {
        let mut i: usize = 0;
        while i < self.entries.len()
            invariant
                i <= self.entries.len(),
                forall|j: int| 0 <= j < i ==> (#[trigger] self.entries@[j]).0 != addr,
            decreases self.entries.len() - i,
        {
            if self.entries[i].0 == addr {
                return Some(i);
            }
            i += 1;
        }
        None
    }

    /// Counts a request of `addr` at `now`, and refuses it where the quota is used up.
    pub fn check_rate_limit(&mut self, addr: ClientAddr, now: u128) -> (r: Result<(), Status>)
        requires
            old(self).wf(),
        ensures
            final(self).wf(),
            final(self).quota() == old(self).quota(),
            final(self).period() == old(self).period(),
            final(self).known() == after_request(
                old(self).known(),
                old(self).quota(),
                old(self).period(),
                addr,
                now,
            ),
            status::outcome(r) == if lets_through(
                old(self).known(),
                old(self).quota(),
                old(self).period(),
                addr,
                now,
            ) {
                Ok(())
            } else {
                Err(
                    status::refusal(
                        Code::ResourceExhausted,
                        "rate limit exceeded, try again later"@,
                    ),
                )
            },
    {
        let ghost before = self.entries@;
        let found = self.find(addr);
        let entry = match found {
            Some(i) => self.entries[i].1,
            None => Entry { count: 0, window_start: now },
        };
        proof {
            if let Some(i) = found {
                assoc::lemma_lookup(before, i as int);
            }
        }
        let fresh = Self::elapsed_since(now, entry.window_start) >= self.window;
        let counted: u32 = if entry.count < u32::MAX {
            entry.count + 1
        } else {
            entry.count
        };
        let updated = if fresh {
            Entry { count: 1, window_start: now }
        } else {
            Entry { count: counted, window_start: entry.window_start }
        };
        match found {
            Some(i) => {
                self.entries.set(i, (addr, updated));
                proof {
                    assoc::lemma_update(before, i as int, updated);
                }
            },
            None => {
                self.entries.push((addr, updated));
                proof {
                    assoc::lemma_push(before, addr, updated);
                }
            },
        }
        if fresh {
            return Ok(());
        }
        if counted > self.max_requests {
            return Err(
                Status::new(Code::ResourceExhausted, "rate limit exceeded, try again later"),
            );
        }
        proof {
            assoc::lemma_len(self.entries@);
        }
        if self.entries.len() > CLEANUP_THRESHOLD {
            self.cleanup(now);
        }
        Ok(())
    }

    /// Drops the addresses whose window is over at `now`.
    pub fn cleanup(&mut self, now: u128)
        requires
            old(self).wf(),
        ensures
            final(self).wf(),
            final(self).quota() == old(self).quota(),
            final(self).period() == old(self).period(),
            final(self).known() == open_windows(old(self).known(), old(self).period(), now),
    {
        let ghost before = self.entries@;
        let ghost keep = within(self.window, now);
        let mut open: Vec<(ClientAddr, Entry)> = Vec::new();
        let mut i: usize = 0;
        assert(assoc::as_map(open@) =~= assoc::kept(assoc::as_map(before.take(0)), keep));
        while i < self.entries.len()
            invariant
                i <= self.entries.len(),
                before == self.entries@,
                keep == within(self.window, now),
                assoc::distinct(before),
                assoc::distinct(open@),
                assoc::as_map(open@) == assoc::kept(assoc::as_map(before.take(i as int)), keep),
            decreases self.entries.len() - i,
        {
            proof {
                assoc::lemma_keep_step(before, i as int, open@, keep);
            }
            let entry = self.entries[i];
            if Self::elapsed_since(now, entry.1.window_start) < self.window {
                open.push(entry);
            }
            i += 1;
        }
        assert(before.take(i as int) =~= before);
        self.entries = open;
    }
}

/// A sequence of requests, each with its address and its time.
pub open spec fn after_requests(
    m: Map<ClientAddr, Entry>,
    max_requests: u32,
    window: u128,
    requests: Seq<(ClientAddr, u128)>,
) -> Map<ClientAddr, Entry>
    decreases requests.len(),
{
    if requests.len() == 0 {
        m
    } else {
        after_request(
            after_requests(m, max_requests, window, requests.drop_last()),
            max_requests,
            window,
            requests.last().0,
            requests.last().1,
        )
    }
}

/// The number of requests of `addr`.
pub open spec fn requests_of(requests: Seq<(ClientAddr, u128)>, addr: ClientAddr) -> nat
    decreases requests.len(),
{
    if requests.len() == 0 {
        0
    } else {
        requests_of(requests.drop_last(), addr) + if requests.last().0 == addr {
            1nat
        } else {
            0nat
        }
    }
}

/// The number of requests of `addr` that are let through.
pub open spec fn let_through_of(
    m: Map<ClientAddr, Entry>,
    max_requests: u32,
    window: u128,
    requests: Seq<(ClientAddr, u128)>,
    addr: ClientAddr,
) -> nat
    decreases requests.len(),
{
    if requests.len() == 0 {
        0
    } else {
        let earlier = requests.drop_last();
        let last = requests.last();
        let_through_of(m, max_requests, window, earlier, addr) + if last.0 == addr && lets_through(
            after_requests(m, max_requests, window, earlier),
            max_requests,
            window,
            addr,
            last.1,
        ) {
            1nat
        } else {
            0nat
        }
    }
}

/// The smaller of two numbers.
pub open spec fn smaller(a: int, b: int) -> int {
    if a <= b {
        a
    } else {
        b
    }
}

/// The larger of two numbers.
pub open spec fn larger(a: int, b: int) -> int {
    if a >= b {
        a
    } else {
        b
    }
}

/// While the window of an address is open, exactly as many of its requests are let through
/// as its quota has left, whatever other addresses do in between.
pub proof fn law_open_window_grants_what_is_left(
    m: Map<ClientAddr, Entry>,
    max_requests: u32,
    window: u128,
    requests: Seq<(ClientAddr, u128)>,
    addr: ClientAddr,
)
    requires
        max_requests < u32::MAX,
        m.contains_key(addr),
        forall|i: int|
            0 <= i < requests.len() ==> elapsed((#[trigger] requests[i]).1, m[addr].window_start)
                < window,
    ensures
        let_through_of(m, max_requests, window, requests, addr) == smaller(
            requests_of(requests, addr) as int,
            larger(max_requests - m[addr].count, 0),
        ),
        ({
            let later = after_requests(m, max_requests, window, requests);
            &&& later.contains_key(addr)
            &&& later[addr].window_start == m[addr].window_start
            &&& later[addr].count == smaller(
                m[addr].count + requests_of(requests, addr),
                u32::MAX as int,
            )
        }),
    decreases requests.len(),
{
    if requests.len() > 0 {
        let earlier = requests.drop_last();
        assert forall|i: int| 0 <= i < earlier.len() implies elapsed(
            (#[trigger] earlier[i]).1,
            m[addr].window_start,
        ) < window by {
            assert(earlier[i] == requests[i]);
        }
        law_open_window_grants_what_is_left(m, max_requests, window, earlier, addr);
        assert(requests[requests.len() - 1] == requests.last());
        let state = after_requests(m, max_requests, window, earlier);
        let last = requests.last();
        assert(elapsed(last.1, m[addr].window_start) < window);
        let entry = entry_at(state, last.0, last.1);
        let counted = state.insert(
            last.0,
            Entry { count: one_more(entry.count), window_start: entry.window_start },
        );
        assert(within(window, last.1)(counted[addr]));
    }
}

/// An address that is not known or whose window is over is let through, and opens a window; of
/// this request and those that it makes in that window, exactly the quota is let through, or
/// all where they are no more.
pub proof fn law_quota_per_window(
    m: Map<ClientAddr, Entry>,
    max_requests: u32,
    window: u128,
    addr: ClientAddr,
    start: u128,
    requests: Seq<(ClientAddr, u128)>,
)
    requires
        0 < max_requests < u32::MAX,
        0 < window,
        m.contains_key(addr) ==> elapsed(start, m[addr].window_start) >= window,
        forall|i: int|
            0 <= i < requests.len() ==> elapsed((#[trigger] requests[i]).1, start) < window,
    ensures
        lets_through(m, max_requests, window, addr, start),
        let_through_of(
            after_request(m, max_requests, window, addr, start),
            max_requests,
            window,
            requests,
            addr,
        ) + 1 == smaller(requests_of(requests, addr) as int + 1, max_requests as int),
{
    let opened = after_request(m, max_requests, window, addr, start);
    let entry = entry_at(m, addr, start);
    let counted = m.insert(
        addr,
        Entry { count: one_more(entry.count), window_start: entry.window_start },
    );
    assert(elapsed(start, start) == 0);
    assert(!m.contains_key(addr) ==> within(window, start)(counted[addr]));
    assert(opened.contains_key(addr) && opened[addr] == (Entry { count: 1, window_start: start }));
    law_open_window_grants_what_is_left(opened, max_requests, window, requests, addr);
}

/// Whether a request is let through depends on no address but its own, and a request
/// changes the entry of another address only by dropping it once its window is over.
pub proof fn law_limits_are_independent(
    m: Map<ClientAddr, Entry>,
    n: Map<ClientAddr, Entry>,
    max_requests: u32,
    window: u128,
    addr: ClientAddr,
    other: ClientAddr,
    now: u128,
)
    requires
        m.contains_key(addr) == n.contains_key(addr),
        m.contains_key(addr) ==> m[addr] == n[addr],
        addr != other,
    ensures
        lets_through(m, max_requests, window, addr, now) == lets_through(
            n,
            max_requests,
            window,
            addr,
            now,
        ),
        ({
            let later = after_request(m, max_requests, window, addr, now);
            &&& later.contains_key(other) ==> m.contains_key(other) && later[other] == m[other]
            &&& m.contains_key(other) && elapsed(now, m[other].window_start) < window
                ==> later.contains_key(other)
        }),
{
    let entry = entry_at(m, addr, now);
    let counted = m.insert(
        addr,
        Entry { count: one_more(entry.count), window_start: entry.window_start },
    );
    if m.contains_key(other) {
        assert(counted[other] == m[other]);
        assert(within(window, now)(counted[other]) == (elapsed(now, m[other].window_start)
            < window));
    }
}

} // verus!
