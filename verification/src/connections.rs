//! The accepted connections on one of peinit's listeners, and when each goes
//! idle.
//!
//! Both the control socket and the jobs socket keep one of these. A
//! connection is idle once its timeout has passed since it was last heard
//! from, unless it is parked on a wait: a client waiting for an operation
//! or a job to finish is not idle, however long that takes.
use vstd::prelude::*;
use crate::event_loop::timing::{NANOS_PER_SEC, earliest};

verus! {

/// One accepted connection.
#[derive(Debug, Clone, Copy, PartialEq, Eq)]
pub struct ConnectionRecord {
    pub fd: i32,
    /// When the connection was accepted or last read from.
    pub last_activity_ns: u64,
    /// A request on it is parked until something completes.
    pub pending_wait: bool,
}

/// The accepted connections and how many the listener may hold.
#[derive(Debug)]
pub struct ConnectionTable {
    records: Vec<ConnectionRecord>,
    max_connections: usize,
}

/// `a + b`, held at `u64::MAX`.
pub open spec fn sat_add(a: int, b: int) -> int {
    if a + b > u64::MAX { u64::MAX as int } else { a + b }
}

/// When a connection goes idle: its timeout after its last activity, held at
/// the end of time rather than wrapping.
pub open spec fn idle_deadline(r: ConnectionRecord, timeout_secs: u64) -> int {
    sat_add(r.last_activity_ns as int, timeout_secs * NANOS_PER_SEC)
}

/// Whether the idle sweep at `now_ns` closes this connection.
pub open spec fn is_idle(r: ConnectionRecord, now_ns: u64, timeout_secs: u64) -> bool {
    !r.pending_wait && idle_deadline(r, timeout_secs) <= now_ns
}

/// The fds of the connections that are idle at `now_ns`, in table order.
pub open spec fn idle_fds_of(s: Seq<ConnectionRecord>, now_ns: u64, timeout_secs: u64) -> Seq<i32> {
    s.filter_map(|r: ConnectionRecord| if is_idle(r, now_ns, timeout_secs) { Some(r.fd) } else { None })
}

/// The connections the idle sweep at `now_ns` leaves open.
pub open spec fn live_at(s: Seq<ConnectionRecord>, now_ns: u64, timeout_secs: u64) -> Seq<ConnectionRecord> {
    s.filter(|r: ConnectionRecord| !is_idle(r, now_ns, timeout_secs))
}

/// The table without any connection on `fd`.
pub open spec fn without_fd(s: Seq<ConnectionRecord>, fd: i32) -> Seq<ConnectionRecord> {
    s.filter(|r: ConnectionRecord| r.fd != fd)
}

pub open spec fn has_fd(s: Seq<ConnectionRecord>, fd: i32) -> bool {
    exists|i: int| 0 <= i < s.len() && #[trigger] s[i].fd == fd
}

/// The earliest moment any connection not parked on a wait goes idle.
pub open spec fn next_idle_deadline_of(s: Seq<ConnectionRecord>, timeout_secs: u64) -> Option<u64>
    decreases s.len(),
{
    if s.len() == 0 {
        None
    } else {
        let own: Option<u64> = if s.last().pending_wait {
            None
        } else {
            Some(idle_deadline(s.last(), timeout_secs) as u64)
        };
        earliest(next_idle_deadline_of(s.drop_last(), timeout_secs), own)
    }
}

/// One element more of a prefix filters to one element more, or none.
proof fn lemma_filter_step<A>(s: Seq<A>, p: spec_fn(A) -> bool, i: int)
    requires
        0 <= i < s.len(),
    ensures
        s.take(i + 1).filter(p) == if p(s[i]) { s.take(i).filter(p).push(s[i]) } else { s.take(i).filter(p) },
{
    reveal(Seq::filter);
    assert(s.take(i + 1).drop_last() =~= s.take(i));
}

proof fn lemma_filter_map_step<A, B>(s: Seq<A>, f: spec_fn(A) -> Option<B>, i: int)
    requires
        0 <= i < s.len(),
    ensures
        s.take(i + 1).filter_map(f) == match f(s[i]) {
            Some(b) => s.take(i).filter_map(f).push(b),
            None => s.take(i).filter_map(f),
        },
{
    assert(s.take(i + 1).drop_last() =~= s.take(i));
    assert(s.take(i + 1).last() == s[i]);
}

proof fn lemma_deadline_step(s: Seq<ConnectionRecord>, timeout_secs: u64, i: int)
    requires
        0 <= i < s.len(),
    ensures
        next_idle_deadline_of(s.take(i + 1), timeout_secs) == earliest(
            next_idle_deadline_of(s.take(i), timeout_secs),
            if s[i].pending_wait { None } else { Some(idle_deadline(s[i], timeout_secs) as u64) },
        ),
{
    assert(s.take(i + 1).drop_last() =~= s.take(i));
}

/// What the next idle deadline says of each connection: none goes idle
/// before it, and one goes idle exactly then.
pub proof fn lemma_next_idle_deadline(s: Seq<ConnectionRecord>, timeout_secs: u64)
    ensures
        match next_idle_deadline_of(s, timeout_secs) {
            Some(d) => {
                &&& forall|j: int| 0 <= j < s.len() && !s[j].pending_wait ==> d <= idle_deadline(#[trigger] s[j], timeout_secs)
                &&& exists|j: int| 0 <= j < s.len() && !s[j].pending_wait && d == idle_deadline(#[trigger] s[j], timeout_secs)
            },
            None => forall|j: int| 0 <= j < s.len() ==> (#[trigger] s[j]).pending_wait,
        },
    decreases s.len(),
{
    if s.len() > 0 {
        let t = s.drop_last();
        lemma_next_idle_deadline(t, timeout_secs);
        let last = s.len() - 1;
        assert(s[last] == s.last());
        let own: Option<u64> = if s.last().pending_wait {
            None
        } else {
            Some(idle_deadline(s.last(), timeout_secs) as u64)
        };
        assert(0 <= idle_deadline(s.last(), timeout_secs) <= u64::MAX);
        match next_idle_deadline_of(s, timeout_secs) {
            Some(d) => {
                assert forall|j: int| 0 <= j < s.len() && !s[j].pending_wait implies d <= idle_deadline(#[trigger] s[j], timeout_secs) by {
                    if j < last {
                        assert(t[j] == s[j]);
                    }
                }
                match next_idle_deadline_of(t, timeout_secs) {
                    Some(dt) => {
                        let w = choose|j: int| 0 <= j < t.len() && !t[j].pending_wait && dt == idle_deadline(#[trigger] t[j], timeout_secs);
                        assert(s[w] == t[w]);
                        if d == dt {
                            assert(0 <= w < s.len() && !s[w].pending_wait && d == idle_deadline(s[w], timeout_secs));
                        } else {
                            assert(0 <= last < s.len() && !s[last].pending_wait && d == idle_deadline(s[last], timeout_secs));
                        }
                    },
                    None => {
                        assert(0 <= last < s.len() && !s[last].pending_wait && d == idle_deadline(s[last], timeout_secs));
                    },
                }
            },
            None => {
                assert forall|j: int| 0 <= j < s.len() implies (#[trigger] s[j]).pending_wait by {
                    if j < last {
                        assert(t[j] == s[j]);
                    }
                }
            },
        }
    }
}

impl ConnectionTable {
    pub closed spec fn view(&self) -> Seq<ConnectionRecord> {
        self.records@
    }

    pub closed spec fn spec_max_connections(&self) -> usize {
        self.max_connections
    }

    pub fn new(max_connections: usize) -> (t: Self)
        ensures
            t.view() == Seq::<ConnectionRecord>::empty(),
            t.spec_max_connections() == max_connections,
    {
        ConnectionTable { records: Vec::new(), max_connections }
    }

    pub fn len(&self) -> (n: usize)
        ensures
            n == self.view().len(),
    {
        self.records.len()
    }

    pub fn max_connections(&self) -> (n: usize)
        ensures
            n == self.spec_max_connections(),
    {
        self.max_connections
    }

    /// Change the cap. Connections already open stay open: the cap refuses
    /// new ones, it does not cut existing ones off.
    pub fn set_max_connections(&mut self, max_connections: usize)
        ensures
            final(self).view() == old(self).view(),
            final(self).spec_max_connections() == max_connections,
    {
        self.max_connections = max_connections;
    }

    pub fn contains(&self, fd: i32) -> (r: bool)
        ensures
            r == has_fd(self.view(), fd),
    {
        let n = self.records.len();
        let mut i: usize = 0;
        while i < n
            invariant
                n == self.records@.len(),
                0 <= i <= n,
                forall|j: int| 0 <= j < i ==> self.records@[j].fd != fd,
            decreases n - i,
        {
            if self.records[i].fd == fd {
                return true;
            }
            i += 1;
        }
        false
    }

    /// Take a newly accepted connection, if there is room and the fd is not
    /// already in the table.
    pub fn accept(&mut self, fd: i32, now_ns: u64) -> (r: bool)
        ensures
            r == (old(self).view().len() < old(self).spec_max_connections() && !has_fd(old(self).view(), fd)),
            final(self).spec_max_connections() == old(self).spec_max_connections(),
            final(self).view() == if r {
                old(self).view().push(ConnectionRecord { fd, last_activity_ns: now_ns, pending_wait: false })
            } else {
                old(self).view()
            },
    {
        if self.records.len() >= self.max_connections || self.contains(fd) {
            return false;
        }
        self.records.push(ConnectionRecord { fd, last_activity_ns: now_ns, pending_wait: false });
        true
    }

    /// Note that a connection was heard from, and whether it is now parked on
    /// a wait. Unknown fds change nothing.
    pub fn record_activity(&mut self, fd: i32, now_ns: u64, pending_wait: bool)
        ensures
            final(self).spec_max_connections() == old(self).spec_max_connections(),
            final(self).view().len() == old(self).view().len(),
            forall|j: int| 0 <= j < old(self).view().len() ==> #[trigger] final(self).view()[j] == if old(self).view()[j].fd == fd {
                ConnectionRecord { fd, last_activity_ns: now_ns, pending_wait }
            } else {
                old(self).view()[j]
            },
    {
        let n = self.records.len();
        let mut i: usize = 0;
        while i < n
            invariant
                n == self.records@.len(),
                n == old(self).records@.len(),
                self.max_connections == old(self).max_connections,
                0 <= i <= n,
                forall|j: int| 0 <= j < i ==> #[trigger] self.records@[j] == if old(self).records@[j].fd == fd {
                    ConnectionRecord { fd, last_activity_ns: now_ns, pending_wait }
                } else {
                    old(self).records@[j]
                },
                forall|j: int| i <= j < n ==> #[trigger] self.records@[j] == old(self).records@[j],
            decreases n - i,
        {
            if self.records[i].fd == fd {
                self.records.set(i, ConnectionRecord { fd, last_activity_ns: now_ns, pending_wait });
            }
            i += 1;
        }
    }

    /// Forget the connection on `fd`, saying whether there was one.
    pub fn remove(&mut self, fd: i32) -> (r: bool)
        ensures
            r == has_fd(old(self).view(), fd),
            final(self).view() == without_fd(old(self).view(), fd),
            final(self).spec_max_connections() == old(self).spec_max_connections(),
    {
        let ghost p = |r: ConnectionRecord| r.fd != fd;
        let ghost s = self.records@;
        let mut kept: Vec<ConnectionRecord> = Vec::new();
        let mut found = false;
        let n = self.records.len();
        let mut i: usize = 0;
        while i < n
            invariant
                n == s.len(),
                s == self.records@,
                0 <= i <= n,
                kept@ == s.take(i as int).filter(p),
                forall|x: ConnectionRecord| #[trigger] p(x) == (x.fd != fd),
                found == exists|j: int| 0 <= j < i && #[trigger] s[j].fd == fd,
            decreases n - i,
        {
            let r = self.records[i];
            proof {
                lemma_filter_step(s, p, i as int);
                assert(p(s[i as int]) == (r.fd != fd));
            }
            if r.fd == fd {
                found = true;
            } else {
                kept.push(r);
            }
            i += 1;
        }
        proof {
            assert(s.take(n as int) =~= s);
        }
        self.records = kept;
        found
    }

    /// The fds of the connections that are idle at `now_ns`.
    pub fn idle_fds(&self, now_ns: u64, timeout_secs: u64) -> (fds: Vec<i32>)
        ensures
            fds@ == idle_fds_of(self.view(), now_ns, timeout_secs),
    {
        let ghost f = |r: ConnectionRecord| if is_idle(r, now_ns, timeout_secs) { Some(r.fd) } else { None };
        let ghost s = self.records@;
        let mut fds: Vec<i32> = Vec::new();
        let n = self.records.len();
        let mut i: usize = 0;
        while i < n
            invariant
                n == s.len(),
                s == self.records@,
                0 <= i <= n,
                fds@ == s.take(i as int).filter_map(f),
                forall|x: ConnectionRecord| #[trigger] f(x) == if is_idle(x, now_ns, timeout_secs) { Some(x.fd) } else { None },
            decreases n - i,
        {
            let r = self.records[i];
            proof {
                lemma_filter_map_step(s, f, i as int);
                assert(r == s[i as int]);
                assert(f(r) == if is_idle(r, now_ns, timeout_secs) { Some(r.fd) } else { None });
            }
            if !r.pending_wait && idle_deadline_ns(r, timeout_secs) <= now_ns {
                fds.push(r.fd);
            }
            i += 1;
        }
        proof {
            assert(s.take(n as int) =~= s);
        }
        fds
    }

    /// Close every connection that is idle at `now_ns`: the table keeps the
    /// rest, and the fds closed come back in table order.
    pub fn close_idle(&mut self, now_ns: u64, timeout_secs: u64) -> (fds: Vec<i32>)
        ensures
            fds@ == idle_fds_of(old(self).view(), now_ns, timeout_secs),
            final(self).view() == live_at(old(self).view(), now_ns, timeout_secs),
            final(self).spec_max_connections() == old(self).spec_max_connections(),
    {
        let ghost f = |r: ConnectionRecord| if is_idle(r, now_ns, timeout_secs) { Some(r.fd) } else { None };
        let ghost p = |r: ConnectionRecord| !is_idle(r, now_ns, timeout_secs);
        let ghost s = self.records@;
        let mut fds: Vec<i32> = Vec::new();
        let mut kept: Vec<ConnectionRecord> = Vec::new();
        let n = self.records.len();
        let mut i: usize = 0;
        while i < n
            invariant
                n == s.len(),
                s == self.records@,
                0 <= i <= n,
                fds@ == s.take(i as int).filter_map(f),
                kept@ == s.take(i as int).filter(p),
                forall|x: ConnectionRecord| #[trigger] f(x) == if is_idle(x, now_ns, timeout_secs) { Some(x.fd) } else { None },
                forall|x: ConnectionRecord| #[trigger] p(x) == !is_idle(x, now_ns, timeout_secs),
            decreases n - i,
        {
            let r = self.records[i];
            proof {
                lemma_filter_map_step(s, f, i as int);
                lemma_filter_step(s, p, i as int);
                assert(r == s[i as int]);
                assert(f(r) == if is_idle(r, now_ns, timeout_secs) { Some(r.fd) } else { None });
                assert(p(r) == !is_idle(r, now_ns, timeout_secs));
            }
            if !r.pending_wait && idle_deadline_ns(r, timeout_secs) <= now_ns {
                fds.push(r.fd);
            } else {
                kept.push(r);
            }
            i += 1;
        }
        proof {
            assert(s.take(n as int) =~= s);
        }
        self.records = kept;
        fds
    }

    /// Whether any connection is parked on a wait.
    pub fn has_pending_waits(&self) -> (r: bool)
        ensures
            r == exists|j: int| 0 <= j < self.view().len() && (#[trigger] self.view()[j]).pending_wait,
    {
        let n = self.records.len();
        let mut i: usize = 0;
        while i < n
            invariant
                n == self.records@.len(),
                0 <= i <= n,
                forall|j: int| 0 <= j < i ==> !(#[trigger] self.records@[j]).pending_wait,
            decreases n - i,
        {
            if self.records[i].pending_wait {
                assert(self.view()[i as int].pending_wait);
                return true;
            }
            i += 1;
        }
        false
    }

    /// The earliest moment a connection not parked on a wait goes idle.
    pub fn next_idle_deadline_ns(&self, timeout_secs: u64) -> (d: Option<u64>)
        ensures
            d == next_idle_deadline_of(self.view(), timeout_secs),
    {
        let ghost s = self.records@;
        let mut next: Option<u64> = None;
        let n = self.records.len();
        let mut i: usize = 0;
        while i < n
            invariant
                n == s.len(),
                s == self.records@,
                0 <= i <= n,
                next == next_idle_deadline_of(s.take(i as int), timeout_secs),
            decreases n - i,
        {
            let r = self.records[i];
            proof {
                lemma_deadline_step(s, timeout_secs, i as int);
            }
            if !r.pending_wait {
                let d = idle_deadline_ns(r, timeout_secs);
                next = match next {
                    Some(x) => Some(if x <= d { x } else { d }),
                    None => Some(d),
                };
            }
            i += 1;
        }
        proof {
            assert(s.take(n as int) =~= s);
        }
        next
    }
}

/// When a connection goes idle, held at `u64::MAX`.
pub fn idle_deadline_ns(r: ConnectionRecord, timeout_secs: u64) -> (d: u64)
    ensures
        d == idle_deadline(r, timeout_secs),
{
    let timeout_ns = match timeout_secs.checked_mul(NANOS_PER_SEC) {
        Some(t) => t,
        None => u64::MAX,
    };
    r.last_activity_ns.saturating_add(timeout_ns)
}

/// After the idle sweep no connection left in the table is idle, and every
/// connection it closed was.
pub proof fn law_sweep_leaves_nothing_idle(s: Seq<ConnectionRecord>, now_ns: u64, timeout_secs: u64)
    ensures
        forall|j: int| 0 <= j < live_at(s, now_ns, timeout_secs).len()
            ==> !is_idle(#[trigger] live_at(s, now_ns, timeout_secs)[j], now_ns, timeout_secs),
        live_at(s, now_ns, timeout_secs).len() + idle_fds_of(s, now_ns, timeout_secs).len() == s.len(),
    decreases s.len(),
{
    let p = |r: ConnectionRecord| !is_idle(r, now_ns, timeout_secs);
    s.filter_lemma(p);
    if s.len() > 0 {
        law_sweep_leaves_nothing_idle(s.drop_last(), now_ns, timeout_secs);
        reveal(Seq::filter);
    }
}

/// Nothing goes idle before the next idle deadline: a wait that ends no
/// later than it misses no idle connection.
pub proof fn law_nothing_idle_before_the_deadline(s: Seq<ConnectionRecord>, now_ns: u64, timeout_secs: u64)
    requires
        match next_idle_deadline_of(s, timeout_secs) {
            Some(d) => now_ns < d,
            None => true,
        },
    ensures
        idle_fds_of(s, now_ns, timeout_secs) == Seq::<i32>::empty(),
{
    lemma_next_idle_deadline(s, timeout_secs);
    lemma_no_idle(s, now_ns, timeout_secs);
}

proof fn lemma_no_idle(s: Seq<ConnectionRecord>, now_ns: u64, timeout_secs: u64)
    requires
        forall|j: int| 0 <= j < s.len() ==> !is_idle(#[trigger] s[j], now_ns, timeout_secs),
    ensures
        idle_fds_of(s, now_ns, timeout_secs) == Seq::<i32>::empty(),
    decreases s.len(),
{
    if s.len() > 0 {
        let t = s.drop_last();
        assert forall|j: int| 0 <= j < t.len() implies !is_idle(#[trigger] t[j], now_ns, timeout_secs) by {
            assert(t[j] == s[j]);
        }
        lemma_no_idle(t, now_ns, timeout_secs);
        assert(s[s.len() - 1] == s.last());
    }
}

/// Once a connection is removed, nothing in the table is on its fd.
pub proof fn law_removed_fd_is_gone(s: Seq<ConnectionRecord>, fd: i32)
    ensures
        !has_fd(without_fd(s, fd), fd),
        without_fd(s, fd).len() <= s.len(),
{
    let p = |r: ConnectionRecord| r.fd != fd;
    s.filter_lemma(p);
    s.lemma_filter_len(p);
}

} // verus!
