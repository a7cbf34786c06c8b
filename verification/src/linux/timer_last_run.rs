//! Matching a forked last-run write back to its outcome.
//!
//! The timer last-run write is asynchronous: a child of PID 1 makes it and
//! carries the result in its exit status. This is a small ring of
//! outstanding writes keyed by pid, so a failed write is reported rather
//! than discarded with the child. It is not the job machinery: a last-run
//! write is not a supervised job and has no operation or service state.
use vstd::prelude::*;
use std::collections::VecDeque;
use crate::model::job::ChildExitStatus;

verus! {

/// How many outstanding writes to remember: a promise that a child which
/// somehow never gets reaped cannot grow the ring without bound.
pub const MAX_OUTSTANDING: usize = 64;

#[derive(Debug, Clone, PartialEq, Eq)]
pub struct OutstandingWrite {
    pub pid: u32,
    pub service: String,
    pub schedule: String,
}

/// A last-run write whose child reported failure.
#[derive(Debug, Clone, PartialEq, Eq)]
pub struct FailedTimerLastRunWrite {
    pub service: String,
    pub schedule: String,
}

#[derive(Debug)]
pub struct TimerLastRunWrites {
    outstanding: VecDeque<OutstandingWrite>,
}

/// The first position of a write for `pid`, where there is one.
pub open spec fn position_of(s: Seq<OutstandingWrite>, pid: u32) -> Option<int>
    decreases s.len(),
{
    if s.len() == 0 {
        None
    } else {
        match position_of(s.drop_last(), pid) {
            Some(i) => Some(i),
            None => if s.last().pid == pid { Some(s.len() - 1) } else { None },
        }
    }
}

proof fn lemma_position_of(s: Seq<OutstandingWrite>, pid: u32)
    ensures
        match position_of(s, pid) {
            Some(i) => 0 <= i < s.len() && s[i].pid == pid && forall|j: int| 0 <= j < i ==> s[j].pid != pid,
            None => forall|j: int| 0 <= j < s.len() ==> s[j].pid != pid,
        },
    decreases s.len(),
{
    if s.len() > 0 {
        let t = s.drop_last();
        lemma_position_of(t, pid);
        assert forall|j: int| 0 <= j < t.len() implies t[j] == s[j] by {}
    }
}

/// The ring after recording a write: the oldest is dropped when it is full.
pub open spec fn after_record(s: Seq<OutstandingWrite>, w: OutstandingWrite) -> Seq<OutstandingWrite> {
    if s.len() >= MAX_OUTSTANDING { s.drop_first().push(w) } else { s.push(w) }
}

/// Whether an exit means the write failed: anything but a clean exit.
pub open spec fn write_failed(status: ChildExitStatus) -> bool {
    !(status == ChildExitStatus::Exited { code: 0 })
}

/// The ring after a reaped pid is claimed: its write is gone, if it had one.
pub open spec fn after_claim(s: Seq<OutstandingWrite>, pid: u32) -> Seq<OutstandingWrite> {
    match position_of(s, pid) {
        Some(i) => s.remove(i),
        None => s,
    }
}

/// What claiming a reaped pid reports: its write, where it had one and the
/// child did not exit cleanly.
pub open spec fn claim_result(s: Seq<OutstandingWrite>, pid: u32, status: ChildExitStatus) -> Option<FailedTimerLastRunWrite> {
    match position_of(s, pid) {
        Some(i) => if write_failed(status) {
            Some(FailedTimerLastRunWrite { service: s[i].service, schedule: s[i].schedule })
        } else {
            None
        },
        None => None,
    }
}

impl Default for TimerLastRunWrites {
    fn default() -> (w: Self)
        ensures
            w.wf(),
            w.view() == Seq::<OutstandingWrite>::empty(),
    {
        TimerLastRunWrites::new()
    }
}

impl TimerLastRunWrites {
    pub closed spec fn view(&self) -> Seq<OutstandingWrite> {
        self.outstanding@
    }

    /// The ring never holds more than its cap.
    pub closed spec fn wf(&self) -> bool {
        self.outstanding@.len() <= MAX_OUTSTANDING
    }

    pub fn new() -> (w: Self)
        ensures
            w.wf(),
            w.view() == Seq::<OutstandingWrite>::empty(),
    {
        TimerLastRunWrites { outstanding: VecDeque::new() }
    }

    pub fn len(&self) -> (n: usize)
        ensures
            n == self.view().len(),
    {
        self.outstanding.len()
    }

    /// Remember a forked write, dropping the oldest when the ring is full.
    pub fn record(&mut self, pid: u32, service: String, schedule: String)
        requires
            old(self).wf(),
        ensures
            final(self).wf(),
            final(self).view() == after_record(old(self).view(), OutstandingWrite { pid, service, schedule }),
    {
        if self.outstanding.len() >= MAX_OUTSTANDING {
            self.outstanding.pop_front();
        }
        self.outstanding.push_back(OutstandingWrite { pid, service, schedule });
    }

    /// Claim a reaped pid, reporting the write if it failed: `None` for a pid
    /// this does not know (every other untracked child) and for a clean exit.
    pub fn claim(&mut self, pid: u32, status: ChildExitStatus) -> (r: Option<FailedTimerLastRunWrite>)
        requires
            old(self).wf(),
        ensures
            final(self).wf(),
            final(self).view() == after_claim(old(self).view(), pid),
            r == claim_result(old(self).view(), pid, status),
    {
        proof {
            lemma_position_of(self.outstanding@, pid);
        }
        let ghost before = self.outstanding@;
        let n = self.outstanding.len();
        let mut i: usize = 0;
        while i < n
            invariant
                self.outstanding@ == before,
                before == old(self).view(),
                before.len() <= MAX_OUTSTANDING,
                n == before.len(),
                0 <= i <= n,
                forall|j: int| 0 <= j < i ==> before[j].pid != pid,
                match position_of(before, pid) {
                    Some(k) => 0 <= k < before.len() && before[k].pid == pid
                        && forall|j: int| 0 <= j < k ==> before[j].pid != pid,
                    None => forall|j: int| 0 <= j < before.len() ==> before[j].pid != pid,
                },
            decreases n - i,
        {
            if self.outstanding[i].pid == pid {
                proof {
                    assert(position_of(before, pid) == Some(i as int));
                }
                let removed = self.outstanding.remove(i);
                let result = match removed {
                    Some(write) => match status {
                        ChildExitStatus::Exited { code: 0 } => None,
                        _ => Some(FailedTimerLastRunWrite { service: write.service, schedule: write.schedule }),
                    },
                    None => None,
                };
                return result;
            }
            i += 1;
        }
        None
    }
}

/// Recording a write and then reaping its child reports exactly that write
/// when the child failed, and nothing when it exited cleanly; either way the
/// write is no longer outstanding. Holds when no earlier write is
/// outstanding for the pid.
pub proof fn law_failed_write_is_reported(s: Seq<OutstandingWrite>, w: OutstandingWrite, status: ChildExitStatus)
    requires
        s.len() <= MAX_OUTSTANDING,
        position_of(s, w.pid) is None,
    ensures
        claim_result(after_record(s, w), w.pid, status) == if write_failed(status) {
            Some(FailedTimerLastRunWrite { service: w.service, schedule: w.schedule })
        } else {
            None
        },
        position_of(after_claim(after_record(s, w), w.pid), w.pid) is None,
        after_claim(after_record(s, w), w.pid).len() + 1 == after_record(s, w).len(),
{
    lemma_position_of(s, w.pid);
    let t = after_record(s, w);
    assert(t[t.len() - 1] == w);
    if s.len() >= MAX_OUTSTANDING {
        assert forall|j: int| 0 <= j < t.len() - 1 implies t[j].pid != w.pid by {
            assert(t[j] == s[j + 1]);
        }
    } else {
        assert forall|j: int| 0 <= j < t.len() - 1 implies t[j].pid != w.pid by {
            assert(t[j] == s[j]);
        }
    }
    lemma_position_of(t, w.pid);
    assert(position_of(t, w.pid) == Some(t.len() - 1));
    let u = t.remove(t.len() - 1);
    lemma_position_of(u, w.pid);
    assert forall|j: int| 0 <= j < u.len() implies u[j].pid != w.pid by {
        assert(u[j] == t[j]);
    }
}

/// Claiming removes the write, so a pid is never matched twice: a second
/// claim of the same pid reports nothing and changes nothing. Holds when no
/// two outstanding writes share a pid.
pub proof fn law_claimed_pid_is_gone(s: Seq<OutstandingWrite>, pid: u32, first: ChildExitStatus, second: ChildExitStatus)
    requires
        forall|j: int, k: int| 0 <= j < k < s.len() ==> s[j].pid != s[k].pid,
    ensures
        claim_result(after_claim(s, pid), pid, second) is None,
        after_claim(after_claim(s, pid), pid) == after_claim(s, pid),
{
    lemma_position_of(s, pid);
    let t = after_claim(s, pid);
    match position_of(s, pid) {
        Some(i) => {
            assert forall|j: int| 0 <= j < t.len() implies t[j].pid != pid by {
                if j < i {
                    assert(t[j] == s[j]);
                } else {
                    assert(t[j] == s[j + 1]);
                }
            }
        },
        None => {},
    }
    lemma_position_of(t, pid);
}

/// A pid no write is outstanding for is not claimed: every other untracked
/// child passes straight through.
pub proof fn law_unknown_pid_is_not_claimed(s: Seq<OutstandingWrite>, pid: u32, status: ChildExitStatus)
    requires
        forall|j: int| 0 <= j < s.len() ==> s[j].pid != pid,
    ensures
        claim_result(s, pid, status) is None,
        after_claim(s, pid) == s,
{
    lemma_position_of(s, pid);
}

/// The ring never grows past its cap, however many writes are recorded:
/// the newest is always kept, and at the cap the oldest is the one dropped.
pub proof fn law_record_keeps_the_bound(s: Seq<OutstandingWrite>, w: OutstandingWrite)
    requires
        s.len() <= MAX_OUTSTANDING,
    ensures
        after_record(s, w).len() <= MAX_OUTSTANDING,
        after_record(s, w).last() == w,
        s.len() == MAX_OUTSTANDING ==> after_record(s, w) == s.drop_first().push(w),
        s.len() < MAX_OUTSTANDING ==> after_record(s, w) == s.push(w),
{
}

/// The ring after recording each of `ws` in turn.
pub open spec fn after_records(s: Seq<OutstandingWrite>, ws: Seq<OutstandingWrite>) -> Seq<OutstandingWrite>
    decreases ws.len(),
{
    if ws.len() == 0 {
        s
    } else {
        after_record(after_records(s, ws.drop_last()), ws.last())
    }
}

proof fn lemma_write_survives(s: Seq<OutstandingWrite>, w: OutstandingWrite, later: Seq<OutstandingWrite>)
    requires
        s.len() <= MAX_OUTSTANDING,
        forall|j: int| 0 <= j < s.len() ==> (#[trigger] s[j]).pid != w.pid,
        later.len() < MAX_OUTSTANDING,
        forall|j: int| 0 <= j < later.len() ==> (#[trigger] later[j]).pid != w.pid,
    ensures
        ({
            let t = after_records(after_record(s, w), later);
            let at = t.len() - 1 - later.len();
            &&& later.len() + 1 <= t.len() <= MAX_OUTSTANDING
            &&& t[at] == w
            &&& forall|j: int| 0 <= j < t.len() && j != at ==> (#[trigger] t[j]).pid != w.pid
        }),
    decreases later.len(),
{
    if later.len() == 0 {
        let t = after_record(s, w);
        if s.len() >= MAX_OUTSTANDING {
            assert forall|j: int| 0 <= j < t.len() && j != t.len() - 1 implies (#[trigger] t[j]).pid != w.pid by {
                assert(t[j] == s[j + 1]);
            }
        } else {
            assert forall|j: int| 0 <= j < t.len() && j != t.len() - 1 implies (#[trigger] t[j]).pid != w.pid by {
                assert(t[j] == s[j]);
            }
        }
    } else {
        let rest = later.drop_last();
        let x = later.last();
        assert(x == later[later.len() - 1]);
        assert forall|j: int| 0 <= j < rest.len() implies (#[trigger] rest[j]).pid != w.pid by {
            assert(rest[j] == later[j]);
        }
        lemma_write_survives(s, w, rest);
        let t = after_records(after_record(s, w), rest);
        let at = t.len() - 1 - rest.len();
        let t2 = after_record(t, x);
        if t.len() >= MAX_OUTSTANDING {
            assert(t2[at - 1] == t[at]);
            assert forall|j: int| 0 <= j < t2.len() && j != at - 1 implies (#[trigger] t2[j]).pid != w.pid by {
                if j < t2.len() - 1 {
                    assert(t2[j] == t[j + 1]);
                }
            }
        } else {
            assert(t2[at] == t[at]);
            assert forall|j: int| 0 <= j < t2.len() && j != at implies (#[trigger] t2[j]).pid != w.pid by {
                if j < t2.len() - 1 {
                    assert(t2[j] == t[j]);
                }
            }
        }
    }
}

/// A write outlives the records that follow it while they are fewer than
/// the ring holds: reaping its child then reports exactly that write when
/// the child failed and nothing when it exited cleanly, and either way the
/// write is no longer outstanding. Holds for pids no other write shares.
pub proof fn law_write_outlives_later_records(
    s: Seq<OutstandingWrite>,
    w: OutstandingWrite,
    later: Seq<OutstandingWrite>,
    status: ChildExitStatus,
)
    requires
        s.len() <= MAX_OUTSTANDING,
        forall|j: int| 0 <= j < s.len() ==> (#[trigger] s[j]).pid != w.pid,
        later.len() < MAX_OUTSTANDING,
        forall|j: int| 0 <= j < later.len() ==> (#[trigger] later[j]).pid != w.pid,
    ensures
        claim_result(after_records(after_record(s, w), later), w.pid, status) == if write_failed(status) {
            Some(FailedTimerLastRunWrite { service: w.service, schedule: w.schedule })
        } else {
            None
        },
        position_of(after_claim(after_records(after_record(s, w), later), w.pid), w.pid) is None,
{
    lemma_write_survives(s, w, later);
    let t = after_records(after_record(s, w), later);
    let at = t.len() - 1 - later.len();
    lemma_position_of(t, w.pid);
    assert(position_of(t, w.pid) == Some(at));
    let u = t.remove(at);
    assert forall|j: int| 0 <= j < u.len() implies (#[trigger] u[j]).pid != w.pid by {
        if j < at {
            assert(u[j] == t[j]);
        } else {
            assert(u[j] == t[j + 1]);
        }
    }
    lemma_position_of(u, w.pid);
}

} // verus!
