//! Event sources: what each epoll token stands for, and the order in which a
//! turn handles what one wait returned.
use vstd::prelude::*;
use vstd::multiset::Multiset;
use crate::seqs::{flat_map, lemma_flat_map_step, lemma_flat_map_all};
use crate::model::service::{ServiceEntry, ServiceState, ServiceTable};

verus! {

/// What an epoll event came from.
#[derive(Debug, Clone, Copy, PartialEq, Eq)]
pub enum RuntimeEventSource {
    Pid1Signal,
    ControlListener,
    ControlConnection { fd: i32 },
    NotifySocket,
    ShutdownDeadlineTimer,
    LifecycleDeadlineTimer,
    ServiceLogPipe { fd: i32 },
    JfsDevice { fd: i32 },
    FilesystemCheckHelper { result_fd: i32 },
    FilesystemCheckHelperExit { pidfd: i32 },
    ProcessSetup { fd: i32 },
    PowerButton { fd: i32 },
    CalendarTimer { fd: i32 },
    RegistryWatch { fd: i32 },
    JobsListener,
    JobsConnection { fd: i32 },
}

/// Why a token or a descriptor does not name a source.
#[derive(Debug, Clone, Copy, PartialEq, Eq)]
pub enum RuntimeEventSourceDecodeError {
    UnknownTag { token: u64 },
    InvalidDescriptor { token: u64 },
    NegativeDescriptor { fd: i32 },
}

/// The span of the descriptor half of a token.
pub open spec fn fd_span() -> int {
    0x1_0000_0000
}

impl RuntimeEventSource {
    /// The source's tag: the upper half of its token.
    pub open spec fn spec_tag(self) -> u64 {
        match self {
            RuntimeEventSource::Pid1Signal => 1,
            RuntimeEventSource::ControlListener => 2,
            RuntimeEventSource::ControlConnection { .. } => 3,
            RuntimeEventSource::NotifySocket => 4,
            RuntimeEventSource::ShutdownDeadlineTimer => 5,
            RuntimeEventSource::LifecycleDeadlineTimer => 6,
            RuntimeEventSource::ServiceLogPipe { .. } => 7,
            RuntimeEventSource::JfsDevice { .. } => 8,
            RuntimeEventSource::FilesystemCheckHelper { .. } => 9,
            RuntimeEventSource::FilesystemCheckHelperExit { .. } => 10,
            RuntimeEventSource::ProcessSetup { .. } => 11,
            RuntimeEventSource::PowerButton { .. } => 12,
            RuntimeEventSource::CalendarTimer { .. } => 13,
            RuntimeEventSource::RegistryWatch { .. } => 14,
            RuntimeEventSource::JobsListener => 15,
            RuntimeEventSource::JobsConnection { .. } => 16,
        }
    }

    /// The descriptor a source carries; 0 for a source that carries none.
    pub open spec fn spec_fd(self) -> i32 {
        match self {
            RuntimeEventSource::ControlConnection { fd } => fd,
            RuntimeEventSource::ServiceLogPipe { fd } => fd,
            RuntimeEventSource::JfsDevice { fd } => fd,
            RuntimeEventSource::FilesystemCheckHelper { result_fd } => result_fd,
            RuntimeEventSource::FilesystemCheckHelperExit { pidfd } => pidfd,
            RuntimeEventSource::ProcessSetup { fd } => fd,
            RuntimeEventSource::PowerButton { fd } => fd,
            RuntimeEventSource::CalendarTimer { fd } => fd,
            RuntimeEventSource::RegistryWatch { fd } => fd,
            RuntimeEventSource::JobsConnection { fd } => fd,
            _ => 0,
        }
    }

    /// A source can be registered when the descriptor it carries is one.
    pub open spec fn spec_valid(self) -> bool {
        self.spec_fd() >= 0
    }

    /// The epoll token of a source: its tag above, its descriptor below.
    pub open spec fn spec_token(self) -> u64 {
        (self.spec_tag() * fd_span() + self.spec_fd()) as u64
    }

    fn tag(&self) -> (t: u64)
        ensures
            t == self.spec_tag(),
    {
        match self {
            RuntimeEventSource::Pid1Signal => 1,
            RuntimeEventSource::ControlListener => 2,
            RuntimeEventSource::ControlConnection { .. } => 3,
            RuntimeEventSource::NotifySocket => 4,
            RuntimeEventSource::ShutdownDeadlineTimer => 5,
            RuntimeEventSource::LifecycleDeadlineTimer => 6,
            RuntimeEventSource::ServiceLogPipe { .. } => 7,
            RuntimeEventSource::JfsDevice { .. } => 8,
            RuntimeEventSource::FilesystemCheckHelper { .. } => 9,
            RuntimeEventSource::FilesystemCheckHelperExit { .. } => 10,
            RuntimeEventSource::ProcessSetup { .. } => 11,
            RuntimeEventSource::PowerButton { .. } => 12,
            RuntimeEventSource::CalendarTimer { .. } => 13,
            RuntimeEventSource::RegistryWatch { .. } => 14,
            RuntimeEventSource::JobsListener => 15,
            RuntimeEventSource::JobsConnection { .. } => 16,
        }
    }

    fn fd(&self) -> (fd: i32)
        ensures
            fd == self.spec_fd(),
    {
        match self {
            RuntimeEventSource::ControlConnection { fd } => *fd,
            RuntimeEventSource::ServiceLogPipe { fd } => *fd,
            RuntimeEventSource::JfsDevice { fd } => *fd,
            RuntimeEventSource::FilesystemCheckHelper { result_fd } => *result_fd,
            RuntimeEventSource::FilesystemCheckHelperExit { pidfd } => *pidfd,
            RuntimeEventSource::ProcessSetup { fd } => *fd,
            RuntimeEventSource::PowerButton { fd } => *fd,
            RuntimeEventSource::CalendarTimer { fd } => *fd,
            RuntimeEventSource::RegistryWatch { fd } => *fd,
            RuntimeEventSource::JobsConnection { fd } => *fd,
            _ => 0,
        }
    }

    /// The token this source is registered under.
    pub fn token(&self) -> (t: u64)
        requires
            self.spec_valid(),
        ensures
            t == self.spec_token(),
    {
        let tag = self.tag();
        let fd = self.fd();
        tag * 0x1_0000_0000 + fd as u64
    }

    /// The source a token was registered for.
    pub open spec fn spec_from_token(token: u64) -> Result<RuntimeEventSource, RuntimeEventSourceDecodeError> {
        let tag = token / 0x1_0000_0000;
        let low = token % 0x1_0000_0000;
        if low > 0x7fff_ffff {
            Err(RuntimeEventSourceDecodeError::InvalidDescriptor { token })
        } else {
            let fd = low as i32;
            if tag == 1 && low == 0 {
                Ok(RuntimeEventSource::Pid1Signal)
            } else if tag == 2 && low == 0 {
                Ok(RuntimeEventSource::ControlListener)
            } else if tag == 3 {
                Ok(RuntimeEventSource::ControlConnection { fd })
            } else if tag == 4 && low == 0 {
                Ok(RuntimeEventSource::NotifySocket)
            } else if tag == 5 && low == 0 {
                Ok(RuntimeEventSource::ShutdownDeadlineTimer)
            } else if tag == 6 && low == 0 {
                Ok(RuntimeEventSource::LifecycleDeadlineTimer)
            } else if tag == 7 {
                Ok(RuntimeEventSource::ServiceLogPipe { fd })
            } else if tag == 8 {
                Ok(RuntimeEventSource::JfsDevice { fd })
            } else if tag == 9 {
                Ok(RuntimeEventSource::FilesystemCheckHelper { result_fd: fd })
            } else if tag == 10 {
                Ok(RuntimeEventSource::FilesystemCheckHelperExit { pidfd: fd })
            } else if tag == 11 {
                Ok(RuntimeEventSource::ProcessSetup { fd })
            } else if tag == 12 {
                Ok(RuntimeEventSource::PowerButton { fd })
            } else if tag == 13 {
                Ok(RuntimeEventSource::CalendarTimer { fd })
            } else if tag == 14 {
                Ok(RuntimeEventSource::RegistryWatch { fd })
            } else if tag == 15 && low == 0 {
                Ok(RuntimeEventSource::JobsListener)
            } else if tag == 16 {
                Ok(RuntimeEventSource::JobsConnection { fd })
            } else {
                Err(RuntimeEventSourceDecodeError::UnknownTag { token })
            }
        }
    }

    pub fn from_token(token: u64) -> (r: Result<RuntimeEventSource, RuntimeEventSourceDecodeError>)
        ensures
            r == Self::spec_from_token(token),
    {
        let tag = token / 0x1_0000_0000;
        let low = token % 0x1_0000_0000;
        if low > 0x7fff_ffff {
            return Err(RuntimeEventSourceDecodeError::InvalidDescriptor { token });
        }
        let fd = low as i32;
        if tag == 1 && low == 0 {
            Ok(RuntimeEventSource::Pid1Signal)
        } else if tag == 2 && low == 0 {
            Ok(RuntimeEventSource::ControlListener)
        } else if tag == 3 {
            Ok(RuntimeEventSource::ControlConnection { fd })
        } else if tag == 4 && low == 0 {
            Ok(RuntimeEventSource::NotifySocket)
        } else if tag == 5 && low == 0 {
            Ok(RuntimeEventSource::ShutdownDeadlineTimer)
        } else if tag == 6 && low == 0 {
            Ok(RuntimeEventSource::LifecycleDeadlineTimer)
        } else if tag == 7 {
            Ok(RuntimeEventSource::ServiceLogPipe { fd })
        } else if tag == 8 {
            Ok(RuntimeEventSource::JfsDevice { fd })
        } else if tag == 9 {
            Ok(RuntimeEventSource::FilesystemCheckHelper { result_fd: fd })
        } else if tag == 10 {
            Ok(RuntimeEventSource::FilesystemCheckHelperExit { pidfd: fd })
        } else if tag == 11 {
            Ok(RuntimeEventSource::ProcessSetup { fd })
        } else if tag == 12 {
            Ok(RuntimeEventSource::PowerButton { fd })
        } else if tag == 13 {
            Ok(RuntimeEventSource::CalendarTimer { fd })
        } else if tag == 14 {
            Ok(RuntimeEventSource::RegistryWatch { fd })
        } else if tag == 15 && low == 0 {
            Ok(RuntimeEventSource::JobsListener)
        } else if tag == 16 {
            Ok(RuntimeEventSource::JobsConnection { fd })
        } else {
            Err(RuntimeEventSourceDecodeError::UnknownTag { token })
        }
    }

    /// The source for a calendar timer's descriptor.
    pub fn calendar_timer(fd: i32) -> (r: Result<RuntimeEventSource, RuntimeEventSourceDecodeError>)
        ensures
            fd >= 0 ==> r == Ok::<RuntimeEventSource, RuntimeEventSourceDecodeError>(RuntimeEventSource::CalendarTimer { fd }),
            fd < 0 ==> r == Err::<RuntimeEventSource, RuntimeEventSourceDecodeError>(RuntimeEventSourceDecodeError::NegativeDescriptor { fd }),
    {
        if fd < 0 {
            Err(RuntimeEventSourceDecodeError::NegativeDescriptor { fd })
        } else {
            Ok(RuntimeEventSource::CalendarTimer { fd })
        }
    }

    /// The source for an accepted jobs connection.
    pub fn jobs_connection(fd: i32) -> (r: Result<RuntimeEventSource, RuntimeEventSourceDecodeError>)
        ensures
            fd >= 0 ==> r == Ok::<RuntimeEventSource, RuntimeEventSourceDecodeError>(RuntimeEventSource::JobsConnection { fd }),
            fd < 0 ==> r == Err::<RuntimeEventSource, RuntimeEventSourceDecodeError>(RuntimeEventSourceDecodeError::NegativeDescriptor { fd }),
    {
        if fd < 0 {
            Err(RuntimeEventSourceDecodeError::NegativeDescriptor { fd })
        } else {
            Ok(RuntimeEventSource::JobsConnection { fd })
        }
    }
}

/// Decoding a source's token gives the source back.
pub proof fn law_token_round_trip(s: RuntimeEventSource)
    requires
        s.spec_valid(),
    ensures
        RuntimeEventSource::spec_from_token(s.spec_token()) == Ok::<RuntimeEventSource, RuntimeEventSourceDecodeError>(s),
{
    let t = s.spec_token();
    assert(t / 0x1_0000_0000 == s.spec_tag());
    assert(t % 0x1_0000_0000 == s.spec_fd());
}

/// A token decodes only to the source registered under it: no two tokens
/// name one source, and none names a source it was not made from.
pub proof fn law_token_decodes_exactly(token: u64, s: RuntimeEventSource)
    requires
        RuntimeEventSource::spec_from_token(token) == Ok::<RuntimeEventSource, RuntimeEventSourceDecodeError>(s),
    ensures
        s.spec_valid(),
        s.spec_token() == token,
{
    let tag = token / 0x1_0000_0000;
    let low = token % 0x1_0000_0000;
    assert(token == tag * 0x1_0000_0000 + low);
}

/// How urgently a turn handles a source: PID 1's signals and the power
/// button first, then the shutdown deadline, then everything else.
pub open spec fn spec_priority(s: RuntimeEventSource) -> u8 {
    match s {
        RuntimeEventSource::Pid1Signal | RuntimeEventSource::PowerButton { .. } => 0,
        RuntimeEventSource::ShutdownDeadlineTimer => 1,
        _ => 2,
    }
}

pub fn runtime_source_priority(s: RuntimeEventSource) -> (p: u8)
    ensures
        p == spec_priority(s),
{
    match s {
        RuntimeEventSource::Pid1Signal | RuntimeEventSource::PowerButton { .. } => 0,
        RuntimeEventSource::ShutdownDeadlineTimer => 1,
        _ => 2,
    }
}

/// The sources of one priority, in the order they arrived.
pub open spec fn of_priority(s: Seq<RuntimeEventSource>, p: u8) -> Seq<RuntimeEventSource> {
    flat_map(s, |x: RuntimeEventSource| if spec_priority(x) == p { seq![x] } else { Seq::empty() })
}

/// The sources ordered by priority; sources of one priority keep the order
/// they arrived in, so signals stay ahead of a flood of log-pipe events.
pub open spec fn prioritized(s: Seq<RuntimeEventSource>) -> Seq<RuntimeEventSource> {
    of_priority(s, 0) + of_priority(s, 1) + of_priority(s, 2)
}

fn append_of_priority(sources: &Vec<RuntimeEventSource>, p: u8, out: &mut Vec<RuntimeEventSource>)
    ensures
        final(out)@ == old(out)@ + of_priority(sources@, p),
{
    let ghost start = out@;
    let n = sources.len();
    let mut i: usize = 0;
    while i < n
        invariant
            n == sources@.len(),
            0 <= i <= n,
            out@ == start + of_priority(sources@.take(i as int), p),
        decreases n - i,
    {
        let s = sources[i];
        if runtime_source_priority(s) == p {
            out.push(s);
        }
        proof {
            lemma_flat_map_step(sources@, |x: RuntimeEventSource| if spec_priority(x) == p { seq![x] } else { Seq::empty() }, i as int);
            assert(out@ =~= start + of_priority(sources@.take(i as int + 1), p));
        }
        i += 1;
    }
    proof {
        lemma_flat_map_all(sources@, |x: RuntimeEventSource| if spec_priority(x) == p { seq![x] } else { Seq::empty() });
    }
}

pub fn prioritize_runtime_sources(sources: Vec<RuntimeEventSource>) -> (r: Vec<RuntimeEventSource>)
    ensures
        r@ == prioritized(sources@),
{
    let mut r: Vec<RuntimeEventSource> = Vec::new();
    append_of_priority(&sources, 0, &mut r);
    append_of_priority(&sources, 1, &mut r);
    append_of_priority(&sources, 2, &mut r);
    assert(r@ =~= prioritized(sources@));
    r
}

proof fn lemma_of_priority_all(s: Seq<RuntimeEventSource>, p: u8)
    ensures
        forall|i: int| 0 <= i < of_priority(s, p).len() ==> spec_priority(#[trigger] of_priority(s, p)[i]) == p,
    decreases s.len(),
{
    if s.len() > 0 {
        lemma_of_priority_all(s.drop_last(), p);
        let prev = of_priority(s.drop_last(), p);
        let last: Seq<RuntimeEventSource> = if spec_priority(s.last()) == p { seq![s.last()] } else { Seq::empty() };
        assert(of_priority(s, p) == prev + last);
        assert forall|i: int| 0 <= i < of_priority(s, p).len() implies spec_priority(#[trigger] of_priority(s, p)[i]) == p by {
            if i < prev.len() {
                assert(of_priority(s, p)[i] == prev[i]);
            } else {
                assert(of_priority(s, p)[i] == last[i - prev.len()]);
            }
        }
    }
}

/// No source is handled after one of lower urgency: the order is sorted by
/// priority.
pub proof fn law_prioritized_is_sorted(s: Seq<RuntimeEventSource>, i: int, j: int)
    requires
        0 <= i <= j < prioritized(s).len(),
    ensures
        spec_priority(prioritized(s)[i]) <= spec_priority(prioritized(s)[j]),
{
    lemma_of_priority_all(s, 0);
    lemma_of_priority_all(s, 1);
    lemma_of_priority_all(s, 2);
    let a = of_priority(s, 0);
    let b = of_priority(s, 1);
    let c = of_priority(s, 2);
    assert(prioritized(s) == a + b + c);
    if i < a.len() {
        assert(prioritized(s)[i] == a[i]);
    } else if i < a.len() + b.len() {
        assert(prioritized(s)[i] == b[i - a.len()]);
        assert(j >= a.len());
        if j < a.len() + b.len() {
            assert(prioritized(s)[j] == b[j - a.len()]);
        } else {
            assert(prioritized(s)[j] == c[j - a.len() - b.len()]);
        }
    } else {
        assert(prioritized(s)[i] == c[i - a.len() - b.len()]);
        assert(prioritized(s)[j] == c[j - a.len() - b.len()]);
    }
}

proof fn lemma_priority_split_len(s: Seq<RuntimeEventSource>)
    ensures
        of_priority(s, 0).len() + of_priority(s, 1).len() + of_priority(s, 2).len() == s.len(),
    decreases s.len(),
{
    if s.len() > 0 {
        lemma_priority_split_len(s.drop_last());
    }
}

/// Ordering drops no source and invents none: as many sources come out as
/// went in.
pub proof fn law_prioritized_keeps_every_source(s: Seq<RuntimeEventSource>)
    ensures
        prioritized(s).len() == s.len(),
{
    lemma_priority_split_len(s);
}

proof fn lemma_of_priority_concat(a: Seq<RuntimeEventSource>, b: Seq<RuntimeEventSource>, p: u8)
    ensures
        of_priority(a + b, p) == of_priority(a, p) + of_priority(b, p),
    decreases b.len(),
{
    if b.len() == 0 {
        assert(a + b =~= a);
        assert(of_priority(a, p) + of_priority(b, p) =~= of_priority(a, p));
    } else {
        lemma_of_priority_concat(a, b.drop_last(), p);
        assert((a + b).drop_last() =~= a + b.drop_last());
        assert((a + b).last() == b.last());
        assert(of_priority(a + b, p) =~= of_priority(a, p) + of_priority(b, p));
    }
}

proof fn lemma_of_priority_twice(s: Seq<RuntimeEventSource>, q: u8, p: u8)
    ensures
        of_priority(of_priority(s, q), p) == if p == q { of_priority(s, q) } else { Seq::<RuntimeEventSource>::empty() },
    decreases s.len(),
{
    if s.len() == 0 {
        assert(of_priority(s, q) =~= Seq::<RuntimeEventSource>::empty());
    } else {
        let x = s.last();
        let tail: Seq<RuntimeEventSource> = if spec_priority(x) == q { seq![x] } else { Seq::empty() };
        lemma_of_priority_twice(s.drop_last(), q, p);
        assert(of_priority(s, q) == of_priority(s.drop_last(), q) + tail);
        lemma_of_priority_concat(of_priority(s.drop_last(), q), tail, p);
        if spec_priority(x) == q {
            assert(tail.drop_last() =~= Seq::<RuntimeEventSource>::empty());
            assert(tail.last() == x);
            assert(of_priority(tail.drop_last(), p) =~= Seq::<RuntimeEventSource>::empty());
        } else {
            assert(of_priority(tail, p) =~= Seq::<RuntimeEventSource>::empty());
        }
        assert(of_priority(of_priority(s, q), p) =~= if p == q { of_priority(s, q) } else { Seq::<RuntimeEventSource>::empty() });
    }
}

/// Ordering is stable: the sources of each priority come out in the order
/// they arrived in.
pub proof fn law_prioritized_is_stable(s: Seq<RuntimeEventSource>, p: u8)
    ensures
        of_priority(prioritized(s), p) == of_priority(s, p),
{
    let a = of_priority(s, 0);
    let b = of_priority(s, 1);
    let c = of_priority(s, 2);
    lemma_of_priority_concat(a + b, c, p);
    lemma_of_priority_concat(a, b, p);
    lemma_of_priority_twice(s, 0, p);
    lemma_of_priority_twice(s, 1, p);
    lemma_of_priority_twice(s, 2, p);
    if p > 2 {
        lemma_of_priority_none(s, p);
    }
    assert(of_priority(prioritized(s), p) =~= of_priority(s, p));
}

proof fn lemma_of_priority_none(s: Seq<RuntimeEventSource>, p: u8)
    requires
        p > 2,
    ensures
        of_priority(s, p) == Seq::<RuntimeEventSource>::empty(),
    decreases s.len(),
{
    if s.len() > 0 {
        lemma_of_priority_none(s.drop_last(), p);
        assert(of_priority(s, p) =~= Seq::<RuntimeEventSource>::empty());
    }
}

proof fn lemma_priority_split_multiset(s: Seq<RuntimeEventSource>)
    ensures
        of_priority(s, 0).to_multiset().add(of_priority(s, 1).to_multiset()).add(of_priority(s, 2).to_multiset())
            == s.to_multiset(),
    decreases s.len(),
{
    broadcast use vstd::multiset::group_multiset_axioms, vstd::seq_lib::group_to_multiset_ensures, vstd::seq_lib::lemma_multiset_commutative;

    if s.len() == 0 {
        assert(of_priority(s, 0).to_multiset() =~= Multiset::empty());
        assert(of_priority(s, 1).to_multiset() =~= Multiset::empty());
        assert(of_priority(s, 2).to_multiset() =~= Multiset::empty());
        assert(s.to_multiset() =~= Multiset::empty());
    } else {
        let t = s.drop_last();
        let x = s.last();
        lemma_priority_split_multiset(t);
        assert(t.push(x) =~= s);
        let one = seq![x].to_multiset();
        assert(seq![x] =~= Seq::<RuntimeEventSource>::empty().push(x));
        assert(one =~= Multiset::<RuntimeEventSource>::empty().insert(x));
        let e = Seq::<RuntimeEventSource>::empty();
        assert(e.to_multiset() =~= Multiset::empty());
        assert(of_priority(s, 0).to_multiset() =~= of_priority(t, 0).to_multiset().add(
            if spec_priority(x) == 0 { one } else { e.to_multiset() },
        ));
        assert(of_priority(s, 1).to_multiset() =~= of_priority(t, 1).to_multiset().add(
            if spec_priority(x) == 1 { one } else { e.to_multiset() },
        ));
        assert(of_priority(s, 2).to_multiset() =~= of_priority(t, 2).to_multiset().add(
            if spec_priority(x) == 2 { one } else { e.to_multiset() },
        ));
        assert(s.to_multiset() =~= t.to_multiset().insert(x));
        assert(of_priority(s, 0).to_multiset().add(of_priority(s, 1).to_multiset()).add(of_priority(s, 2).to_multiset())
            =~= s.to_multiset());
    }
}

/// Ordering is a permutation: every source comes out as many times as it
/// arrived, and no other.
pub proof fn law_prioritized_is_a_permutation(s: Seq<RuntimeEventSource>)
    ensures
        prioritized(s).to_multiset() == s.to_multiset(),
{
    broadcast use vstd::multiset::group_multiset_axioms, vstd::seq_lib::lemma_multiset_commutative;

    lemma_priority_split_multiset(s);
    let a = of_priority(s, 0);
    let b = of_priority(s, 1);
    let c = of_priority(s, 2);
    assert((a + b + c).to_multiset() =~= (a + b).to_multiset().add(c.to_multiset()));
    assert((a + b).to_multiset() =~= a.to_multiset().add(b.to_multiset()));
}

/// PID 1's signals and the power button are handled before anything else:
/// in the ordered batch, no other source stands ahead of one of them.
pub proof fn law_signals_come_first(s: Seq<RuntimeEventSource>, i: int, j: int)
    requires
        0 <= i < prioritized(s).len(),
        0 <= j < prioritized(s).len(),
        prioritized(s)[j] is Pid1Signal || prioritized(s)[j] is PowerButton,
        !(prioritized(s)[i] is Pid1Signal || prioritized(s)[i] is PowerButton),
    ensures
        j < i,
{
    if i <= j {
        law_prioritized_is_sorted(s, i, j);
    }
}

/// The shutdown deadline comes next: in the ordered batch, only a signal or
/// the power button stands ahead of it.
pub proof fn law_shutdown_deadline_comes_before_the_rest(s: Seq<RuntimeEventSource>, i: int, j: int)
    requires
        0 <= i < prioritized(s).len(),
        0 <= j < prioritized(s).len(),
        prioritized(s)[j] is ShutdownDeadlineTimer,
        !(prioritized(s)[i] is Pid1Signal || prioritized(s)[i] is PowerButton || prioritized(s)[i] is ShutdownDeadlineTimer),
    ensures
        j < i,
{
    if i <= j {
        law_prioritized_is_sorted(s, i, j);
    }
}

/// Every other source keeps its place: two sources that are neither a
/// signal, the power button nor the shutdown deadline come out in the order
/// they arrived, and a batch of only such sources comes out as it went in.
pub proof fn law_other_sources_keep_arrival_order(s: Seq<RuntimeEventSource>)
    requires
        forall|k: int| 0 <= k < s.len() ==> !((#[trigger] s[k]) is Pid1Signal || s[k] is PowerButton || s[k] is ShutdownDeadlineTimer),
    ensures
        prioritized(s) == s,
{
    lemma_only_others(s);
    assert(prioritized(s) =~= s);
}

proof fn lemma_only_others(s: Seq<RuntimeEventSource>)
    requires
        forall|k: int| 0 <= k < s.len() ==> !((#[trigger] s[k]) is Pid1Signal || s[k] is PowerButton || s[k] is ShutdownDeadlineTimer),
    ensures
        of_priority(s, 0) == Seq::<RuntimeEventSource>::empty(),
        of_priority(s, 1) == Seq::<RuntimeEventSource>::empty(),
        of_priority(s, 2) == s,
    decreases s.len(),
{
    if s.len() > 0 {
        let t = s.drop_last();
        assert forall|k: int| 0 <= k < t.len() implies !((#[trigger] t[k]) is Pid1Signal || t[k] is PowerButton || t[k] is ShutdownDeadlineTimer) by {
            assert(t[k] == s[k]);
        }
        lemma_only_others(t);
        assert(s.last() == s[s.len() - 1]);
        assert(of_priority(s, 0) =~= Seq::<RuntimeEventSource>::empty());
        assert(of_priority(s, 1) =~= Seq::<RuntimeEventSource>::empty());
        assert(t.push(s.last()) =~= s);
        assert(of_priority(s, 2) =~= s);
    }
}

/// The first service of the table with this name, where there is one.
pub open spec fn first_named(s: Seq<ServiceEntry>, name: Seq<char>) -> Option<ServiceEntry>
    decreases s.len(),
{
    if s.len() == 0 {
        None
    } else {
        match first_named(s.drop_last(), name) {
            Some(e) => Some(e),
            None => if s.last().name@ == name { Some(s.last()) } else { None },
        }
    }
}

/// The name of the event daemon service logs are forwarded to.
pub const EVENTD_SERVICE: &'static str = "eventd";

/// Whether service logs can be forwarded to eventd: it is only written to
/// once its service is Active.
pub fn eventd_active(services: &ServiceTable) -> (r: bool)
    ensures
        r == (first_named(services.services@, EVENTD_SERVICE@) matches Some(e) && e.state == ServiceState::Active),
{
    let eventd = String::from_str(EVENTD_SERVICE);
    let ghost s = services.services@;
    let n = services.services.len();
    let mut i: usize = 0;
    while i < n
        invariant
            n == s.len(),
            s == services.services@,
            eventd@ == EVENTD_SERVICE@,
            0 <= i <= n,
            first_named(s.take(i as int), EVENTD_SERVICE@) is None,
        decreases n - i,
    {
        let entry = &services.services[i];
        proof {
            assert(s.take(i + 1).drop_last() =~= s.take(i as int));
            assert(s.take(i + 1).last() == s[i as int]);
        }
        if entry.name == eventd {
            proof {
                lemma_first_named_prefix(s, EVENTD_SERVICE@, i as int + 1);
            }
            return match entry.state {
                ServiceState::Active => true,
                _ => false,
            };
        }
        i += 1;
    }
    proof {
        assert(s.take(n as int) =~= s);
    }
    false
}

/// A match in a prefix is the match of the whole.
proof fn lemma_first_named_prefix(s: Seq<ServiceEntry>, name: Seq<char>, k: int)
    requires
        0 <= k <= s.len(),
        first_named(s.take(k), name) is Some,
    ensures
        first_named(s, name) == first_named(s.take(k), name),
    decreases s.len() - k,
{
    if k < s.len() {
        assert(s.take(k + 1).drop_last() =~= s.take(k));
        assert(first_named(s.take(k + 1), name) == first_named(s.take(k), name));
        lemma_first_named_prefix(s, name, k + 1);
    } else {
        assert(s.take(k) =~= s);
    }
}

} // verus!
