//! The jobs channel as the runtime sees it: the listener and the table of
//! accepted connections in one object, behind a trait so the event loop is
//! written once and can run with no channel at all.
use vstd::prelude::*;
use crate::connections::{
    ConnectionRecord, ConnectionTable, has_fd, idle_fds_of, live_at, next_idle_deadline_of,
};
use crate::event_loop::model::{
    RuntimeEventRegistrar, RuntimeEventRegistrationError, RuntimeJobsChannelError, unregister_each, unregistered_each,
};
use crate::event_loop::source::RuntimeEventSource;
use crate::text::{append_decimal, decimal};

verus! {

/// What the loop asks of a jobs channel between connection turns.
pub trait RuntimeJobsChannel {
    fn has_pending_jobs_waits(&self) -> bool;

    fn close_idle_jobs_connections<R: RuntimeEventRegistrar>(&mut self, registrar: &mut R, now_ns: u64, timeout_secs: u64) -> Vec<i32>;

    fn next_jobs_idle_deadline_ns(&self, timeout_secs: u64) -> Option<u64>;

    fn set_max_jobs_connections(&mut self, max_connections: usize);
}

/// The channel with a listener and its table of accepted connections.
#[derive(Debug)]
pub struct RuntimeJobsChannelTable<L> {
    listener: L,
    connections: ConnectionTable,
}

/// How a descriptor that cannot name a source is described in a
/// registration error.
pub open spec fn negative_descriptor_text(fd: i32) -> Seq<char> {
    "NegativeDescriptor { fd: -"@ + decimal((-fd) as nat) + " }"@
}

fn describe_negative_descriptor(fd: i32) -> (s: String)
    requires
        fd < 0,
    ensures
        s@ == negative_descriptor_text(fd),
{
    let mut s = String::from_str("NegativeDescriptor { fd: -");
    let magnitude: i64 = -(fd as i64);
    append_decimal(&mut s, magnitude as u64);
    s.append(" }");
    proof {
        reveal_strlit("NegativeDescriptor { fd: -");
        reveal_strlit(" }");
    }
    s
}

impl<L> RuntimeJobsChannelTable<L> {
    /// The connections in the table.
    pub closed spec fn connections_view(&self) -> Seq<ConnectionRecord> {
        self.connections.view()
    }

    pub closed spec fn spec_listener(&self) -> L {
        self.listener
    }

    pub closed spec fn spec_max_connections(&self) -> usize {
        self.connections.spec_max_connections()
    }

    pub fn new(listener: L, max_connections: usize) -> (t: Self)
        ensures
            t.spec_listener() == listener,
            t.connections_view() == Seq::<ConnectionRecord>::empty(),
            t.spec_max_connections() == max_connections,
    {
        RuntimeJobsChannelTable { listener, connections: ConnectionTable::new(max_connections) }
    }

    pub fn listener(&self) -> (l: &L)
        ensures
            *l == self.spec_listener(),
    {
        &self.listener
    }

    pub fn active_connections(&self) -> (n: usize)
        ensures
            n == self.connections_view().len(),
    {
        self.connections.len()
    }

    /// Take a connection the listener accepted and add it to the wait set.
    ///
    /// `Ok(None)` when the table is full or already holds the fd: the
    /// connection is refused and nothing is registered. When registering
    /// fails, the connection leaves the table again and the error says why.
    pub fn admit_jobs_connection<R: RuntimeEventRegistrar>(&mut self, registrar: &mut R, fd: i32, accepted_at_ns: u64) -> (r: Result<
        Option<RuntimeEventSource>,
        RuntimeJobsChannelError,
    >)
        ensures
            final(self).spec_listener() == old(self).spec_listener(),
            final(self).spec_max_connections() == old(self).spec_max_connections(),
            ({
                let fits = old(self).connections_view().len() < old(self).spec_max_connections()
                    && !has_fd(old(self).connections_view(), fd);
                let admitted = old(self).connections_view().push(
                    ConnectionRecord { fd, last_activity_ns: accepted_at_ns, pending_wait: false },
                );
                let asked = RuntimeEventSource::JobsConnection { fd };
                match r {
                    Ok(None) => !fits && final(self).connections_view() == old(self).connections_view()
                        && *final(registrar) == *old(registrar),
                    Ok(Some(source)) => fits && fd >= 0 && source == asked
                        && final(self).connections_view() == admitted
                        && R::registers(*old(registrar), *final(registrar), fd, asked, Ok(())),
                    Err(RuntimeJobsChannelError::Registration(e)) => fits && if fd < 0 {
                        &&& e matches RuntimeEventRegistrationError::Register { fd: efd, source, message }
                        &&& efd == fd && source == RuntimeEventSource::JobsListener
                        &&& message@ == negative_descriptor_text(fd)
                        &&& final(self).connections_view() == admitted
                        &&& *final(registrar) == *old(registrar)
                    } else {
                        &&& final(self).connections_view() == crate::connections::without_fd(admitted, fd)
                        &&& R::registers(*old(registrar), *final(registrar), fd, asked, Err(e))
                    },
                    Err(_) => false,
                }
            }),
    {
        if !self.connections.accept(fd, accepted_at_ns) {
            return Ok(None);
        }
        let source = match RuntimeEventSource::jobs_connection(fd) {
            Ok(source) => source,
            Err(_) => {
                return Err(
                    RuntimeJobsChannelError::Registration(
                        RuntimeEventRegistrationError::Register {
                            fd,
                            source: RuntimeEventSource::JobsListener,
                            message: describe_negative_descriptor(fd),
                        },
                    ),
                );
            },
        };
        let answer = registrar.register_source(fd, source);
        match answer {
            Ok(()) => {
                assert(answer->Ok_0 == ());
                Ok(Some(source))
            },
            Err(error) => {
                self.connections.remove(fd);
                Err(RuntimeJobsChannelError::Registration(error))
            },
        }
    }

    /// Note that a connection was read from, and whether it is now parked on
    /// a wait for a job.
    pub fn record_jobs_activity(&mut self, fd: i32, now_ns: u64, pending_wait: bool)
        ensures
            final(self).spec_listener() == old(self).spec_listener(),
            final(self).spec_max_connections() == old(self).spec_max_connections(),
            final(self).connections_view().len() == old(self).connections_view().len(),
            forall|j: int| 0 <= j < old(self).connections_view().len() ==> #[trigger] final(self).connections_view()[j]
                == if old(self).connections_view()[j].fd == fd {
                ConnectionRecord { fd, last_activity_ns: now_ns, pending_wait }
            } else {
                old(self).connections_view()[j]
            },
    {
        self.connections.record_activity(fd, now_ns, pending_wait);
    }

    /// Drop a connection that its turn closed, saying whether it was there.
    pub fn remove_jobs_connection(&mut self, fd: i32) -> (r: bool)
        ensures
            r == has_fd(old(self).connections_view(), fd),
            final(self).connections_view() == crate::connections::without_fd(old(self).connections_view(), fd),
            final(self).spec_listener() == old(self).spec_listener(),
            final(self).spec_max_connections() == old(self).spec_max_connections(),
    {
        self.connections.remove(fd)
    }
}

impl<L> RuntimeJobsChannel for RuntimeJobsChannelTable<L> {
    fn has_pending_jobs_waits(&self) -> (r: bool)
        ensures
            r == exists|j: int| 0 <= j < self.connections_view().len() && (#[trigger] self.connections_view()[j]).pending_wait,
    {
        let r = self.connections.has_pending_waits();
        proof {
            assert(self.connections_view() == self.connections.view());
        }
        r
    }

    /// Close the connections idle at `now_ns`: each leaves the wait set and
    /// the table, and the fds come back in table order.
    fn close_idle_jobs_connections<R: RuntimeEventRegistrar>(&mut self, registrar: &mut R, now_ns: u64, timeout_secs: u64) -> (fds: Vec<i32>)
        ensures
            fds@ == idle_fds_of(old(self).connections_view(), now_ns, timeout_secs),
            final(self).connections_view() == live_at(old(self).connections_view(), now_ns, timeout_secs),
            exists|states: Seq<R>, answers: Seq<Result<(), RuntimeEventRegistrationError>>|
                unregistered_each(*old(registrar), *final(registrar), fds@, states, answers),
            final(self).spec_listener() == old(self).spec_listener(),
            final(self).spec_max_connections() == old(self).spec_max_connections(),
    {
        let fds = self.connections.close_idle(now_ns, timeout_secs);
        unregister_each(registrar, &fds);
        fds
    }

    fn next_jobs_idle_deadline_ns(&self, timeout_secs: u64) -> (d: Option<u64>)
        ensures
            d == next_idle_deadline_of(self.connections_view(), timeout_secs),
    {
        self.connections.next_idle_deadline_ns(timeout_secs)
    }

    fn set_max_jobs_connections(&mut self, max_connections: usize)
        ensures
            final(self).connections_view() == old(self).connections_view(),
            final(self).spec_listener() == old(self).spec_listener(),
            final(self).spec_max_connections() == max_connections,
    {
        self.connections.set_max_connections(max_connections);
    }
}

/// A runtime with no jobs channel: the harnesses that drive the loop
/// without a socket.
#[derive(Debug)]
pub struct NoJobsChannel;

impl Default for NoJobsChannel {
    fn default() -> (c: Self) {
        NoJobsChannel
    }
}

impl RuntimeJobsChannel for NoJobsChannel {
    fn has_pending_jobs_waits(&self) -> (r: bool)
        ensures
            !r,
    {
        false
    }

    fn close_idle_jobs_connections<R: RuntimeEventRegistrar>(&mut self, registrar: &mut R, now_ns: u64, timeout_secs: u64) -> (fds: Vec<i32>)
        ensures
            fds@ == Seq::<i32>::empty(),
            *final(registrar) == *old(registrar),
    {
        Vec::new()
    }

    fn next_jobs_idle_deadline_ns(&self, timeout_secs: u64) -> (d: Option<u64>)
        ensures
            d is None,
    {
        None
    }

    fn set_max_jobs_connections(&mut self, max_connections: usize) {
    }
}

} // verus!
