//! The registry of connected client processes and of which process listens
//! to which task.
//!
//! A process first opens a channel; it may then subscribe to tasks. Events
//! of a task go to the channel of the process that subscribed to it last.
//! The channel itself (a socket and the sending end of a queue) is kept as
//! an opaque value of type `C`.

use std::collections::HashMap;

use vstd::prelude::*;

use crate::error::ErrorCode;

verus! {

/// Where the events of task `tid` go: the channel of the process that
/// subscribed to it, as long as that process still has a channel.
pub open spec fn route_of<C>(clients: Map<u64, C>, pids: Map<u32, u64>, tid: u32) -> Option<C> {
    if pids.contains_key(tid) && clients.contains_key(pids[tid]) {
        Some(clients[pids[tid]])
    } else {
        None
    }
}

/// The open channels of client processes, and the process each task's
/// events go to.
pub struct ClientManager<C> {
    clients: HashMap<u64, C>,
    pid_map: HashMap<u32, u64>,
}

impl<C> ClientManager<C> {
    /// The open channel of each process.
    pub closed spec fn clients(self) -> Map<u64, C> {
        self.clients@
    }

    /// The process that listens to each task.
    pub closed spec fn pids(self) -> Map<u32, u64> {
        self.pid_map@
    }

    /// An empty registry.
    pub fn new() -> (r: Self)
        ensures
            r.clients() == Map::<u64, C>::empty(),
            r.pids() == Map::<u32, u64>::empty(),
    {
        ClientManager { clients: HashMap::new(), pid_map: HashMap::new() }
    }

    /// Opens a channel for process `pid`: the one it has, or else one made
    /// by `constructor`, which is kept. Fails when none can be made.
    pub fn handle_open_channel<F: FnOnce(u64) -> Option<C>>(&mut self, pid: u64, constructor: F) -> (r:
        Result<&C, ErrorCode>)
        requires
            constructor.requires((pid,)),
        ensures
            final(self).pids() == old(self).pids(),
            old(self).clients().contains_key(pid) ==> {
                &&& final(self).clients() == old(self).clients()
                &&& r matches Ok(c) && *c == old(self).clients()[pid]
            },
            !old(self).clients().contains_key(pid) ==> {
                ||| {
                    &&& constructor.ensures((pid,), None)
                    &&& final(self).clients() == old(self).clients()
                    &&& r == Err::<&C, ErrorCode>(ErrorCode::Other)
                }
                ||| exists|c: C|
                    {
                        &&& constructor.ensures((pid,), Some(c))
                        &&& final(self).clients() == old(self).clients().insert(pid, c)
                        &&& r matches Ok(rc) && *rc == c
                    }
            },
    {
        if self.clients.contains_key(&pid) {
            match self.clients.get(&pid) {
                Some(c) => Ok(c),
                None => Err(ErrorCode::Other),
            }
        } else {
            match constructor(pid) {
                Some(c) => {
                    self.clients.insert(pid, c);
                    match self.clients.get(&pid) {
                        Some(c) => Ok(c),
                        None => Err(ErrorCode::Other),
                    }
                },
                None => Err(ErrorCode::Other),
            }
        }
    }

    /// Subscribes process `pid` to the events of task `tid`: only a process
    /// with an open channel may.
    pub fn handle_subscribe(&mut self, tid: u32, pid: u64) -> (r: ErrorCode)
        ensures
            final(self).clients() == old(self).clients(),
            old(self).clients().contains_key(pid) ==> r == ErrorCode::ErrOk && final(self).pids()
                == old(self).pids().insert(tid, pid),
            !old(self).clients().contains_key(pid) ==> r == ErrorCode::ChannelNotOpen
                && final(self).pids() == old(self).pids(),
    {
        if self.clients.contains_key(&pid) {
            self.pid_map.insert(tid, pid);
            ErrorCode::ErrOk
        } else {
            ErrorCode::ChannelNotOpen
        }
    }

    /// Ends the subscription to task `tid`. It succeeds when there was one
    /// and its process still has a channel.
    pub fn handle_unsubscribe(&mut self, tid: u32) -> (r: ErrorCode)
        ensures
            final(self).clients() == old(self).clients(),
            final(self).pids() == old(self).pids().remove(tid),
            r == if route_of(old(self).clients(), old(self).pids(), tid) is Some {
                ErrorCode::ErrOk
            } else {
                ErrorCode::Other
            },
    {
        match self.pid_map.get(&tid) {
            Some(pid) => {
                let pid = *pid;
                self.pid_map.remove(&tid);
                if self.clients.contains_key(&pid) {
                    ErrorCode::ErrOk
                } else {
                    ErrorCode::Other
                }
            },
            None => {
                proof {
                    assert(old(self).pids().remove(tid) =~= old(self).pids());
                }
                ErrorCode::Other
            },
        }
    }

    /// Forgets the subscription to a task that finished.
    pub fn handle_task_finished(&mut self, tid: u32)
        ensures
            final(self).clients() == old(self).clients(),
            final(self).pids() == old(self).pids().remove(tid),
    {
        let _ = self.pid_map.remove(&tid);
    }

    /// Closes the channel of a process that ended, giving it back so that it
    /// can be told to shut down. The answer is always success.
    pub fn handle_process_terminated(&mut self, pid: u64) -> (r: (Option<C>, ErrorCode))
        ensures
            final(self).clients() == old(self).clients().remove(pid),
            final(self).pids() == old(self).pids(),
            r.1 == ErrorCode::ErrOk,
            r.0 == if old(self).clients().contains_key(pid) {
                Some(old(self).clients()[pid])
            } else {
                None
            },
    {
        let removed = self.clients.remove(&pid);
        (removed, ErrorCode::ErrOk)
    }

    /// The channel that the events of task `tid` go to.
    pub fn route(&self, tid: u32) -> (r: Option<&C>)
        ensures
            r == match route_of(self.clients(), self.pids(), tid) {
                Some(c) => Some(&c),
                None => None,
            },
    {
        match self.pid_map.get(&tid) {
            Some(pid) => self.clients.get(pid),
            None => None,
        }
    }
}

/// After a process with an open channel subscribes to a task, the task's
/// events go to that process's channel.
pub proof fn lemma_subscribe_then_route<C>(
    clients: Map<u64, C>,
    pids: Map<u32, u64>,
    tid: u32,
    pid: u64,
)
    requires
        clients.contains_key(pid),
    ensures
        route_of(clients, pids.insert(tid, pid), tid) == Some(clients[pid]),
{
}

/// After a subscription ends, or its task finishes, the task's events go
/// nowhere; the routes of other tasks stay.
pub proof fn lemma_unsubscribe_then_route<C>(
    clients: Map<u64, C>,
    pids: Map<u32, u64>,
    tid: u32,
    other: u32,
)
    ensures
        route_of(clients, pids.remove(tid), tid) is None,
        other != tid ==> route_of(clients, pids.remove(tid), other) == route_of(
            clients,
            pids,
            other,
        ),
{
}

/// After a process ends, no task's events go to it; tasks of other
/// processes keep their routes.
pub proof fn lemma_terminate_then_route<C>(
    clients: Map<u64, C>,
    pids: Map<u32, u64>,
    pid: u64,
    tid: u32,
)
    ensures
        pids.contains_key(tid) && pids[tid] == pid ==> route_of(clients.remove(pid), pids, tid) is None,
        !(pids.contains_key(tid) && pids[tid] == pid) ==> route_of(clients.remove(pid), pids, tid)
            == route_of(clients, pids, tid),
{
}

} // verus!
