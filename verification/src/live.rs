use vstd::prelude::*;
use crate::request::UnsubscribeLiveQuery;

verus! {

/// How a push frame is routed: into the sink registered for its monitor id,
/// possibly closing that subscription, or dropped when no sink is
/// registered any more.
#[derive(Debug, Clone, Copy, PartialEq, Eq, Structural)]
pub enum RouteAction {
    /// Hand the frame's events, in order, to the sink of this monitor id;
    /// when `remove` the subscription ended and the sink is now gone.
    Deliver { remove: bool },
    /// No sink is registered for the monitor id: drop the frame silently.
    Discard,
}

/// The live-query manager's registry: which monitor ids currently have a
/// sink.  The sinks themselves live with the runtime; the registry decides
/// the routing of every push frame.
#[derive(Debug)]
pub struct LiveQueryManager {
    pub monitors: Vec<i32>,
}

impl LiveQueryManager {
    /// Monitor ids are unique within one connection's manager.
    pub open spec fn wf(&self) -> bool {
        forall|i: int, j: int|
            0 <= i < j < self.monitors@.len() ==> self.monitors@[i] != self.monitors@[j]
    }

    pub open spec fn registered(&self, monitor_id: i32) -> bool {
        self.monitors@.contains(monitor_id)
    }

    pub fn new() -> (r: LiveQueryManager)
        ensures
            r.wf(),
            r.monitors@.len() == 0,
    {
        LiveQueryManager { monitors: Vec::new() }
    }

    fn find(&self, monitor_id: i32) -> (r: Option<usize>)
        ensures
            match r {
                Some(i) => i < self.monitors@.len() && self.monitors@[i as int] == monitor_id,
                None => !self.registered(monitor_id),
            },
    {
        let mut i: usize = 0;
        while i < self.monitors.len()
            invariant
                i <= self.monitors@.len(),
                forall|j: int| 0 <= j < i ==> self.monitors@[j] != monitor_id,
            decreases self.monitors@.len() - i,
        {
            if self.monitors[i] == monitor_id {
                return Some(i);
            }
            i = i + 1;
        }
        proof {
            assert(forall|j: int| 0 <= j < self.monitors@.len() ==> self.monitors@[j]
                != monitor_id);
            if self.registered(monitor_id) {
                let w = choose|w: int|
                    0 <= w < self.monitors@.len() && self.monitors@[w] == monitor_id;
                assert(false);
            }
        }
        None
    }

    /// Register the sink of a fresh subscription under its monitor id.
    pub fn register_handler(&mut self, monitor_id: i32)
        requires
            old(self).wf(),
        ensures
            final(self).wf(),
            final(self).registered(monitor_id),
            forall|m: i32| old(self).registered(m) ==> final(self).registered(m),
    {
        match self.find(monitor_id) {
            Some(_) => {
                proof {
                    assert(forall|m: i32| old(self).registered(m) ==> self.registered(m));
                }
            },
            None => {
                self.monitors.push(monitor_id);
                proof {
                    assert(self.monitors@[self.monitors@.len() - 1] == monitor_id);
                    assert(self.registered(monitor_id));
                    assert forall|m: i32| old(self).registered(m) implies self.registered(m) by {
                        let w = choose|w: int|
                            0 <= w < old(self).monitors@.len() && old(self).monitors@[w] == m;
                        assert(self.monitors@[w] == m);
                    }
                }
            },
        }
    }

    /// Route one push frame: a frame whose monitor id has a sink is
    /// delivered, and ends its subscription exactly when it is marked
    /// ended; a frame without a sink is dropped.
    pub fn fire_event(&mut self, monitor_id: i32, ended: bool) -> (r: RouteAction)
        requires
            old(self).wf(),
        ensures
            final(self).wf(),
            !old(self).registered(monitor_id) ==> r == RouteAction::Discard && final(self).monitors@ == old(self).monitors@,
            old(self).registered(monitor_id) ==> r == (RouteAction::Deliver { remove: ended }),
            old(self).registered(monitor_id) && ended ==> !final(self).registered(monitor_id),
            old(self).registered(monitor_id) && !ended ==> final(self).monitors@ == old(self).monitors@,
            forall|m: i32| m != monitor_id && old(self).registered(m) ==> final(self).registered(
                m,
            ),
            forall|m: i32| final(self).registered(m) ==> old(self).registered(m),
    {
        match self.find(monitor_id) {
            None => RouteAction::Discard,
            Some(i) => {
                if ended {
                    let ghost before = self.monitors@;
                    self.monitors.remove(i);
                    proof {
                        assert(self.monitors@ =~= before.subrange(0, i as int) + before.subrange(
                            i + 1,
                            before.len() as int,
                        ));
                        assert forall|m: i32| m != monitor_id && old(self).registered(m) implies
                            self.registered(m) by {
                            let w = choose|w: int| 0 <= w < before.len() && before[w] == m;
                            if w < i {
                                assert(self.monitors@[w] == m);
                            } else {
                                assert(w != i);
                                assert(self.monitors@[w - 1] == m);
                            }
                        }
                        assert forall|m: i32| self.registered(m) implies old(self).registered(
                            m,
                        ) by {
                            let w = choose|w: int|
                                0 <= w < self.monitors@.len() && self.monitors@[w] == m;
                            if w < i {
                                assert(before[w] == m);
                            } else {
                                assert(before[w + 1] == m);
                            }
                        }
                        if self.registered(monitor_id) {
                            let w = choose|w: int|
                                0 <= w < self.monitors@.len() && self.monitors@[w] == monitor_id;
                            if w < i {
                                assert(before[w] == monitor_id);
                                assert(before[i as int] == monitor_id);
                            } else {
                                assert(before[w + 1] == monitor_id);
                                assert(before[i as int] == monitor_id);
                            }
                            assert(false);
                        }
                    }
                    RouteAction::Deliver { remove: true }
                } else {
                    RouteAction::Deliver { remove: false }
                }
            },
        }
    }

    /// The request that tears a subscription down, fire and forget.
    pub fn unsubscribe_request(
        session_id: i32,
        token: Option<Vec<u8>>,
        monitor_id: i32,
    ) -> (r: UnsubscribeLiveQuery)
        ensures
            r.session_id == session_id,
            r.token == token,
            r.monitor_id == monitor_id,
    {
        UnsubscribeLiveQuery::new(session_id, token, monitor_id)
    }
}

} // verus!
