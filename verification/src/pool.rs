use vstd::prelude::*;
use crate::error::OrientError;

verus! {

/// Sizing of a connection pool: its bounds and the acquisition timeout.
#[derive(Debug, Clone, Copy, PartialEq, Eq, Structural)]
pub struct Config {
    pub max: u32,
    pub min: u32,
    pub timeout_millis: u64,
}

impl Default for Config {
    /// Ten connections at most, none kept warm, thirty seconds to acquire.
    fn default() -> (r: Config)
        ensures
            r.max == 10,
            r.min == 0,
            r.timeout_millis == 30_000,
    {
        Config { max: 10, min: 0, timeout_millis: 30_000 }
    }
}

/// Fluent construction of a pool's configuration.
#[derive(Debug)]
pub struct PoolBuilder {
    pub cfg: Config,
}

impl PoolBuilder {
    pub fn new() -> (r: PoolBuilder)
        ensures
            r.cfg == (Config { max: 10, min: 0, timeout_millis: 30_000 }),
    {
        PoolBuilder { cfg: Config { max: 10, min: 0, timeout_millis: 30_000 } }
    }

    pub fn max_size(self, max_size: u32) -> (r: PoolBuilder)
        ensures
            r.cfg == (Config { max: max_size, ..self.cfg }),
    {
        let mut cfg = self.cfg;
        cfg.max = max_size;
        PoolBuilder { cfg }
    }

    pub fn min_size(self, min_size: u32) -> (r: PoolBuilder)
        ensures
            r.cfg == (Config { min: min_size, ..self.cfg }),
    {
        let mut cfg = self.cfg;
        cfg.min = min_size;
        PoolBuilder { cfg }
    }

    pub fn timeout(self, timeout_millis: u64) -> (r: PoolBuilder)
        ensures
            r.cfg == (Config { timeout_millis, ..self.cfg }),
    {
        let mut cfg = self.cfg;
        cfg.timeout_millis = timeout_millis;
        PoolBuilder { cfg }
    }

    /// The accounting state of a fresh pool under this configuration.
    pub fn build(self) -> (r: PoolState)
        ensures
            r.wf(),
            r.config == self.cfg,
            r.state == (State { connections: 0, idle_connections: 0, pending_connections: 0 }),
            r.waiting == 0,
    {
        PoolState {
            config: self.cfg,
            state: State { connections: 0, idle_connections: 0, pending_connections: 0 },
            waiting: 0,
        }
    }
}

/// Counters of a pool: open connections, those of them sitting idle, and
/// creations in flight.
#[derive(Debug, Clone, Copy, PartialEq, Eq, Structural)]
pub struct State {
    pub connections: u32,
    pub idle_connections: u32,
    pub pending_connections: u32,
}

/// The accounting of a bounded connection pool.  The actual connections and
/// the waiters' wakers live with the runtime; this state decides every
/// transition and carries the bound's proof.
#[derive(Debug)]
pub struct PoolState {
    pub config: Config,
    pub state: State,
    pub waiting: u32,
}

impl PoolState {
    /// Open plus in-flight connections never exceed the bound, and the idle
    /// ones are among the open ones.
    pub open spec fn wf(&self) -> bool {
        &&& self.state.connections + self.state.pending_connections <= self.config.max
        &&& self.state.idle_connections <= self.state.connections
    }

    /// Take an idle connection if one exists.  A successful acquisition from
    /// idle decreases the idle count by exactly one and changes nothing else.
    pub fn try_acquire_idle(&mut self) -> (r: bool)
        requires
            old(self).wf(),
        ensures
            final(self).wf(),
            final(self).config == old(self).config,
            final(self).waiting == old(self).waiting,
            r == (old(self).state.idle_connections > 0),
            r ==> final(self).state == (State {
                idle_connections: (old(self).state.idle_connections - 1) as u32,
                ..old(self).state
            }),
            !r ==> final(self).state == old(self).state,
    {
        if self.state.idle_connections > 0 {
            self.state.idle_connections = self.state.idle_connections - 1;
            true
        } else {
            false
        }
    }

    /// Reserve room for a new connection.  Succeeds exactly when open plus
    /// in-flight connections are below the bound, and then counts one more
    /// creation in flight.
    pub fn try_begin_create(&mut self) -> (r: bool)
        requires
            old(self).wf(),
        ensures
            final(self).wf(),
            final(self).config == old(self).config,
            final(self).waiting == old(self).waiting,
            r == (old(self).state.connections + old(self).state.pending_connections < old(
                self,
            ).config.max),
            r ==> final(self).state == (State {
                pending_connections: (old(self).state.pending_connections + 1) as u32,
                ..old(self).state
            }),
            !r ==> final(self).state == old(self).state,
    {
        if self.state.connections < self.config.max && self.state.pending_connections
            < self.config.max - self.state.connections {
            self.state.pending_connections = self.state.pending_connections + 1;
            true
        } else {
            false
        }
    }

    /// Account a finished creation attempt.  On success the new connection
    /// is open and idle; either way the in-flight reservation is returned.
    pub fn finish_create(&mut self, success: bool)
        requires
            old(self).wf(),
            old(self).state.pending_connections > 0,
        ensures
            final(self).wf(),
            final(self).config == old(self).config,
            final(self).waiting == old(self).waiting,
            success ==> final(self).state == (State {
                connections: (old(self).state.connections + 1) as u32,
                idle_connections: (old(self).state.idle_connections + 1) as u32,
                pending_connections: (old(self).state.pending_connections - 1) as u32,
            }),
            !success ==> final(self).state == (State {
                pending_connections: (old(self).state.pending_connections - 1) as u32,
                ..old(self).state
            }),
    {
        self.state.pending_connections = self.state.pending_connections - 1;
        if success {
            self.state.connections = self.state.connections + 1;
            self.state.idle_connections = self.state.idle_connections + 1;
        }
    }

    /// Queue one acquirer to wait for a released connection.
    pub fn enqueue_waiter(&mut self)
        requires
            old(self).wf(),
            old(self).waiting < u32::MAX,
        ensures
            final(self).wf(),
            final(self).config == old(self).config,
            final(self).state == old(self).state,
            final(self).waiting == old(self).waiting + 1,
    {
        self.waiting = self.waiting + 1;
    }

    /// A waiter's timeout elapsed: the waiter leaves the queue and its
    /// acquisition fails with a pool error.
    pub fn timeout_waiter(&mut self) -> (r: OrientError)
        requires
            old(self).wf(),
            old(self).waiting > 0,
        ensures
            final(self).wf(),
            final(self).config == old(self).config,
            final(self).state == old(self).state,
            final(self).waiting == old(self).waiting - 1,
            r is Pool,
    {
        self.waiting = self.waiting - 1;
        OrientError::Pool("connection acquisition timed out".to_owned())
    }

    /// Return a connection.  A queued waiter receives it directly (the
    /// connection stays busy); otherwise it joins the idle ones.
    pub fn release(&mut self) -> (r: bool)
        requires
            old(self).wf(),
            old(self).state.idle_connections < old(self).state.connections,
        ensures
            final(self).wf(),
            final(self).config == old(self).config,
            r == (old(self).waiting > 0),
            r ==> final(self).waiting == old(self).waiting - 1 && final(self).state == old(
                self,
            ).state,
            !r ==> final(self).waiting == old(self).waiting && final(self).state == (State {
                idle_connections: (old(self).state.idle_connections + 1) as u32,
                ..old(self).state
            }),
    {
        if self.waiting > 0 {
            self.waiting = self.waiting - 1;
            true
        } else {
            self.state.idle_connections = self.state.idle_connections + 1;
            false
        }
    }

    /// The bound that every reachable pool state keeps: open plus in-flight
    /// connections never exceed the configured maximum.
    pub proof fn lemma_connections_bounded(&self)
        requires
            self.wf(),
        ensures
            self.state.connections + self.state.pending_connections <= self.config.max,
    {
    }
}

} // verus!
