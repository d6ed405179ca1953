//! The process-wide configuration: built once, by an initialisation that may
//! fail, and read by every operation after that.
//!
//! [`ConfigurationCell`] holds the outcome. The first call of `begin` claims the
//! initialisation; its outcome is published once and never replaced, a failure
//! included, so that a broken store fails every later operation the same way
//! instead of being retried behind its back.
use vstd::prelude::*;
use crate::error::{Error, ErrorKind, rendered};

verus! {

/// Which heuristic the scheduling collaborator orders tasks by.
#[derive(Clone, Copy, Debug, PartialEq, Eq, Structural)]
pub enum SchedulingStrategy {
    Importance,
    Urgency,
}

/// What every operation needs: the store handle, the scheduling strategy and
/// the clock.
pub struct Configuration<D, C> {
    pub database: D,
    pub scheduling_strategy: SchedulingStrategy,
    pub time_context: C,
}

/// Where the one initialisation stands.
#[derive(Clone, Copy, Debug, PartialEq, Eq, Structural)]
pub enum Phase {
    /// Nobody has started it.
    Idle,
    /// It was started and has not published its outcome yet.
    Running,
    /// Its outcome is published, for good.
    Published,
}

/// The message of the error given before the configuration is initialised.
pub const NOT_INITIALISED: &'static str = "The configuration isn't initialised yet";

/// Whether `e` is the error given before the configuration is initialised.
pub open spec fn is_not_initialised(e: Error) -> bool {
    e.kind == ErrorKind::Configuration && e.context@.len() == 0 && e.cause@ == NOT_INITIALISED@
}

/// Whether `w` is the Configuration error that stands for the failure `e`: it
/// carries the rendered message of `e`.
pub open spec fn wraps_failure(w: Error, e: Error) -> bool {
    w.kind == ErrorKind::Configuration && w.context@.len() == 0 && w.cause@ == rendered(e)
}

/// A write-once cell for the outcome of initialising a configuration.
pub struct ConfigurationCell<T> {
    phase: Phase,
    current: Result<T, Error>,
}

impl<T> ConfigurationCell<T> {
    pub closed spec fn phase(&self) -> Phase {
        self.phase
    }

    /// What a lookup of the configuration gives.
    pub closed spec fn lookup(&self) -> Result<T, Error> {
        self.current
    }

    /// Until an outcome is published, a lookup gives the error for a
    /// configuration that is not initialised.
    pub open spec fn wf(&self) -> bool {
        self.phase() != Phase::Published ==> (self.lookup() matches Err(e) && is_not_initialised(e))
    }

    /// What `begin` does: it claims the initialisation only in the Idle phase.
    pub open spec fn begins(before: Self, claimed: bool, after: Self) -> bool {
        &&& claimed == (before.phase() == Phase::Idle)
        &&& after.lookup() == before.lookup()
        &&& after.phase() == (if claimed { Phase::Running } else { before.phase() })
    }

    /// What `publish` does: only in the Running phase is an outcome taken, a
    /// failure being wrapped as a Configuration error.
    pub open spec fn publishes(before: Self, outcome: Result<T, Error>, after: Self) -> bool {
        if before.phase() == Phase::Running {
            &&& after.phase() == Phase::Published
            &&& match outcome {
                Ok(v) => after.lookup() == Ok::<T, Error>(v),
                Err(e) => after.lookup() matches Err(w) && wraps_failure(w, e),
            }
        } else {
            after == before
        }
    }

    /// A cell that nobody has initialised.
    pub fn new() -> (r: Self)
        ensures
            r.phase() == Phase::Idle,
            r.wf(),
    {
        ConfigurationCell {
            phase: Phase::Idle,
            current: Err(Error::configuration(String::from_str(NOT_INITIALISED))),
        }
    }

    /// Claims the initialisation: true for the first call only, which must then
    /// build the configuration and `publish` the outcome.
    pub fn begin(&mut self) -> (r: bool)
        ensures
            Self::begins(*old(self), r, *final(self)),
            old(self).wf() ==> final(self).wf(),
    {
        if self.phase == Phase::Idle {
            self.phase = Phase::Running;
            true
        } else {
            false
        }
    }

    /// Publishes the outcome of the initialisation that `begin` claimed. Any
    /// other call leaves the cell as it is.
    pub fn publish(&mut self, outcome: Result<T, Error>)
        ensures
            Self::publishes(*old(self), outcome, *final(self)),
            old(self).wf() ==> final(self).wf(),
    {
        if self.phase == Phase::Running {
            self.current = match outcome {
                Ok(v) => Ok(v),
                Err(e) => Err(Error::configuration_failure(&e)),
            };
            self.phase = Phase::Published;
        }
    }

    /// The configuration, or the error that stands for its absence: the
    /// published failure, or the not-initialised error before any outcome.
    pub fn configuration(&self) -> (r: Result<&T, Error>)
        ensures
            match self.lookup() {
                Ok(v) => r matches Ok(c) && *c == v,
                Err(e) => r == Err::<&T, Error>(e),
            },
    {
        match &self.current {
            Ok(v) => Ok(v),
            Err(e) => Err(e.duplicate()),
        }
    }
}

/// Before any outcome is published, whether or not the initialisation was
/// started, a lookup gives the not-initialised error.
pub proof fn law_lookup_before_initialisation<T>(fresh: ConfigurationCell<T>, claimed: bool, started: ConfigurationCell<T>)
    requires
        fresh.phase() == Phase::Idle,
        fresh.wf(),
        ConfigurationCell::begins(fresh, claimed, started),
    ensures
        fresh.lookup() matches Err(e) && is_not_initialised(e),
        claimed,
        started.lookup() matches Err(e) && is_not_initialised(e),
{
}

/// A failed initialisation is cached: every later lookup gives the same
/// Configuration error, which carries the failure's message, and later calls
/// neither claim a new initialisation nor replace the outcome.
pub proof fn law_failure_is_cached<T>(
    running: ConfigurationCell<T>,
    failure: Error,
    failed: ConfigurationCell<T>,
    claimed: bool,
    after_begin: ConfigurationCell<T>,
    outcome: Result<T, Error>,
    after_publish: ConfigurationCell<T>,
)
    requires
        running.phase() == Phase::Running,
        ConfigurationCell::publishes(running, Err(failure), failed),
        ConfigurationCell::begins(failed, claimed, after_begin),
        ConfigurationCell::publishes(after_begin, outcome, after_publish),
    ensures
        failed.lookup() matches Err(w) && wraps_failure(w, failure),
        !claimed,
        after_begin == failed,
        after_publish == failed,
{
    assert(after_begin.phase() == failed.phase());
}

/// A successful initialisation is cached: every later lookup gives the same
/// configuration, and later calls neither claim a new initialisation nor
/// replace it.
pub proof fn law_success_is_cached<T>(
    running: ConfigurationCell<T>,
    config: T,
    ready: ConfigurationCell<T>,
    claimed: bool,
    after_begin: ConfigurationCell<T>,
    outcome: Result<T, Error>,
    after_publish: ConfigurationCell<T>,
)
    requires
        running.phase() == Phase::Running,
        ConfigurationCell::publishes(running, Ok(config), ready),
        ConfigurationCell::begins(ready, claimed, after_begin),
        ConfigurationCell::publishes(after_begin, outcome, after_publish),
    ensures
        ready.lookup() == Ok::<T, Error>(config),
        !claimed,
        after_begin == ready,
        after_publish == ready,
{
    assert(after_begin.phase() == ready.phase());
}

} // verus!
