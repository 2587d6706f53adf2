//! The idle controller: the cadence of resume ticks and maintenance ticks,
//! the clock of client activity, and when the workers are held stopped.

use crate::supervisor::TrackedProcs;
use vstd::prelude::*;

verus! {

/// Milliseconds between two resume ticks.
pub const RESUME_TICK_MS: u64 = 80;

/// Milliseconds for which stopped workers are left to run in a resume tick.
pub const RESUME_WINDOW_MS: u64 = 20;

/// A maintenance tick falls due once more than this many milliseconds of
/// resume ticks have gone by since the last one.
pub const MAINTENANCE_MS: u64 = 2600;

/// The workers are held stopped once no client was active for more than
/// this many seconds.
pub const IDLE_LIMIT_S: u64 = 24;

/// A change of the stop latch that is worth a line in the log.
#[derive(Clone, Copy, Debug, PartialEq, Eq, Structural)]
pub enum IdleTransition {
    /// The workers are being held stopped from now on.
    Suspending,
    /// The workers run freely again.
    Resuming,
}

/// What a maintenance tick found.
#[derive(Clone, Copy, Debug, PartialEq, Eq, Structural)]
pub struct IdleVerdict {
    /// Seconds since a client was last active.
    pub idle_s: u64,
    /// The transition to log, if the verdict differs from the last one.
    pub transition: Option<IdleTransition>,
    /// Whether every worker is to be continued at once.
    pub send_continue: bool,
}

/// What is to be done in a resume tick.
#[derive(Clone, Copy, Debug, PartialEq, Eq, Structural)]
pub enum TickStep {
    /// Resume the stopped workers for `RESUME_WINDOW_MS` milliseconds.
    ResumeBriefly,
    /// Run a pass that makes sure every registered worker runs.
    EnsureAllRunning,
    /// Run the idle check.
    IdleCheck,
    /// Publish the restart counts and output tails of the workers.
    PublishDiagnostics,
}

/// Whether maintenance is due in the next tick, `ms` milliseconds of ticks
/// having gone by since the last one.
pub open spec fn maintenance_due(ms: u64) -> bool {
    ms + RESUME_TICK_MS > MAINTENANCE_MS
}

/// What is to be done in the next tick.
pub open spec fn tick_steps(ms: u64) -> Seq<TickStep> {
    if maintenance_due(ms) {
        seq![
            TickStep::ResumeBriefly,
            TickStep::EnsureAllRunning,
            TickStep::IdleCheck,
            TickStep::PublishDiagnostics,
        ]
    } else {
        seq![TickStep::ResumeBriefly]
    }
}

/// The idle controller's state.
pub struct IdleController {
    /// Milliseconds of resume ticks since the last maintenance tick.
    pub ms_since_last_ensured_running: u64,
    /// Whether the last maintenance tick wanted the workers stopped.
    pub last_tick_procs_should_be_stopped: bool,
    /// When a client was last active, in seconds since the epoch.
    pub last_client_activity_s: u64,
}

/// Seconds from `last` to `now`; none if the clock went back.
pub open spec fn idle_seconds(now: u64, last: u64) -> u64 {
    if now >= last {
        (now - last) as u64
    } else {
        0
    }
}

/// The transition between the verdicts of two maintenance ticks.
pub open spec fn transition_between(before: bool, now: bool) -> Option<IdleTransition> {
    if before == now {
        None
    } else if now {
        Some(IdleTransition::Suspending)
    } else {
        Some(IdleTransition::Resuming)
    }
}

impl IdleController {
    /// A controller at the start: nothing has ticked, the workers run, and
    /// no client was ever active.
    pub fn new() -> (r: Self)
        ensures
            r.ms_since_last_ensured_running == 0,
            !r.last_tick_procs_should_be_stopped,
            r.last_client_activity_s == 0,
    {
        IdleController {
            ms_since_last_ensured_running: 0,
            last_tick_procs_should_be_stopped: false,
            last_client_activity_s: 0,
        }
    }

    /// Counts one resume tick and says what is to be done in it: stopped
    /// workers are resumed briefly in every tick; when the ticks since the
    /// last maintenance add up to more than `MAINTENANCE_MS`, maintenance
    /// follows, and the count starts again.
    pub fn tick(&mut self) -> (r: Vec<TickStep>)
        ensures
            r@ == tick_steps(old(self).ms_since_last_ensured_running),
            final(self).ms_since_last_ensured_running == if maintenance_due(
                old(self).ms_since_last_ensured_running,
            ) {
                0
            } else {
                old(self).ms_since_last_ensured_running + RESUME_TICK_MS
            },
            final(self).last_tick_procs_should_be_stopped == old(
                self,
            ).last_tick_procs_should_be_stopped,
            final(self).last_client_activity_s == old(self).last_client_activity_s,
    {
        let mut steps: Vec<TickStep> = Vec::new();
        steps.push(TickStep::ResumeBriefly);
        if self.ms_since_last_ensured_running > MAINTENANCE_MS - RESUME_TICK_MS {
            self.ms_since_last_ensured_running = 0;
            steps.push(TickStep::EnsureAllRunning);
            steps.push(TickStep::IdleCheck);
            steps.push(TickStep::PublishDiagnostics);
        } else {
            self.ms_since_last_ensured_running = self.ms_since_last_ensured_running
                + RESUME_TICK_MS;
        }
        assert(steps@ =~= tick_steps(old(self).ms_since_last_ensured_running));
        steps
    }

    /// This controller and `procs` are `before` and `procs_before` after a
    /// client was active at `now_s`, `None` where the clock could not be
    /// read: the clock of client activity is stamped if the time is known
    /// and left alone if not, the stop latch is cleared, and
    /// `send_continue` says whether every worker is to be continued at
    /// once, as it is when a set latch is cleared on a host that can stop
    /// processes.
    pub open spec fn noted(
        &self,
        before: &Self,
        procs: &TrackedProcs,
        procs_before: &TrackedProcs,
        now_s: Option<u64>,
        send_continue: bool,
    ) -> bool {
        &&& self.last_client_activity_s == match now_s {
            Some(now) => now,
            None => before.last_client_activity_s,
        }
        &&& self.ms_since_last_ensured_running == before.ms_since_last_ensured_running
        &&& self.last_tick_procs_should_be_stopped == before.last_tick_procs_should_be_stopped
        &&& !procs.procs_should_be_stopped
        &&& send_continue == (procs_before.procs_should_be_stopped && procs_before.can_suspend)
        &&& procs.proc_track_dir == procs_before.proc_track_dir
        &&& procs.expected_bin_directory == procs_before.expected_bin_directory
        &&& procs.procs == procs_before.procs
        &&& procs.tracked_proc_args == procs_before.tracked_proc_args
        &&& procs.stage == procs_before.stage
        &&& procs.pass_end == procs_before.pass_end
        &&& procs.pending == procs_before.pending
        &&& procs.can_suspend == procs_before.can_suspend
        &&& procs.windows == procs_before.windows
        &&& (procs_before.wf() ==> procs.wf())
    }

    /// Notes that a client connected or began a job at `now_s`, `None`
    /// where the clock could not be read: the clock of client activity is
    /// stamped if the time is known, and the stop latch cleared. Returns
    /// whether every worker is to be continued at once.
    pub fn client_activity(&mut self, procs: &mut TrackedProcs, now_s: Option<u64>) -> (send_continue:
        bool)
        ensures
            final(self).noted(old(self), final(procs), old(procs), now_s, send_continue),
    {
        match now_s {
            Some(now) => {
                self.last_client_activity_s = now;
            },
            None => {},
        }
        procs.set_procs_should_be_stopped(false)
    }

    /// The idle check of a maintenance tick at `now_s`. On a host that
    /// can stop processes the latch is set if no client was active for more
    /// than `IDLE_LIMIT_S` seconds and cleared otherwise; elsewhere nothing
    /// changes.
    pub fn idle_check(&mut self, procs: &mut TrackedProcs, now_s: u64) -> (r: IdleVerdict)
        ensures
            r.idle_s == idle_seconds(now_s, old(self).last_client_activity_s),
            final(self).last_client_activity_s == old(self).last_client_activity_s,
            final(self).ms_since_last_ensured_running == old(
                self,
            ).ms_since_last_ensured_running,
            final(procs).procs == old(procs).procs,
            final(procs).tracked_proc_args == old(procs).tracked_proc_args,
            final(procs).stage == old(procs).stage,
            final(procs).pass_end == old(procs).pass_end,
            final(procs).pending == old(procs).pending,
            final(procs).can_suspend == old(procs).can_suspend,
            old(procs).wf() ==> final(procs).wf(),
            if old(procs).can_suspend {
                &&& final(procs).procs_should_be_stopped == (r.idle_s > IDLE_LIMIT_S)
                &&& final(self).last_tick_procs_should_be_stopped == (r.idle_s > IDLE_LIMIT_S)
                &&& r.transition == transition_between(
                    old(self).last_tick_procs_should_be_stopped,
                    r.idle_s > IDLE_LIMIT_S,
                )
                &&& r.send_continue == (old(procs).procs_should_be_stopped && r.idle_s
                    <= IDLE_LIMIT_S)
            } else {
                &&& final(procs).procs_should_be_stopped == old(procs).procs_should_be_stopped
                &&& final(self).last_tick_procs_should_be_stopped == old(
                    self,
                ).last_tick_procs_should_be_stopped
                &&& r.transition is None
                &&& !r.send_continue
            },
    {
        let idle_s: u64 = if now_s >= self.last_client_activity_s {
            now_s - self.last_client_activity_s
        } else {
            0
        };
        if !procs.can_suspend {
            return IdleVerdict { idle_s, transition: None, send_continue: false };
        }
        let should_stop: bool = idle_s > IDLE_LIMIT_S;
        let transition: Option<IdleTransition> = if should_stop
            == self.last_tick_procs_should_be_stopped {
            None
        } else if should_stop {
            Some(IdleTransition::Suspending)
        } else {
            Some(IdleTransition::Resuming)
        };
        let send_continue: bool = procs.set_procs_should_be_stopped(should_stop);
        self.last_tick_procs_should_be_stopped = should_stop;
        IdleVerdict { idle_s, transition, send_continue }
    }
}

} // verus!
