//! Coordination of process shutdown: an interrupt may be delivered more than
//! once, and concurrently with running node tasks, but the cleanup of cached
//! remote-chain state must happen exactly once, for the first interrupt
//! observed. The decision logic is modelled here as a state machine; the host
//! performs the atomic read-and-increment on its shared counter and hands the
//! pre-increment value to [`shutdown_action`], or drives a
//! [`ShutdownCoordinator`] value directly.

use vstd::prelude::*;

verus! {

/// The stages a shutdown passes through, in order.
#[derive(Clone, Copy, Debug, PartialEq, Eq, Structural)]
pub enum ShutdownStage {
    /// No interrupt has been observed yet.
    Idle,
    /// The first interrupt has been observed; cleanup is in progress.
    Cleaning,
    /// Cleanup has completed; the process may exit.
    Done,
}

/// What the caller that observed an interrupt must do next.
#[derive(Clone, Copy, Debug, PartialEq, Eq, Structural)]
pub enum ShutdownAction {
    /// First interrupt while the node runs in fork mode: flush the fork's
    /// cached remote state, then exit with a success status.
    FlushForkCacheThenExit,
    /// First interrupt without fork mode: exit with a success status.
    ExitOnly,
    /// A later interrupt: another caller already owns the cleanup.
    Ignore,
}

/// The action owed to the caller whose atomic read-and-increment of the
/// shared interrupt counter returned `prev_signals`: exactly the caller that
/// read zero performs cleanup (flushing the fork cache only in fork mode),
/// every other caller does nothing.
pub fn shutdown_action(prev_signals: u64, fork_mode: bool) -> (a: ShutdownAction)
    ensures
        a == spec_shutdown_action(prev_signals, fork_mode),
{
    if prev_signals == 0 {
        if fork_mode {
            ShutdownAction::FlushForkCacheThenExit
        } else {
            ShutdownAction::ExitOnly
        }
    } else {
        ShutdownAction::Ignore
    }
}

/// The action owed for a pre-increment counter value.
pub open spec fn spec_shutdown_action(prev_signals: u64, fork_mode: bool) -> ShutdownAction {
    if prev_signals == 0 {
        if fork_mode {
            ShutdownAction::FlushForkCacheThenExit
        } else {
            ShutdownAction::ExitOnly
        }
    } else {
        ShutdownAction::Ignore
    }
}

/// A process-wide shutdown state cell: a count of the interrupts observed so
/// far and the stage the shutdown has reached. At most one observer — the one
/// that saw the count still at zero — transitions it out of `Idle`.
pub struct ShutdownCoordinator {
    /// How many interrupts have been observed (saturating).
    pub signals: u64,
    /// The stage the shutdown has reached.
    pub stage: ShutdownStage,
}

/// The state a coordinator reaches when one more interrupt is observed.
pub open spec fn spec_observe(c: ShutdownCoordinator) -> ShutdownCoordinator {
    ShutdownCoordinator {
        signals: if c.signals == u64::MAX {
            u64::MAX
        } else {
            (c.signals + 1) as u64
        },
        stage: if c.signals == 0 {
            ShutdownStage::Cleaning
        } else {
            c.stage
        },
    }
}

/// Order on stages: a shutdown only moves forward.
pub open spec fn stage_le(a: ShutdownStage, b: ShutdownStage) -> bool {
    match a {
        ShutdownStage::Idle => true,
        ShutdownStage::Cleaning => b != ShutdownStage::Idle,
        ShutdownStage::Done => b == ShutdownStage::Done,
    }
}

impl ShutdownCoordinator {
    /// A coordinator is well formed when its stage agrees with its count:
    /// it is `Idle` exactly as long as no interrupt has been observed.
    pub open spec fn wf(self) -> bool {
        self.stage == ShutdownStage::Idle <==> self.signals == 0
    }

    /// A fresh coordinator: no interrupt observed, nothing cleaned.
    pub fn new() -> (c: ShutdownCoordinator)
        ensures
            c.signals == 0,
            c.stage == ShutdownStage::Idle,
            c.wf(),
    {
        ShutdownCoordinator { signals: 0, stage: ShutdownStage::Idle }
    }

    /// Observe one delivered interrupt. Exactly the observer that found the
    /// coordinator still idle receives a cleanup action and moves the stage
    /// to `Cleaning`; all later observers are told to do nothing and leave
    /// the state unchanged but for the count.
    pub fn observe_interrupt(&mut self, fork_mode: bool) -> (a: ShutdownAction)
        ensures
            a == spec_shutdown_action(old(self).signals, fork_mode),
            *final(self) == spec_observe(*old(self)),
            old(self).wf() ==> final(self).wf(),
            stage_le(old(self).stage, final(self).stage) || old(self).stage
                == ShutdownStage::Done,
    {
        let prev: u64 = self.signals;
        if self.signals < u64::MAX {
            self.signals = self.signals + 1;
        }
        if prev == 0 {
            self.stage = ShutdownStage::Cleaning;
        }
        shutdown_action(prev, fork_mode)
    }

    /// Record that the cleanup owed to the first observer has completed; the
    /// process exits right after.
    pub fn complete_cleanup(&mut self)
        requires
            old(self).stage == ShutdownStage::Cleaning,
        ensures
            final(self).stage == ShutdownStage::Done,
            final(self).signals == old(self).signals,
            old(self).wf() ==> final(self).wf(),
    {
        self.stage = ShutdownStage::Done;
    }
}

/// Shutdown is idempotent: of two interrupts delivered in succession to a
/// coordinator that has seen none, exactly the first receives a cleanup
/// action (a fork-cache flush exactly in fork mode), and the second is told
/// to do nothing.
pub proof fn lemma_shutdown_idempotent(c0: ShutdownCoordinator, fork_mode: bool)
    requires
        c0.signals == 0,
    ensures
        ({
            let a1 = spec_shutdown_action(c0.signals, fork_mode);
            let c1 = spec_observe(c0);
            let a2 = spec_shutdown_action(c1.signals, fork_mode);
            &&& a1 == if fork_mode {
                ShutdownAction::FlushForkCacheThenExit
            } else {
                ShutdownAction::ExitOnly
            }
            &&& a2 == ShutdownAction::Ignore
            &&& c1.stage == ShutdownStage::Cleaning
        }),
{
}

/// However many interrupts are delivered, every observer after the first is
/// told to do nothing: a cleanup action is owed only while the count is zero,
/// and the count never returns to zero.
pub proof fn lemma_at_most_one_cleanup(c: ShutdownCoordinator, fork_mode: bool)
    requires
        c.signals > 0,
    ensures
        spec_shutdown_action(c.signals, fork_mode) == ShutdownAction::Ignore,
        spec_observe(c).signals > 0,
{
}

} // verus!
