//! The decisions of the presenter watcher: which tap to stop and which to
//! start as capture plans change and taps end.
//!
//! The host loop re-derives the wanted tap from the latest plan snapshot
//! whenever the plans change or the running tap ends on its own, hands it to
//! [`TapSupervisor::reconcile`], and carries out the command it returns. A
//! tap that ends on its own is thereby retried against the same snapshot
//! rather than waiting for an unrelated plan change.

use vstd::prelude::*;

use crate::plan::Wanted;

verus! {

/// What the host loop is to do after a reconcile: stop the running tap
/// first when `stop` is set, then start a tap for `start` when it is `Some`.
#[derive(Debug, Clone, Copy, PartialEq, Eq, Structural)]
pub struct TapCommand {
    /// Stop (and await) the tap that is running.
    pub stop: bool,
    /// Start a tap for this device and mode.
    pub start: Option<Wanted>,
}

/// The command a reconcile gives when `running` runs and `wanted` is wanted:
/// nothing while the running tap is the wanted one, otherwise stop what runs
/// (if anything) and start what is wanted (if anything).
pub open spec fn reconcile_command(running: Option<Wanted>, wanted: Option<Wanted>) -> TapCommand {
    if running is Some && running == wanted {
        TapCommand { stop: false, start: None }
    } else {
        TapCommand { stop: running is Some, start: wanted }
    }
}

/// The watcher's memory of which tap it runs.
#[derive(Debug)]
pub struct TapSupervisor {
    running: Option<Wanted>,
}

impl View for TapSupervisor {
    type V = Option<Wanted>;

    /// The tap believed to be running.
    closed spec fn view(&self) -> Option<Wanted> {
        self.running
    }
}

impl TapSupervisor {
    /// A watcher that runs no tap yet.
    pub fn new() -> (supervisor: Self)
        ensures
            supervisor@ is None,
    {
        TapSupervisor { running: None }
    }

    /// Bring the running tap in line with `wanted`, the tap the latest plan
    /// snapshot asks for. Afterwards `wanted` is the tap that runs.
    pub fn reconcile(&mut self, wanted: Option<Wanted>) -> (command: TapCommand)
        ensures
            command == reconcile_command(old(self)@, wanted),
            final(self)@ == wanted,
            command.stop == (old(self)@ is Some && old(self)@ != wanted),
            command.start == (if old(self)@ == wanted { None } else { wanted }),
    {
        let unchanged = match (self.running, wanted) {
            (Some(running), Some(w)) => running == w,
            _ => false,
        };
        if unchanged {
            TapCommand { stop: false, start: None }
        } else {
            let stop = self.running.is_some();
            self.running = wanted;
            TapCommand { stop, start: wanted }
        }
    }

    /// The running tap ended on its own (a transport error, or the device
    /// slept or disconnected): nothing runs any more.
    pub fn tap_ended(&mut self)
        ensures
            final(self)@ is None,
    {
        self.running = None;
    }

    /// The plans went away and the watcher ends: returns whether a running
    /// tap is owed a stop. Nothing runs afterwards.
    pub fn shut_down(&mut self) -> (stop: bool)
        ensures
            stop == old(self)@ is Some,
            final(self)@ is None,
    {
        let stop = self.running.is_some();
        self.running = None;
        stop
    }
}

/// At most one tap runs: a reconcile that starts a tap while another runs
/// stops that one first.
pub proof fn lemma_start_stops_the_running_tap(running: Option<Wanted>, wanted: Option<Wanted>)
    requires
        running is Some,
        reconcile_command(running, wanted).start is Some,
    ensures
        reconcile_command(running, wanted).stop,
{
}

/// A tap is started exactly when one is wanted that does not already run,
/// and stopped exactly when one runs that is no longer the wanted one.
pub proof fn lemma_commands_follow_the_difference(running: Option<Wanted>, wanted: Option<Wanted>)
    ensures
        (reconcile_command(running, wanted).start is Some) == (wanted is Some && running != wanted),
        reconcile_command(running, wanted).start is Some ==> reconcile_command(running, wanted).start
            == wanted,
        reconcile_command(running, wanted).stop == (running is Some && running != wanted),
{
}

/// Reconciling is idempotent: after a reconcile the wanted tap is the running
/// one, so a second reconcile against the same snapshot neither stops nor
/// starts anything.
pub proof fn lemma_reconcile_is_idempotent(wanted: Option<Wanted>)
    ensures
        reconcile_command(wanted, wanted) == (TapCommand { stop: false, start: None }),
{
}

/// A tap that ended on its own is retried: reconciling the same wanted tap
/// after it ended starts it again, with nothing left to stop.
pub proof fn lemma_ended_tap_is_retried(wanted: Wanted)
    ensures
        reconcile_command(None, Some(wanted)) == (TapCommand { stop: false, start: Some(wanted) }),
{
}

} // verus!
