//! When the catalog is refreshed next.
//!
//! The catalog is refreshed once at start and then again and again, one
//! cycle at a time: a long while after a cycle that succeeded, a short while
//! after one that failed. The waiting itself is left to the caller; here is
//! what is waited for.

use crate::domain::ports::incoming::InstanceTypesUpdater;
use crate::domain::ports::outgoing::DataSource;
use crate::domain::services::instance_types::errors::UpdaterError;
use crate::domain::services::instance_types::updater::SourceReading;
use vstd::prelude::*;

verus! {

/// Default update interval in seconds: one week.
pub const UPDATE_INTERVAL_SECS: u64 = 60 * 60 * 24 * 7;

/// Interval between retries in seconds: one hour.
pub const RETRY_INTERVAL_SECS: u64 = 60 * 60;

/// What the scheduler waits for between two cycles.
#[derive(Clone, Copy, Debug, PartialEq, Eq, Structural)]
pub enum SchedulerState {
    /// The last cycle succeeded: the next one is due after the update
    /// interval.
    SuccessWait,
    /// The last cycle failed: the next one is due after the retry interval.
    RetryWait,
}

impl SchedulerState {
    /// The state that a cycle with the given outcome leaves: waiting for the
    /// next update where it succeeded, for a retry where it failed.
    pub open spec fn following(succeeded: bool) -> SchedulerState {
        if succeeded {
            SchedulerState::SuccessWait
        } else {
            SchedulerState::RetryWait
        }
    }

    /// How many seconds are waited in a state.
    pub open spec fn delay(self) -> u64 {
        match self {
            SchedulerState::SuccessWait => UPDATE_INTERVAL_SECS,
            SchedulerState::RetryWait => RETRY_INTERVAL_SECS,
        }
    }

    /// The state after a cycle that ended in `outcome`, see [`Self::following`].
    pub fn after(outcome: &Result<usize, UpdaterError>) -> (state: SchedulerState)
        ensures
            state == Self::following(outcome is Ok),
    {
        match outcome {
            Ok(_) => SchedulerState::SuccessWait,
            Err(_) => SchedulerState::RetryWait,
        }
    }

    /// The seconds until the next cycle, see [`Self::delay`].
    pub fn interval_secs(&self) -> (seconds: u64)
        ensures
            seconds == self.delay(),
    {
        match self {
            SchedulerState::SuccessWait => UPDATE_INTERVAL_SECS,
            SchedulerState::RetryWait => RETRY_INTERVAL_SECS,
        }
    }
}

/// The seconds to wait after a cycle that ended in `outcome`: the update
/// interval after a success, the retry interval after a failure, whatever
/// the failure and however many failures came before.
pub fn next_interval(outcome: &Result<usize, UpdaterError>) -> (seconds: u64)
    ensures
        outcome is Ok ==> seconds == UPDATE_INTERVAL_SECS,
        outcome is Err ==> seconds == RETRY_INTERVAL_SECS,
        seconds == SchedulerState::following(outcome is Ok).delay(),
{
    SchedulerState::after(outcome).interval_secs()
}

/// The retry comes sooner than the next update.
pub proof fn lemma_retry_is_sooner()
    ensures
        SchedulerState::RetryWait.delay() < SchedulerState::SuccessWait.delay(),
        SchedulerState::RetryWait.delay() == 3600,
        SchedulerState::SuccessWait.delay() == 604800,
{
}

/// What one cycle came to: how the refresh ended, and the seconds to wait
/// before the next cycle.
#[derive(Debug, PartialEq, Eq)]
pub struct Cycle {
    pub outcome: Result<usize, UpdaterError>,
    pub next_in_secs: u64,
}

/// Refreshes the catalog from one source through one updater, cycle after
/// cycle. It starts in no state, with a cycle due at once; after each cycle
/// it is in the state that the cycle left.
pub struct ScheduledInstanceTypesService<FileSource, U> {
    file_data_source: FileSource,
    updater: U,
    state: Option<SchedulerState>,
}

impl<FileSource: DataSource, U: InstanceTypesUpdater> ScheduledInstanceTypesService<FileSource, U> {
    /// The source that is read at each cycle.
    pub closed spec fn source_view(&self) -> FileSource {
        self.file_data_source
    }

    /// The updater that runs each cycle.
    pub closed spec fn updater_view(&self) -> U {
        self.updater
    }

    /// What the service waits for, if it has run a cycle yet.
    pub closed spec fn state_view(&self) -> Option<SchedulerState> {
        self.state
    }

    /// A service that refreshes through `updater` from `file_data_source`
    /// and has run no cycle yet.
    pub fn new(updater: U, file_data_source: FileSource) -> (service: Self)
        ensures
            service.updater_view() == updater,
            service.source_view() == file_data_source,
            service.state_view() is None,
    {
        Self { file_data_source, updater, state: None }
    }

    /// What the service waits for: nothing before its first cycle, then the
    /// next update or a retry.
    pub fn state(&self) -> (state: Option<SchedulerState>)
        ensures
            state == self.state_view(),
    {
        self.state
    }

    /// The seconds until the next cycle is due: none before the first
    /// cycle, then the delay of the state.
    pub fn due_in(&self) -> (seconds: u64)
        ensures
            seconds == match self.state_view() {
                None => 0,
                Some(state) => state.delay(),
            },
    {
        match self.state {
            None => 0,
            Some(state) => state.interval_secs(),
        }
    }

    /// The source that is read at each cycle.
    pub fn data_source(&self) -> (source: &FileSource)
        ensures
            *source == self.source_view(),
    {
        &self.file_data_source
    }

    /// Runs one cycle of `updater` on what was read and tells how it ended
    /// and how many seconds to wait before the next: the update interval if
    /// the cycle succeeded, the retry interval if it failed.
    ///
    /// The cycle is the updater's: it is run once, on the reading given, and
    /// what it reports is the outcome.
    pub fn process(updater: &mut U, reading: SourceReading) -> (cycle: Cycle)
        ensures
            old(updater).executes(reading, *final(updater), cycle.outcome),
            cycle.next_in_secs == SchedulerState::following(cycle.outcome is Ok).delay(),
            cycle.outcome is Ok ==> cycle.next_in_secs == UPDATE_INTERVAL_SECS,
            cycle.outcome is Err ==> cycle.next_in_secs == RETRY_INTERVAL_SECS,
    {
        let outcome = updater.execute(reading);
        let next_in_secs = next_interval(&outcome);
        Cycle { outcome, next_in_secs }
    }

    /// Runs one cycle of the service's updater on what was read and enters
    /// the state that the cycle leaves: waiting for the next update if it
    /// succeeded, for a retry if it failed. Tells how the cycle ended and
    /// how many seconds to wait in the new state. The cycle is the
    /// updater's, run once on the reading given; the source stays as it is.
    pub fn run_cycle(&mut self, reading: SourceReading) -> (cycle: Cycle)
        ensures
            old(self).updater_view().executes(
                reading,
                final(self).updater_view(),
                cycle.outcome,
            ),
            final(self).state_view() == Some(SchedulerState::following(cycle.outcome is Ok)),
            cycle.next_in_secs == SchedulerState::following(cycle.outcome is Ok).delay(),
            cycle.outcome is Ok ==> cycle.next_in_secs == UPDATE_INTERVAL_SECS,
            cycle.outcome is Err ==> cycle.next_in_secs == RETRY_INTERVAL_SECS,
            final(self).source_view() == old(self).source_view(),
    {
        let cycle = Self::process(&mut self.updater, reading);
        self.state = Some(SchedulerState::after(&cycle.outcome));
        cycle
    }
}

} // verus!
