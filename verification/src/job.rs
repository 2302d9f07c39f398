//! The course of one search of a volume, as its owner sees it.
//!
//! The owner starts a search, lets a worker run it, may ask it to stop, and
//! at the end takes what was found. The worker itself, its thread and the
//! clock are the caller's; this module keeps the state and says what each
//! step is allowed to do.

use crate::helpers::texts;
use crate::scan::VolumeSearch;
use vstd::prelude::*;

verus! {

/// Where a search stands.
#[derive(Clone, Copy, Debug, PartialEq, Eq, Structural)]
pub enum ScanPhase {
    /// No search is under way and no result waits.
    Idle,
    /// A worker is searching.
    Running,
    /// The worker went through the whole volume.
    Completed,
    /// The worker saw the request to stop and ended early.
    Cancelled,
    /// The worker broke down.
    Failed,
}

/// Why a search has no result.
#[derive(Clone, Copy, Debug, PartialEq, Eq, Structural)]
pub enum ScanJobError {
    /// The worker broke down before it could hand over what it found.
    WorkerFailed,
}

/// One search of a volume and its result.
#[derive(Debug)]
pub struct ScanJob {
    /// Where the search stands.
    pub phase: ScanPhase,
    /// Whether the worker was asked to stop.
    pub stop_requested: bool,
    /// The reading of the caller's clock, in milliseconds, at the last start.
    pub started_at: u64,
    /// What the worker found, until it is taken.
    pub results: Vec<String>,
}

impl ScanJob {
    /// The worker has ended, one way or another.
    pub open spec fn is_over(self) -> bool {
        self.phase == ScanPhase::Completed || self.phase == ScanPhase::Cancelled || self.phase
            == ScanPhase::Failed
    }

    /// A job with no search under way.
    pub fn new() -> (job: Self)
        ensures
            job.phase == ScanPhase::Idle,
            !job.stop_requested,
            job.started_at == 0,
            job.results@.len() == 0,
    {
        ScanJob { phase: ScanPhase::Idle, stop_requested: false, started_at: 0, results: Vec::new() }
    }

    /// Starts a search at `root`, at the reading `now` of the clock. The
    /// request to stop is cleared and the clock starts anew. What comes back
    /// is the search for the worker to run. A job whose last search was not
    /// taken with [`Self::join`] cannot start another.
    pub fn start(&mut self, root: String, now: u64) -> (search: VolumeSearch)
        requires
            old(self).phase == ScanPhase::Idle,
        ensures
            final(self).phase == ScanPhase::Running,
            !final(self).stop_requested,
            final(self).started_at == now,
            final(self).results@.len() == 0,
            search@.pending == seq![root@],
            search@.results == Seq::<Seq<char>>::empty(),
            !search@.stopped,
    {
        self.phase = ScanPhase::Running;
        self.stop_requested = false;
        self.started_at = now;
        self.results = Vec::new();
        VolumeSearch::new(root)
    }

    /// Asks the worker to stop. The worker sees the request at its next
    /// visit; what it found stays to be taken.
    pub fn request_stop(&mut self)
        ensures
            final(self).stop_requested,
            final(self).phase == old(self).phase,
            final(self).started_at == old(self).started_at,
            final(self).results == old(self).results,
    {
        self.stop_requested = true;
    }

    /// Takes in the search that the worker ended with.
    pub fn worker_finished(&mut self, search: VolumeSearch)
        requires
            old(self).phase == ScanPhase::Running,
        ensures
            final(self).phase == if search@.stopped {
                ScanPhase::Cancelled
            } else {
                ScanPhase::Completed
            },
            texts(final(self).results@) == search@.results,
            final(self).stop_requested == old(self).stop_requested,
            final(self).started_at == old(self).started_at,
    {
        self.phase = if search.stopped {
            ScanPhase::Cancelled
        } else {
            ScanPhase::Completed
        };
        self.results = search.into_results();
    }

    /// Notes that the worker broke down.
    pub fn worker_failed(&mut self)
        requires
            old(self).phase == ScanPhase::Running,
        ensures
            final(self).phase == ScanPhase::Failed,
            final(self).results@.len() == 0,
            final(self).stop_requested == old(self).stop_requested,
            final(self).started_at == old(self).started_at,
    {
        self.phase = ScanPhase::Failed;
        self.results = Vec::new();
    }

    /// Whether the worker has ended, so that [`Self::join`] can be called.
    pub fn poll_completion(&self) -> (over: bool)
        ensures
            over == self.is_over(),
    {
        match self.phase {
            ScanPhase::Completed => true,
            ScanPhase::Cancelled => true,
            ScanPhase::Failed => true,
            _ => false,
        }
    }

    /// Takes what the worker found and makes the job ready for another
    /// search. A search that was stopped gives what it had found by then; a
    /// worker that broke down gives an error.
    pub fn join(&mut self) -> (found: Result<Vec<String>, ScanJobError>)
        requires
            old(self).is_over(),
        ensures
            final(self).phase == ScanPhase::Idle,
            final(self).results@.len() == 0,
            final(self).stop_requested == old(self).stop_requested,
            final(self).started_at == old(self).started_at,
            match found {
                Ok(results) => old(self).phase != ScanPhase::Failed && results == old(self).results,
                Err(e) => old(self).phase == ScanPhase::Failed && e == ScanJobError::WorkerFailed,
            },
    {
        let failed: bool = self.phase == ScanPhase::Failed;
        self.phase = ScanPhase::Idle;
        let mut results: Vec<String> = Vec::new();
        std::mem::swap(&mut self.results, &mut results);
        if failed {
            Err(ScanJobError::WorkerFailed)
        } else {
            Ok(results)
        }
    }

    /// The milliseconds since the last start, at the reading `now` of the
    /// clock; nothing where the clock reads less than it did at the start.
    pub fn elapsed(&self, now: u64) -> (millis: u64)
        ensures
            millis == if now >= self.started_at {
                now - self.started_at
            } else {
                0
            },
    {
        if now >= self.started_at {
            now - self.started_at
        } else {
            0
        }
    }
}

/// Time does not run backwards for a job: of two readings of the clock, the
/// later one gives the longer time since the start.
pub proof fn lemma_elapsed_is_monotonic(started_at: u64, earlier: u64, later: u64)
    requires
        earlier <= later,
    ensures
        (if earlier >= started_at {
            earlier - started_at
        } else {
            0
        }) <= (if later >= started_at {
            later - started_at
        } else {
            0
        }),
{
}

} // verus!
