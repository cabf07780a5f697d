//! Bookkeeping of background transcription jobs: which media IDs are being
//! processed right now, and which ones failed, with the error message.

use vstd::prelude::*;
use vstd::hash_map::StringHashMap;
use vstd::hash_set::StringHashSet;

verus! {

/// The abstract state of the job bookkeeping.
pub struct JobsView {
    /// Media IDs whose background processing is under way.
    pub processing: Set<Seq<char>>,
    /// Media IDs whose last background processing failed, with its error message.
    pub failed: Map<Seq<char>, String>,
}

/// How a finished background job ended: `Ok` or the error's message.
pub type JobOutcome = Result<(), String>;

impl JobsView {
    /// The state after an attempt to claim `id`: it is then under way,
    /// whether or not it was before.
    pub open spec fn claim(self, id: Seq<char>) -> JobsView {
        JobsView { processing: self.processing.insert(id), failed: self.failed }
    }

    /// Whether an attempt to claim `id` wins the slot, that is, whether the
    /// caller has to start the background job.
    pub open spec fn claim_wins(self, id: Seq<char>) -> bool {
        !self.processing.contains(id)
    }

    /// The state after the background job of `id` ended with `outcome`: it is
    /// no longer under way; a success clears an earlier failure, a failure
    /// records its message.
    pub open spec fn finish(self, id: Seq<char>, outcome: JobOutcome) -> JobsView {
        JobsView {
            processing: self.processing.remove(id),
            failed: match outcome {
                Ok(()) => self.failed.remove(id),
                Err(message) => self.failed.insert(id, message),
            },
        }
    }

    /// The recorded failure of `id`, if any.
    pub open spec fn failure_of(self, id: Seq<char>) -> Option<String> {
        if self.failed.contains_key(id) {
            Some(self.failed[id])
        } else {
            None
        }
    }
}

/// The job bookkeeping shared by the request handlers.
pub struct JobTracker {
    processing: StringHashSet,
    failed: StringHashMap<String>,
}

impl View for JobTracker {
    type V = JobsView;

    closed spec fn view(&self) -> JobsView {
        JobsView { processing: self.processing@, failed: self.failed@ }
    }
}

impl JobTracker {
    /// No job under way and no failure recorded.
    pub fn new() -> (jobs: JobTracker)
        ensures
            jobs@.processing == Set::<Seq<char>>::empty(),
            jobs@.failed == Map::<Seq<char>, String>::empty(),
    {
        JobTracker { processing: StringHashSet::new(), failed: StringHashMap::new() }
    }

    /// Whether the background job of `media_id` is under way.
    pub fn is_processing(&self, media_id: &str) -> (busy: bool)
        ensures
            busy == self@.processing.contains(media_id@),
    {
        self.processing.contains(media_id)
    }

    /// Check and claim in one step: returns `true`, and marks the media as
    /// under way, when no job for it was under way; returns `false` when one
    /// was. Only the caller that got `true` starts the background job.
    pub fn try_claim(&mut self, media_id: String) -> (claimed: bool)
        ensures
            claimed == old(self)@.claim_wins(media_id@),
            final(self)@ == old(self)@.claim(media_id@),
    {
        if self.processing.contains(media_id.as_str()) {
            assert(old(self)@.processing.insert(media_id@) =~= old(self)@.processing);
            false
        } else {
            self.processing.insert(media_id);
            true
        }
    }

    /// Record the end of the background job of `media_id`.
    pub fn finish(&mut self, media_id: &str, outcome: JobOutcome)
        ensures
            final(self)@ == old(self)@.finish(media_id@, outcome),
    {
        self.processing.remove(media_id);
        match outcome {
            Ok(()) => {
                self.failed.remove(media_id);
            },
            Err(message) => {
                let key = String::from_str(media_id);
                self.failed.insert(key, message);
            },
        }
    }

    /// The error message of the last failed job of `media_id`, if any.
    pub fn failure(&self, media_id: &str) -> (message: Option<String>)
        ensures
            message == self@.failure_of(media_id@),
    {
        match self.failed.get(media_id) {
            Some(m) => Some(m.clone()),
            None => None,
        }
    }
}

/// Claiming is exclusive: of two claims of one media ID in a row, the second
/// never wins, so no two background jobs run for the same media.
pub proof fn lemma_claim_is_exclusive(v: JobsView, id: Seq<char>)
    ensures
        v.claim(id).processing.contains(id),
        !v.claim(id).claim_wins(id),
        v.claim(id).claim(id) == v.claim(id),
{
    assert(v.claim(id).claim(id).processing =~= v.claim(id).processing);
}

/// A claim touches no other media ID and no recorded failure.
pub proof fn lemma_claim_frame(v: JobsView, id: Seq<char>, other: Seq<char>)
    requires
        other != id,
    ensures
        v.claim(id).processing.contains(other) == v.processing.contains(other),
        v.claim(id).failure_of(other) == v.failure_of(other),
        v.claim(id).failure_of(id) == v.failure_of(id),
{
}

/// Once a job has finished, whatever its outcome, the media is no longer under
/// way and the next claim of it wins again.
pub proof fn lemma_finish_releases(v: JobsView, id: Seq<char>, outcome: JobOutcome)
    ensures
        !v.finish(id, outcome).processing.contains(id),
        v.finish(id, outcome).claim_wins(id),
{
}

/// A failed job leaves its message to be reported; a successful one clears
/// any earlier failure.
pub proof fn lemma_finish_records_outcome(v: JobsView, id: Seq<char>, outcome: JobOutcome)
    ensures
        v.finish(id, outcome).failure_of(id) == match outcome {
            Ok(()) => None::<String>,
            Err(message) => Some(message),
        },
{
}

/// Finishing the job of one media ID leaves every other media ID as it was.
pub proof fn lemma_finish_frame(v: JobsView, id: Seq<char>, outcome: JobOutcome, other: Seq<char>)
    requires
        other != id,
    ensures
        v.finish(id, outcome).processing.contains(other) == v.processing.contains(other),
        v.finish(id, outcome).failure_of(other) == v.failure_of(other),
{
}

/// A job that is claimed and then finishes leaves the bookkeeping of its media
/// as the outcome says, whether or not a job was under way before: not under
/// way, and failed exactly when the outcome is an error.
pub proof fn lemma_claim_then_finish(v: JobsView, id: Seq<char>, outcome: JobOutcome)
    ensures
        v.claim(id).finish(id, outcome).processing == v.processing.remove(id),
        v.claim(id).finish(id, outcome).failure_of(id) == v.finish(id, outcome).failure_of(id),
{
    assert(v.claim(id).finish(id, outcome).processing =~= v.processing.remove(id));
}

} // verus!
