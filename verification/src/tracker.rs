//! CPU/GPU submission sequencing: one completion token, replaced atomically
//! at each submit, bounding the outstanding GPU work to a single frame.
use vstd::prelude::*;

verus! {

/// The single token standing for "the GPU has not yet finished the most
/// recently submitted frame's work".
///
/// The sentinel is immediately satisfied: it stands for no outstanding work
/// at all, so waiting on it never blocks.
pub enum FrameEndToken {
    CompleteSentinel,
    Pending { seq: Ghost<nat> },
}

impl FrameEndToken {
    /// Whether this token still stands for unfinished GPU work.
    pub open spec fn is_pending(self) -> bool {
        self is Pending
    }

    /// Runtime test for `is_pending`.
    pub fn pending(&self) -> (r: bool)
        ensures
            r == self.is_pending(),
    {
        match self {
            FrameEndToken::Pending { .. } => true,
            FrameEndToken::CompleteSentinel => false,
        }
    }
}

/// What the device reports for one submission (submit plus chained present).
#[derive(Clone, Copy, PartialEq, Eq, Structural, Debug)]
pub enum SubmitReport {
    /// The work was accepted and the present was chained.
    Success,
    /// The target was reported stale at submit or present: nothing was
    /// submitted.
    OutOfDate,
    /// Any other failure: unrecoverable.
    DeviceError { code: u64 },
}

/// The tracker's decision on one submission.
#[derive(Clone, Copy, PartialEq, Eq, Structural, Debug)]
pub enum SubmitOutcome {
    /// A new token was armed and stored; the frame is in flight.
    Submitted,
    /// The frame was abandoned on a stale target; the caller must flag
    /// recreation. The token was reset to the sentinel.
    AbandonedStale,
    /// Fatal submission failure, propagated and never retried.
    Fatal { code: u64 },
}

/// Ghost-level image of a token: the sentinel, or the sequence number of
/// the submission it was armed for.
pub enum TokenModel {
    Complete,
    Pending { seq: nat },
}

/// Ghost-level image of the tracker.
pub struct TrackerModel {
    pub token: TokenModel,
    pub submitted: nat,
}

/// How one submit report transforms the tracker: success arms a fresh token
/// carrying the next sequence number; a stale or fatal report resets the
/// token to the sentinel so nothing ever waits on work that never happened.
pub open spec fn submit_step(m: TrackerModel, report: SubmitReport) -> TrackerModel {
    match report {
        SubmitReport::Success => TrackerModel {
            token: TokenModel::Pending { seq: m.submitted },
            submitted: m.submitted + 1,
        },
        SubmitReport::OutOfDate => TrackerModel { token: TokenModel::Complete, ..m },
        SubmitReport::DeviceError { .. } => TrackerModel { token: TokenModel::Complete, ..m },
    }
}

/// The tracker after a whole sequence of submit reports, first to last.
pub open spec fn run_submits(m: TrackerModel, reports: Seq<SubmitReport>) -> TrackerModel
    decreases reports.len(),
{
    if reports.len() == 0 {
        m
    } else {
        submit_step(run_submits(m, reports.drop_last()), reports.last())
    }
}

/// Sequences CPU submission against GPU completion. Holds exactly one
/// `FrameEndToken` at any time; each successful submit replaces it
/// atomically, so at most one frame's GPU work is ever outstanding.
pub struct SynchronizationTracker {
    pub token: FrameEndToken,
    /// How many submissions have succeeded.
    pub submitted: Ghost<nat>,
}

impl SynchronizationTracker {
    /// The held token was armed by the latest successful submission.
    pub open spec fn wf(self) -> bool {
        self.token matches FrameEndToken::Pending { seq } ==> self.submitted@ >= 1 && seq@
            == self.submitted@ - 1
    }

    /// Ghost-level image of this tracker.
    pub open spec fn model(self) -> TrackerModel {
        TrackerModel {
            token: match self.token {
                FrameEndToken::CompleteSentinel => TokenModel::Complete,
                FrameEndToken::Pending { seq } => TokenModel::Pending { seq: seq@ },
            },
            submitted: self.submitted@,
        }
    }

    /// How many frames of GPU work are outstanding: never more than one.
    pub open spec fn outstanding(self) -> nat {
        if self.token.is_pending() {
            1
        } else {
            0
        }
    }

    /// A fresh tracker holds the immediately satisfied sentinel.
    pub fn new() -> (t: SynchronizationTracker)
        ensures
            t.wf(),
            t.token is CompleteSentinel,
            t.submitted@ == 0,
    {
        SynchronizationTracker { token: FrameEndToken::CompleteSentinel, submitted: Ghost(0) }
    }

    /// Opportunistically reclaims resources whose GPU work is provably
    /// complete. Never blocks: the returned flag says whether the call had
    /// to wait, and it never does.
    pub fn begin_frame(&mut self) -> (waited: bool)
        ensures
            !waited,
            *final(self) == *old(self),
    {
        false
    }

    /// Joins the held token with the acquire signal, submits, chains a
    /// present, and arms a new token on success.
    ///
    /// On a stale report the frame is abandoned and the token is reset to
    /// the sentinel, so the next `begin_frame` is never blocked on work
    /// that never happened; the caller must flag recreation. Any other
    /// failure is propagated as fatal, never retried.
    pub fn submit(&mut self, report: SubmitReport) -> (outcome: SubmitOutcome)
        requires
            old(self).wf(),
        ensures
            final(self).wf(),
            final(self).model() == submit_step(old(self).model(), report),
            final(self).outstanding() <= 1,
            report is Success ==> outcome is Submitted && final(self).token.is_pending()
                && final(self).submitted@ == old(self).submitted@ + 1,
            report is OutOfDate ==> outcome is AbandonedStale && final(self).token
                is CompleteSentinel && final(self).submitted@ == old(self).submitted@,
            report matches SubmitReport::DeviceError { code } ==> outcome == (SubmitOutcome::Fatal {
                code,
            }) && final(self).token is CompleteSentinel && final(self).submitted@
                == old(self).submitted@,
    {
        match report {
            SubmitReport::Success => {
                self.token = FrameEndToken::Pending { seq: Ghost(self.submitted@) };
                self.submitted = Ghost(self.submitted@ + 1);
                SubmitOutcome::Submitted
            },
            SubmitReport::OutOfDate => {
                self.token = FrameEndToken::CompleteSentinel;
                SubmitOutcome::AbandonedStale
            },
            SubmitReport::DeviceError { code } => {
                self.token = FrameEndToken::CompleteSentinel;
                SubmitOutcome::Fatal { code }
            },
        }
    }
}

/// After any run of consecutive successful submits, exactly one token is
/// live, and it is the one armed by the last of them: its sequence number
/// is the total count of successful submissions, less one.
pub proof fn lemma_consecutive_successes(m: TrackerModel, reports: Seq<SubmitReport>)
    requires
        reports.len() > 0,
        forall|i: int| 0 <= i < reports.len() ==> reports[i] is Success,
    ensures
        run_submits(m, reports).submitted == m.submitted + reports.len(),
        run_submits(m, reports).token == (TokenModel::Pending {
            seq: (m.submitted + reports.len() - 1) as nat,
        }),
    decreases reports.len(),
{
    assert(reports[reports.len() - 1] is Success);
    if reports.len() == 1 {
        assert(reports.drop_last().len() == 0);
        assert(run_submits(m, reports) == submit_step(m, reports.last()));
    } else {
        assert(forall|i: int|
            0 <= i < reports.drop_last().len() ==> reports.drop_last()[i] is Success);
        lemma_consecutive_successes(m, reports.drop_last());
        assert(run_submits(m, reports) == submit_step(
            run_submits(m, reports.drop_last()),
            reports.last(),
        ));
    }
}

/// A simulated stale-at-submit resets the token to the complete sentinel,
/// whatever was outstanding before.
pub proof fn lemma_stale_resets_token(m: TrackerModel)
    ensures
        submit_step(m, SubmitReport::OutOfDate).token is Complete,
        submit_step(m, SubmitReport::OutOfDate).submitted == m.submitted,
{
}

} // verus!
