//! Drives one frame end to end: forwards windowing events, steps the
//! surface lifecycle, sequences the registered stages into one ordered
//! command recording, and hands the recording to the synchronization
//! tracker for submission.
use vstd::prelude::*;

use crate::internals::RuminativeInternals;
use crate::state::SimulationState;
use crate::surface::{surface_op_step, AcquireOutcome, AcquireReport, Extent, SurfaceSignalOp};
use crate::systems::KeyPressed;
use crate::tracker::{submit_step, SubmitOutcome, SubmitReport};

verus! {

/// What the windowing source delivers.
#[derive(Clone, Copy, PartialEq, Eq, Structural, Debug)]
pub enum WindowingEvent {
    CloseRequested,
    Resized { extent: Extent },
    KeyboardInput { key: u32 },
    RedrawEventsCleared,
    /// Anything else: forwarded opaquely to interested stages,
    /// uninterpreted by the core.
    Other,
}

/// What the loop driver must do with an event.
#[derive(Clone, Copy, PartialEq, Eq, Structural, Debug)]
pub enum EventAction {
    /// End the loop now.
    Exit,
    /// Run a frame.
    FrameDue,
    /// Keep looping.
    Continue,
}

/// A stage's failure for the current frame; the stage's contribution is
/// dropped, nothing else is.
#[derive(Clone, Copy, PartialEq, Eq, Structural, Debug)]
pub struct StageError {
    pub code: u64,
}

/// An independently developed unit of rendering logic.
///
/// Within a frame, every stage's `update` runs, in registration order,
/// before any stage's `bind`; `bind` hands back the commands the stage
/// contributes to the shared recording. A stage is free to touch only its
/// own state: `update` reads the shared simulation state, it does not write
/// it.
pub trait Stage: Sized {
    /// An event forwarded from the windowing source.
    fn handle_event(&mut self, event: &WindowingEvent);

    /// The per-frame update step.
    fn update(&mut self, state: &SimulationState) -> Result<(), StageError>;

    /// The per-frame command-recording step.
    fn bind(&mut self) -> Result<Vec<u64>, StageError>;
}

/// One stage's commands within a frame recording, tagged by the orchestrator
/// with the stage's registration index.
pub struct RecordedContribution {
    pub stage: usize,
    pub commands: Vec<u64>,
}

/// The shared command recording of one frame: contributions stand in strict
/// registration order, and the recording is tied to the target set
/// generation and image index it was recorded for.
pub struct FrameRecording {
    pub target_index: u32,
    pub generation: Ghost<nat>,
    pub entries: Vec<RecordedContribution>,
}

/// How one stage fared within a frame.
#[derive(Clone, Copy, PartialEq, Eq, Structural, Debug)]
pub enum StageStatus {
    /// Both steps succeeded; the stage's commands are in the recording.
    Recorded,
    /// The update step failed: the stage's whole contribution was skipped.
    UpdateFailed { error: StageError },
    /// The bind step failed: the stage contributed nothing.
    BindFailed { error: StageError },
}

/// One stage's report for one frame.
#[derive(Clone, Copy, PartialEq, Eq, Structural, Debug)]
pub struct StageReport {
    pub stage: usize,
    pub status: StageStatus,
}

/// The committed submission order: stage indexes in registration order.
/// Append-only after boot; there is no removal primitive.
pub struct PipelineRunner {
    pub order: Vec<usize>,
}

/// Where the orchestrator stands within the current frame; an acquired
/// index is valid only for the current frame's submission.
#[derive(Clone, Copy, PartialEq, Eq, Structural, Debug)]
pub enum FramePhase {
    Idle,
    AwaitingAcquire,
    Acquired { index: u32 },
    Recorded { index: u32 },
}

/// The stage indexes a report sequence recorded, in order.
pub open spec fn recorded_stage_ids(reports: Seq<StageReport>) -> Seq<usize>
    decreases reports.len(),
{
    if reports.len() == 0 {
        Seq::empty()
    } else {
        recorded_stage_ids(reports.drop_last()) + (if reports.last().status is Recorded {
            seq![reports.last().stage]
        } else {
            Seq::empty()
        })
    }
}

/// The stage indexes a recording's contributions carry, in order.
pub open spec fn contribution_ids(entries: Seq<RecordedContribution>) -> Seq<usize> {
    entries.map_values(|e: RecordedContribution| e.stage)
}

/// With every stage succeeding, the recorded stage indexes are exactly the
/// registration order: 0, 1, ... up to the stage count.
pub proof fn lemma_full_frame_in_registration_order(reports: Seq<StageReport>)
    requires
        forall|i: int|
            0 <= i < reports.len() ==> (#[trigger] reports[i]).stage == i && reports[i].status
                is Recorded,
    ensures
        recorded_stage_ids(reports) =~= Seq::new(reports.len(), |i: int| i as usize),
    decreases reports.len(),
{
    if reports.len() > 0 {
        lemma_full_frame_in_registration_order(reports.drop_last());
        assert(recorded_stage_ids(reports) =~= recorded_stage_ids(reports.drop_last()) + seq![
            reports.last().stage,
        ]);
    }
}

/// The frame step skipped or went ahead.
#[derive(Clone, Copy, PartialEq, Eq, Structural, Debug)]
pub enum BeginFrameOutcome {
    /// The window has no area; nothing is done this frame.
    SkippedZeroArea,
    /// The surface is ready; acquire the next target.
    ReadyToAcquire,
}

/// Drives frames: owns the engine internals, the stage list and its
/// committed order, and the per-frame phase; events and device reports come
/// in as plain values, and the decisions come back out the same way.
pub struct FrameOrchestrator<S> {
    pub internals: RuminativeInternals,
    pub runner: PipelineRunner,
    pub stages: Vec<S>,
    pub phase: FramePhase,
    pub key_queue: Vec<KeyPressed>,
    pub dispatch_enabled: bool,
}

impl<S> FrameOrchestrator<S> {
    /// Well-formedness: the committed order is exactly the registration
    /// order; the tracker token is the latest one armed; recreations never
    /// outnumber stale/resize signals; an acquired index lies within the
    /// current target set.
    pub open spec fn wf(self) -> bool {
        &&& self.runner.order@.len() == self.stages@.len()
        &&& forall|i: int| 0 <= i < self.runner.order@.len() ==> self.runner.order@[i] == i
        &&& self.internals.tracker.wf()
        &&& self.internals.surface.recreations@ + (if self.internals.surface.pending_recreate {
            1int
        } else {
            0int
        }) <= self.internals.surface.signals@
        &&& (self.phase matches FramePhase::Acquired { index } ==> index
            < self.internals.surface.targets.image_count)
        &&& (self.phase matches FramePhase::Recorded { index } ==> index
            < self.internals.surface.targets.image_count)
    }
}

impl<S: Stage> FrameOrchestrator<S> {
    /// Appends a stage; registration order is the commitment contract for
    /// command-submission ordering, and nothing is ever removed.
    pub fn register_stage(&mut self, stage: S)
        requires
            old(self).wf(),
        ensures
            final(self).wf(),
            final(self).stages@ == old(self).stages@.push(stage),
            final(self).runner.order@ == old(self).runner.order@.push(old(self).stages@.len() as usize),
            final(self).internals == old(self).internals,
            final(self).phase == old(self).phase,
            final(self).key_queue == old(self).key_queue,
            final(self).dispatch_enabled == old(self).dispatch_enabled,
    {
        let idx = self.stages.len();
        self.stages.push(stage);
        self.runner.order.push(idx);
    }

    /// Takes one windowing event: forwards it to every stage, then decides.
    /// A close request ends the loop; a resize only flags recreation for
    /// the next frame step; a key press is queued for the post-frame
    /// dispatch; cleared redraw events mean a frame is due.
    pub fn handle_event(&mut self, event: &WindowingEvent) -> (action: EventAction)
        requires
            old(self).wf(),
        ensures
            final(self).wf(),
            final(self).stages@.len() == old(self).stages@.len(),
            final(self).runner == old(self).runner,
            final(self).phase == old(self).phase,
            final(self).dispatch_enabled == old(self).dispatch_enabled,
            final(self).internals.tracker == old(self).internals.tracker,
            final(self).internals.device_index == old(self).internals.device_index,
            final(self).internals.queue_family == old(self).internals.queue_family,
            event is CloseRequested ==> action is Exit && final(self).internals.surface == old(
                self,
            ).internals.surface && final(self).key_queue == old(self).key_queue,
            event matches WindowingEvent::Resized { extent } ==> {
                &&& action is Continue
                &&& final(self).internals.surface.pending_recreate
                &&& final(self).internals.surface.observed_extent == extent
                &&& final(self).internals.surface.signals@ == old(
                    self,
                ).internals.surface.signals@ + 1
                &&& final(self).internals.surface.targets == old(self).internals.surface.targets
                &&& final(self).internals.surface.recreations@ == old(
                    self,
                ).internals.surface.recreations@
                &&& final(self).key_queue == old(self).key_queue
                &&& final(self).internals.surface.model() == surface_op_step(
                    old(self).internals.surface.model(),
                    SurfaceSignalOp::Resize { extent: *extent },
                )
            },
            event matches WindowingEvent::KeyboardInput { key } ==> {
                &&& action is Continue
                &&& final(self).key_queue@ == old(self).key_queue@.push(KeyPressed(*key))
                &&& final(self).internals.surface == old(self).internals.surface
            },
            event is RedrawEventsCleared ==> action is FrameDue && final(self).internals.surface
                == old(self).internals.surface && final(self).key_queue == old(self).key_queue,
            event is Other ==> action is Continue && final(self).internals.surface == old(
                self,
            ).internals.surface && final(self).key_queue == old(self).key_queue,
    {
        let n = self.stages.len();
        let mut j: usize = 0;
        while j < n
            invariant
                j <= n,
                self.stages@.len() == n,
                self.internals == old(self).internals,
                self.runner == old(self).runner,
                self.phase == old(self).phase,
                self.key_queue == old(self).key_queue,
                self.dispatch_enabled == old(self).dispatch_enabled,
            decreases n - j,
        {
            let mut stage = self.stages.remove(j);
            stage.handle_event(event);
            self.stages.insert(j, stage);
            j += 1;
        }
        match event {
            WindowingEvent::CloseRequested => EventAction::Exit,
            WindowingEvent::Resized { extent } => {
                self.internals.surface.note_resize(*extent);
                EventAction::Continue
            },
            WindowingEvent::KeyboardInput { key } => {
                self.key_queue.push(KeyPressed(*key));
                EventAction::Continue
            },
            WindowingEvent::RedrawEventsCleared => EventAction::FrameDue,
            WindowingEvent::Other => EventAction::Continue,
        }
    }

    /// Steps into a new frame: skips it outright while the window has no
    /// area, otherwise reclaims what the tracker can and carries out the
    /// deferred recreation if one is pending. Recreation here always
    /// succeeds: the extent was just checked to be non-degenerate.
    pub fn begin_frame(&mut self) -> (r: BeginFrameOutcome)
        requires
            old(self).wf(),
            old(self).phase is Idle,
        ensures
            final(self).wf(),
            final(self).stages@ == old(self).stages@,
            final(self).runner == old(self).runner,
            final(self).key_queue == old(self).key_queue,
            final(self).dispatch_enabled == old(self).dispatch_enabled,
            final(self).internals.tracker == old(self).internals.tracker,
            final(self).internals.device_index == old(self).internals.device_index,
            final(self).internals.queue_family == old(self).internals.queue_family,
            final(self).internals.surface.model() == surface_op_step(
                old(self).internals.surface.model(),
                SurfaceSignalOp::FrameStep,
            ),
            old(self).internals.surface.observed_extent.zero_area() ==> r is SkippedZeroArea
                && *final(self) == *old(self),
            !old(self).internals.surface.observed_extent.zero_area() ==> {
                &&& r is ReadyToAcquire
                &&& final(self).phase is AwaitingAcquire
                &&& final(self).internals.surface.observed_extent == old(
                    self,
                ).internals.surface.observed_extent
                &&& final(self).internals.surface.signals@ == old(self).internals.surface.signals@
                &&& !final(self).internals.surface.pending_recreate
                &&& (old(self).internals.surface.pending_recreate ==> {
                    &&& final(self).internals.surface.targets.extent == old(
                        self,
                    ).internals.surface.observed_extent
                    &&& final(self).internals.surface.targets.generation@ == old(
                        self,
                    ).internals.surface.targets.generation@ + 1
                    &&& final(self).internals.surface.recreations@ == old(
                        self,
                    ).internals.surface.recreations@ + 1
                })
                &&& (!old(self).internals.surface.pending_recreate
                    ==> final(self).internals.surface == old(self).internals.surface)
            },
    {
        if self.internals.surface.observed_extent.is_zero_area() {
            return BeginFrameOutcome::SkippedZeroArea;
        }
        let _waited = self.internals.tracker.begin_frame();
        if self.internals.surface.pending_recreate {
            let extent = self.internals.surface.observed_extent;
            let r = self.internals.surface.recreate(extent);
            proof {
                assert(r is Ok);
            }
        }
        self.phase = FramePhase::AwaitingAcquire;
        BeginFrameOutcome::ReadyToAcquire
    }

    /// Takes the presentation engine's acquire report and decides: a stale
    /// report abandons the frame and flags recreation; otherwise the frame
    /// goes ahead on the reported index, flagging recreation first if the
    /// image is suboptimal.
    pub fn complete_acquire(&mut self, report: AcquireReport) -> (outcome: AcquireOutcome)
        requires
            old(self).wf(),
            old(self).phase is AwaitingAcquire,
            report matches AcquireReport::Ready { index, .. } ==> index < old(
                self,
            ).internals.surface.targets.image_count,
        ensures
            final(self).wf(),
            final(self).stages@ == old(self).stages@,
            final(self).runner == old(self).runner,
            final(self).key_queue == old(self).key_queue,
            final(self).dispatch_enabled == old(self).dispatch_enabled,
            final(self).internals.tracker == old(self).internals.tracker,
            final(self).internals.device_index == old(self).internals.device_index,
            final(self).internals.queue_family == old(self).internals.queue_family,
            final(self).internals.surface.targets == old(self).internals.surface.targets,
            final(self).internals.surface.observed_extent == old(
                self,
            ).internals.surface.observed_extent,
            report is OutOfDate ==> {
                &&& outcome is Stale
                &&& final(self).phase is Idle
                &&& final(self).internals.surface.pending_recreate
            },
            report matches AcquireReport::Ready { index, suboptimal: true } ==> {
                &&& outcome == AcquireOutcome::SuboptimalTarget { index }
                &&& final(self).phase == FramePhase::Acquired { index }
                &&& final(self).internals.surface.pending_recreate
            },
            report matches AcquireReport::Ready { index, suboptimal: false } ==> {
                &&& outcome == AcquireOutcome::Target { index }
                &&& final(self).phase == FramePhase::Acquired { index }
                &&& final(self).internals.surface == old(self).internals.surface
            },
    {
        let outcome = self.internals.surface.acquire_next_target(report);
        match outcome {
            AcquireOutcome::Stale => {
                self.phase = FramePhase::Idle;
            },
            AcquireOutcome::Target { index } => {
                self.phase = FramePhase::Acquired { index };
            },
            AcquireOutcome::SuboptimalTarget { index } => {
                self.phase = FramePhase::Acquired { index };
            },
        }
        outcome
    }

    /// Runs one frame's stages on the acquired target: every stage's
    /// update step, in registration order, then every stage's bind step,
    /// in the same order, appending each successful stage's commands to
    /// the one shared recording.
    ///
    /// A failing stage loses only its own contribution for this frame:
    /// its error lands in its report and every other stage still runs.
    pub fn run_frame(&mut self, target_index: u32, state: &SimulationState) -> (r: (FrameRecording, Vec<StageReport>))
        requires
            old(self).wf(),
            (old(self).phase matches FramePhase::Acquired { index } && index == target_index),
        ensures
            final(self).wf(),
            final(self).stages@.len() == old(self).stages@.len(),
            final(self).runner == old(self).runner,
            final(self).key_queue == old(self).key_queue,
            final(self).dispatch_enabled == old(self).dispatch_enabled,
            final(self).internals == old(self).internals,
            final(self).phase == (FramePhase::Recorded { index: target_index }),
            r.1@.len() == old(self).stages@.len(),
            forall|i: int| 0 <= i < r.1@.len() ==> (#[trigger] r.1@[i]).stage == i,
            contribution_ids(r.0.entries@) == recorded_stage_ids(r.1@),
            r.0.target_index == target_index,
            r.0.generation@ == old(self).internals.surface.targets.generation@,
    {
        let n = self.stages.len();
        let mut update_errors: Vec<Option<StageError>> = Vec::new();
        let mut j: usize = 0;
        while j < n
            invariant
                j <= n,
                self.stages@.len() == n,
                update_errors@.len() == j,
                self.internals == old(self).internals,
                self.runner == old(self).runner,
                self.phase == old(self).phase,
                self.key_queue == old(self).key_queue,
                self.dispatch_enabled == old(self).dispatch_enabled,
            decreases n - j,
        {
            let mut stage = self.stages.remove(j);
            let result = stage.update(state);
            self.stages.insert(j, stage);
            update_errors.push(
                match result {
                    Ok(_) => None,
                    Err(e) => Some(e),
                },
            );
            j += 1;
        }
        let mut entries: Vec<RecordedContribution> = Vec::new();
        let mut reports: Vec<StageReport> = Vec::new();
        let mut j: usize = 0;
        while j < n
            invariant
                j <= n,
                self.stages@.len() == n,
                update_errors@.len() == n,
                reports@.len() == j,
                forall|k: int| 0 <= k < j ==> (#[trigger] reports@[k]).stage == k,
                contribution_ids(entries@) == recorded_stage_ids(reports@),
                self.internals == old(self).internals,
                self.runner == old(self).runner,
                self.phase == old(self).phase,
                self.key_queue == old(self).key_queue,
                self.dispatch_enabled == old(self).dispatch_enabled,
            decreases n - j,
        {
            let ghost prev_reports = reports@;
            let ghost prev_entries = entries@;
            match update_errors[j] {
                Some(error) => {
                    reports.push(
                        StageReport { stage: j, status: StageStatus::UpdateFailed { error } },
                    );
                    proof {
                        assert(reports@.drop_last() =~= prev_reports);
                        assert(contribution_ids(entries@) =~= recorded_stage_ids(reports@));
                    }
                },
                None => {
                    let mut stage = self.stages.remove(j);
                    let result = stage.bind();
                    self.stages.insert(j, stage);
                    match result {
                        Ok(commands) => {
                            entries.push(RecordedContribution { stage: j, commands });
                            reports.push(
                                StageReport { stage: j, status: StageStatus::Recorded },
                            );
                            proof {
                                assert(reports@.drop_last() =~= prev_reports);
                                assert(contribution_ids(entries@) =~= contribution_ids(
                                    prev_entries,
                                ).push(j));
                                assert(contribution_ids(entries@) =~= recorded_stage_ids(
                                    reports@,
                                ));
                            }
                        },
                        Err(error) => {
                            reports.push(
                                StageReport { stage: j, status: StageStatus::BindFailed { error } },
                            );
                            proof {
                                assert(reports@.drop_last() =~= prev_reports);
                                assert(contribution_ids(entries@) =~= recorded_stage_ids(
                                    reports@,
                                ));
                            }
                        },
                    }
                },
            }
            j += 1;
        }
        self.phase = FramePhase::Recorded { index: target_index };
        let recording = FrameRecording {
            target_index,
            generation: Ghost(self.internals.surface.targets.generation@),
            entries,
        };
        (recording, reports)
    }

    /// Submits the frame's recording: joins the held token with the acquire
    /// signal, submits, chains the present, and arms a new token on
    /// success. A stale report abandons the frame, flags recreation and
    /// resets the token to the sentinel; any other failure is fatal and
    /// propagated. The recording must belong to the current target set:
    /// an index acquired before a recreation is worthless after it.
    pub fn submit_frame(&mut self, recording: FrameRecording, report: SubmitReport) -> (outcome:
        SubmitOutcome)
        requires
            old(self).wf(),
            (old(self).phase matches FramePhase::Recorded { index } && recording.target_index
                == index),
            recording.generation@ == old(self).internals.surface.targets.generation@,
        ensures
            final(self).wf(),
            final(self).phase is Idle,
            final(self).stages@ == old(self).stages@,
            final(self).runner == old(self).runner,
            final(self).key_queue == old(self).key_queue,
            final(self).dispatch_enabled == old(self).dispatch_enabled,
            final(self).internals.device_index == old(self).internals.device_index,
            final(self).internals.queue_family == old(self).internals.queue_family,
            final(self).internals.tracker.model() == submit_step(
                old(self).internals.tracker.model(),
                report,
            ),
            final(self).internals.surface.targets == old(self).internals.surface.targets,
            final(self).internals.surface.observed_extent == old(
                self,
            ).internals.surface.observed_extent,
            report is Success ==> {
                &&& outcome is Submitted
                &&& final(self).internals.tracker.token.is_pending()
                &&& final(self).internals.tracker.submitted@ == old(
                    self,
                ).internals.tracker.submitted@ + 1
                &&& final(self).internals.surface == old(self).internals.surface
            },
            report is OutOfDate ==> {
                &&& outcome is AbandonedStale
                &&& final(self).internals.tracker.token is CompleteSentinel
                &&& final(self).internals.surface.pending_recreate
                &&& final(self).internals.tracker.submitted@ == old(
                    self,
                ).internals.tracker.submitted@
                &&& final(self).internals.surface.model() == surface_op_step(
                    old(self).internals.surface.model(),
                    SurfaceSignalOp::Stale,
                )
            },
            report matches SubmitReport::DeviceError { code } ==> {
                &&& outcome == (SubmitOutcome::Fatal { code })
                &&& final(self).internals.tracker.token is CompleteSentinel
                &&& final(self).internals.surface == old(self).internals.surface
            },
    {
        let _ = recording;
        let outcome = self.internals.tracker.submit(report);
        match outcome {
            SubmitOutcome::AbandonedStale => {
                self.internals.surface.flag_stale();
            },
            SubmitOutcome::Submitted => {},
            SubmitOutcome::Fatal { .. } => {},
        }
        self.phase = FramePhase::Idle;
        outcome
    }

    /// The post-frame dispatch step: hands the queued key events to the
    /// caller when the system-runner hook is installed, and lets them
    /// expire otherwise. The queue is empty either way afterwards.
    pub fn post_update(&mut self) -> (r: Option<Vec<KeyPressed>>)
        requires
            old(self).wf(),
        ensures
            final(self).wf(),
            final(self).key_queue@.len() == 0,
            final(self).stages@ == old(self).stages@,
            final(self).runner == old(self).runner,
            final(self).phase == old(self).phase,
            final(self).dispatch_enabled == old(self).dispatch_enabled,
            final(self).internals == old(self).internals,
            old(self).dispatch_enabled ==> (r matches Some(keys) && keys@ == old(
                self,
            ).key_queue@),
            !old(self).dispatch_enabled ==> r is None,
    {
        let mut queue: Vec<KeyPressed> = Vec::new();
        core::mem::swap(&mut queue, &mut self.key_queue);
        if self.dispatch_enabled {
            Some(queue)
        } else {
            None
        }
    }
}

} // verus!
