use ruminative::internals::{DeviceCandidate, PhysicalDeviceType, QueueFamilyInfo};
use ruminative::orchestrator::{
    BeginFrameOutcome, EventAction, FrameOrchestrator, Stage, StageError, StageStatus,
    WindowingEvent,
};
use ruminative::state::SimulationState;
use ruminative::surface::{
    AcquireOutcome, AcquireReport, CompositeAlphaMode, Extent, FormatCandidate,
    SurfaceCapabilities,
};
use ruminative::tracker::{SubmitOutcome, SubmitReport};
use ruminative::Ruminative;

/// A stage that contributes its tag as its one command, and can be told to
/// fail either step.
struct TagStage {
    tag: u64,
    fail_update: bool,
    fail_bind: bool,
    events_seen: usize,
}

impl TagStage {
    fn ok(tag: u64) -> TagStage {
        TagStage { tag, fail_update: false, fail_bind: false, events_seen: 0 }
    }
}

impl Stage for TagStage {
    fn handle_event(&mut self, _event: &WindowingEvent) {
        self.events_seen += 1;
    }

    fn update(&mut self, _state: &SimulationState) -> Result<(), StageError> {
        if self.fail_update {
            Err(StageError { code: 100 + self.tag })
        } else {
            Ok(())
        }
    }

    fn bind(&mut self) -> Result<Vec<u64>, StageError> {
        if self.fail_bind {
            Err(StageError { code: 200 + self.tag })
        } else {
            Ok(vec![self.tag])
        }
    }
}

fn boot(extent: Extent) -> FrameOrchestrator<TagStage> {
    let devices = vec![DeviceCandidate {
        supports_swapchain: true,
        device_type: PhysicalDeviceType::DiscreteGpu,
        queue_families: vec![QueueFamilyInfo { graphics: true, surface_support: true }],
    }];
    let caps = SurfaceCapabilities {
        min_image_count: 3,
        formats: vec![FormatCandidate { r_bits: 8, g_bits: 8, b_bits: 8, a_bits: 8 }],
        composite_modes: vec![CompositeAlphaMode::Opaque],
    };
    Ruminative.build(&devices, &caps, extent).expect("boot must succeed")
}

/// Runs one frame to completion with a well-behaved device and returns the
/// recorded stage tags (one command per contribution).
fn run_one_frame(o: &mut FrameOrchestrator<TagStage>, state: &SimulationState) -> Vec<u64> {
    assert_eq!(
        o.handle_event(&WindowingEvent::RedrawEventsCleared),
        EventAction::FrameDue
    );
    assert_eq!(o.begin_frame(), BeginFrameOutcome::ReadyToAcquire);
    let outcome = o.complete_acquire(AcquireReport::Ready { index: 0, suboptimal: false });
    assert_eq!(outcome, AcquireOutcome::Target { index: 0 });
    let (recording, reports) = o.run_frame(0, state);
    assert_eq!(reports.len(), o.stages.len());
    let tags: Vec<u64> = recording
        .entries
        .iter()
        .flat_map(|e| e.commands.iter().copied())
        .collect();
    assert_eq!(o.submit_frame(recording, SubmitReport::Success), SubmitOutcome::Submitted);
    tags
}

#[test]
fn three_stages_three_frames_in_order() {
    let mut o = boot(Extent { width: 800, height: 600 });
    // Background, Sprites, UIOverlay.
    o.register_stage(TagStage::ok(1));
    o.register_stage(TagStage::ok(2));
    o.register_stage(TagStage::ok(3));
    let state = SimulationState::new(0);
    let mut submissions = 0;
    for _ in 0..3 {
        let tags = run_one_frame(&mut o, &state);
        assert_eq!(tags, vec![1, 2, 3]);
        submissions += 1;
        assert!(o.internals.tracker.token.pending());
    }
    assert_eq!(submissions, 3);
}

#[test]
fn contributions_follow_registration_order_with_stage_ids() {
    let mut o = boot(Extent { width: 800, height: 600 });
    o.register_stage(TagStage::ok(7));
    o.register_stage(TagStage::ok(8));
    let state = SimulationState::new(0);
    o.handle_event(&WindowingEvent::RedrawEventsCleared);
    o.begin_frame();
    o.complete_acquire(AcquireReport::Ready { index: 1, suboptimal: false });
    let (recording, reports) = o.run_frame(1, &state);
    let ids: Vec<usize> = recording.entries.iter().map(|e| e.stage).collect();
    assert_eq!(ids, vec![0, 1]);
    assert!(reports.iter().all(|r| r.status == StageStatus::Recorded));
    assert_eq!(recording.target_index, 1);
    assert_eq!(o.submit_frame(recording, SubmitReport::Success), SubmitOutcome::Submitted);
}

#[test]
fn failing_stage_loses_only_its_own_contribution() {
    let mut o = boot(Extent { width: 800, height: 600 });
    o.register_stage(TagStage::ok(1));
    o.register_stage(TagStage {
        tag: 2,
        fail_update: false,
        fail_bind: true,
        events_seen: 0,
    });
    o.register_stage(TagStage::ok(3));
    let state = SimulationState::new(0);
    o.begin_frame();
    o.complete_acquire(AcquireReport::Ready { index: 0, suboptimal: false });
    let (recording, reports) = o.run_frame(0, &state);
    let ids: Vec<usize> = recording.entries.iter().map(|e| e.stage).collect();
    assert_eq!(ids, vec![0, 2]);
    assert_eq!(reports[1].status, StageStatus::BindFailed { error: StageError { code: 202 } });
    assert_eq!(o.submit_frame(recording, SubmitReport::Success), SubmitOutcome::Submitted);
    // The next frame is unaffected.
    let state2 = SimulationState::new(0);
    o.begin_frame();
    o.complete_acquire(AcquireReport::Ready { index: 0, suboptimal: false });
    let (recording2, _) = o.run_frame(0, &state2);
    assert_eq!(recording2.entries.len(), 2);
    assert_eq!(
        o.submit_frame(recording2, SubmitReport::Success),
        SubmitOutcome::Submitted
    );
}

#[test]
fn update_failure_skips_bind_for_that_stage() {
    let mut o = boot(Extent { width: 800, height: 600 });
    o.register_stage(TagStage {
        tag: 5,
        fail_update: true,
        fail_bind: false,
        events_seen: 0,
    });
    o.register_stage(TagStage::ok(6));
    let state = SimulationState::new(0);
    o.begin_frame();
    o.complete_acquire(AcquireReport::Ready { index: 0, suboptimal: false });
    let (recording, reports) = o.run_frame(0, &state);
    assert_eq!(
        reports[0].status,
        StageStatus::UpdateFailed { error: StageError { code: 105 } }
    );
    let ids: Vec<usize> = recording.entries.iter().map(|e| e.stage).collect();
    assert_eq!(ids, vec![1]);
}

#[test]
fn zero_area_resize_skips_frames_until_valid_extent() {
    let mut o = boot(Extent { width: 800, height: 600 });
    o.register_stage(TagStage::ok(1));
    let state = SimulationState::new(0);
    // Minimize: zero-area extent.
    assert_eq!(
        o.handle_event(&WindowingEvent::Resized { extent: Extent { width: 0, height: 600 } }),
        EventAction::Continue
    );
    // Frames are skipped outright, without crashing, for as long as it lasts.
    for _ in 0..3 {
        assert_eq!(o.begin_frame(), BeginFrameOutcome::SkippedZeroArea);
    }
    // A later, valid resize restores validity.
    o.handle_event(&WindowingEvent::Resized { extent: Extent { width: 640, height: 480 } });
    let tags = run_one_frame(&mut o, &state);
    assert_eq!(tags, vec![1]);
    assert_eq!(o.internals.surface.targets.extent, Extent { width: 640, height: 480 });
}

#[test]
fn recreation_uses_most_recent_resize_extent() {
    let mut o = boot(Extent { width: 800, height: 600 });
    o.register_stage(TagStage::ok(1));
    // Two resizes before the next frame: the later one wins.
    o.handle_event(&WindowingEvent::Resized { extent: Extent { width: 1000, height: 700 } });
    o.handle_event(&WindowingEvent::Resized { extent: Extent { width: 1024, height: 768 } });
    assert_eq!(o.internals.surface.targets.extent, Extent { width: 800, height: 600 });
    assert_eq!(o.begin_frame(), BeginFrameOutcome::ReadyToAcquire);
    assert_eq!(o.internals.surface.targets.extent, Extent { width: 1024, height: 768 });
    assert!(!o.internals.surface.pending_recreate);
    // No further resize: the next frame does not recreate again.
    o.complete_acquire(AcquireReport::Ready { index: 0, suboptimal: false });
    let state = SimulationState::new(0);
    let (recording, _) = o.run_frame(0, &state);
    o.submit_frame(recording, SubmitReport::Success);
    o.begin_frame();
    assert_eq!(o.internals.surface.targets.extent, Extent { width: 1024, height: 768 });
}

#[test]
fn stale_acquire_abandons_frame_and_recreates_next_frame() {
    let mut o = boot(Extent { width: 800, height: 600 });
    o.register_stage(TagStage::ok(1));
    o.begin_frame();
    let outcome = o.complete_acquire(AcquireReport::OutOfDate);
    assert_eq!(outcome, AcquireOutcome::Stale);
    assert!(o.internals.surface.pending_recreate);
    // The caller skips the frame; the next frame step recreates first.
    assert_eq!(o.begin_frame(), BeginFrameOutcome::ReadyToAcquire);
    assert!(!o.internals.surface.pending_recreate);
    assert_eq!(o.internals.surface.targets.extent, Extent { width: 800, height: 600 });
}

#[test]
fn suboptimal_target_is_used_now_and_recreated_before_next_frame() {
    let mut o = boot(Extent { width: 800, height: 600 });
    o.register_stage(TagStage::ok(1));
    let state = SimulationState::new(0);
    o.begin_frame();
    let outcome = o.complete_acquire(AcquireReport::Ready { index: 2, suboptimal: true });
    assert_eq!(outcome, AcquireOutcome::SuboptimalTarget { index: 2 });
    assert!(o.internals.surface.pending_recreate);
    let (recording, _) = o.run_frame(2, &state);
    assert_eq!(o.submit_frame(recording, SubmitReport::Success), SubmitOutcome::Submitted);
}

#[test]
fn stale_at_submit_resets_token_and_flags_recreation() {
    let mut o = boot(Extent { width: 800, height: 600 });
    o.register_stage(TagStage::ok(1));
    let state = SimulationState::new(0);
    o.begin_frame();
    o.complete_acquire(AcquireReport::Ready { index: 0, suboptimal: false });
    let (recording, _) = o.run_frame(0, &state);
    assert_eq!(
        o.submit_frame(recording, SubmitReport::OutOfDate),
        SubmitOutcome::AbandonedStale
    );
    assert!(!o.internals.tracker.token.pending());
    assert!(o.internals.surface.pending_recreate);
}

#[test]
fn fatal_submit_failure_is_propagated() {
    let mut o = boot(Extent { width: 800, height: 600 });
    o.register_stage(TagStage::ok(1));
    let state = SimulationState::new(0);
    o.begin_frame();
    o.complete_acquire(AcquireReport::Ready { index: 0, suboptimal: false });
    let (recording, _) = o.run_frame(0, &state);
    assert_eq!(
        o.submit_frame(recording, SubmitReport::DeviceError { code: 42 }),
        SubmitOutcome::Fatal { code: 42 }
    );
}

#[test]
fn close_request_exits_and_events_reach_stages() {
    let mut o = boot(Extent { width: 800, height: 600 });
    o.register_stage(TagStage::ok(1));
    assert_eq!(o.handle_event(&WindowingEvent::Other), EventAction::Continue);
    assert_eq!(
        o.handle_event(&WindowingEvent::CloseRequested),
        EventAction::Exit
    );
    assert_eq!(o.stages[0].events_seen, 2);
}
