//! Frame-execution core of a real-time rendering engine.
//!
//! The crate owns the decision logic that drives one frame end to end: the
//! presentation-surface lifecycle (format selection, staleness, deferred
//! recreation), CPU/GPU submission sequencing through a single completion
//! token, a reentrancy-guarded registry of runtime-registered callbacks, and
//! the orchestration of independently authored rendering stages into one
//! ordered command recording per frame.
//!
//! The GPU device, the windowing system, and the entity store are external
//! collaborators: they deliver plain events and reports (extents, acquire
//! results, submission results) and carry out the actions this library
//! decides on.
#![verifier::loop_isolation(false)]

pub mod internals;
pub mod orchestrator;
pub mod state;
pub mod surface;
pub mod systems;
pub mod tilemap;
pub mod tracker;

use vstd::prelude::*;

use crate::internals::{DeviceCandidate, RuminativeEnginePlugin};
use crate::orchestrator::{FrameOrchestrator, Stage};
use crate::surface::{Extent, InitializationError, SurfaceCapabilities};
use crate::systems::SystemRunnerPlugin;

verus! {

/// The whole engine as one plugin group: boots the frame-execution core and
/// installs the post-frame dispatch hook.
pub struct Ruminative;

impl Ruminative {
    /// Builds a ready orchestrator with the system-runner hook installed
    /// and no stages registered yet.
    ///
    /// Fails exactly when no device is eligible or the surface offers no
    /// format or no composite mode.
    pub fn build<S: Stage>(
        self,
        devices: &Vec<DeviceCandidate>,
        caps: &SurfaceCapabilities,
        initial_extent: Extent,
    ) -> (r: Result<FrameOrchestrator<S>, InitializationError>)
        ensures
            r is Ok <==> (exists|j: int|
                0 <= j < devices@.len() && (#[trigger] devices@[j]).eligible())
                && caps.formats@.len() > 0 && caps.composite_modes@.len() > 0,
            r matches Ok(o) ==> {
                &&& o.wf()
                &&& o.stages@.len() == 0
                &&& o.runner.order@.len() == 0
                &&& o.phase is Idle
                &&& o.key_queue@.len() == 0
                &&& o.dispatch_enabled
                &&& o.internals.surface.targets.extent == initial_extent
                &&& o.internals.surface.targets.image_count == caps.min_image_count
                &&& !o.internals.surface.pending_recreate
                &&& o.internals.surface.observed_extent == initial_extent
                &&& o.internals.tracker.token is CompleteSentinel
                &&& o.internals.tracker.submitted@ == 0
            },
    {
        let mut orchestrator = match RuminativeEnginePlugin.build::<S>(
            devices,
            caps,
            initial_extent,
        ) {
            Ok(o) => o,
            Err(e) => {
                return Err(e);
            },
        };
        SystemRunnerPlugin.build(&mut orchestrator);
        Ok(orchestrator)
    }
}

} // verus!
