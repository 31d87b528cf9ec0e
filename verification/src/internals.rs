//! Boot-time selection of a device and presentation configuration, and the
//! engine internals the frame loop runs on.
use vstd::prelude::*;

use crate::orchestrator::{FrameOrchestrator, FramePhase, PipelineRunner};
use crate::surface::{Extent, InitializationError, SurfaceCapabilities, SurfaceLifecycleManager};
use crate::tracker::SynchronizationTracker;

verus! {

/// The kind of a physical device, as the driver reports it.
#[derive(Clone, Copy, PartialEq, Eq, Structural, Debug)]
pub enum PhysicalDeviceType {
    DiscreteGpu,
    IntegratedGpu,
    VirtualGpu,
    Cpu,
    Other,
}

/// Preference rank of a device kind: lower is better.
pub open spec fn device_type_rank(t: PhysicalDeviceType) -> int {
    match t {
        PhysicalDeviceType::DiscreteGpu => 0,
        PhysicalDeviceType::IntegratedGpu => 1,
        PhysicalDeviceType::VirtualGpu => 2,
        PhysicalDeviceType::Cpu => 3,
        PhysicalDeviceType::Other => 4,
    }
}

/// Runtime preference rank of a device kind.
fn rank_of(t: PhysicalDeviceType) -> (r: u32)
    ensures
        r == device_type_rank(t),
{
    match t {
        PhysicalDeviceType::DiscreteGpu => 0,
        PhysicalDeviceType::IntegratedGpu => 1,
        PhysicalDeviceType::VirtualGpu => 2,
        PhysicalDeviceType::Cpu => 3,
        PhysicalDeviceType::Other => 4,
    }
}

/// One queue family a device offers.
#[derive(Clone, Copy, PartialEq, Eq, Structural, Debug)]
pub struct QueueFamilyInfo {
    pub graphics: bool,
    pub surface_support: bool,
}

/// A queue family this engine can run on.
pub open spec fn family_eligible(q: QueueFamilyInfo) -> bool {
    q.graphics && q.surface_support
}

/// One physical device as the instance enumerates it.
pub struct DeviceCandidate {
    pub supports_swapchain: bool,
    pub device_type: PhysicalDeviceType,
    pub queue_families: Vec<QueueFamilyInfo>,
}

impl DeviceCandidate {
    /// A device this engine can run on: it offers presentation and some
    /// queue family that does graphics on the surface.
    pub open spec fn eligible(self) -> bool {
        self.supports_swapchain && exists|i: int|
            0 <= i < self.queue_families@.len() && family_eligible(#[trigger] self.queue_families@[i])
    }
}

/// The first queue family of a device that does graphics on the surface,
/// if any.
fn first_eligible_family(device: &DeviceCandidate) -> (r: Option<usize>)
    ensures
        r is Some <==> exists|i: int|
            0 <= i < device.queue_families@.len() && family_eligible(
                #[trigger] device.queue_families@[i],
            ),
        r matches Some(q) ==> {
            &&& q < device.queue_families@.len()
            &&& family_eligible(device.queue_families@[q as int])
            &&& forall|k: int| 0 <= k < q ==> !family_eligible(#[trigger] device.queue_families@[k])
        },
{
    let mut q: usize = 0;
    while q < device.queue_families.len()
        invariant
            q <= device.queue_families@.len(),
            forall|k: int| 0 <= k < q ==> !family_eligible(#[trigger] device.queue_families@[k]),
        decreases device.queue_families@.len() - q,
    {
        let fam = device.queue_families[q];
        if fam.graphics && fam.surface_support {
            return Some(q);
        }
        q += 1;
    }
    None
}

/// Picks the physical device and queue family to run on: among devices that
/// offer presentation and a graphics-capable queue family supporting the
/// surface, the one whose kind ranks best; ties go to the first such device
/// enumerated. The family is the first eligible one of that device.
///
/// Returns `None` exactly when no device is eligible.
pub fn select_physical_device(devices: &Vec<DeviceCandidate>) -> (r: Option<(usize, usize)>)
    ensures
        r is None <==> forall|j: int| 0 <= j < devices@.len() ==> !(#[trigger] devices@[j]).eligible(),
        r matches Some((d, q)) ==> {
            &&& d < devices@.len()
            &&& devices@[d as int].eligible()
            &&& q < devices@[d as int].queue_families@.len()
            &&& family_eligible(devices@[d as int].queue_families@[q as int])
            &&& forall|k: int|
                0 <= k < q ==> !family_eligible(
                    #[trigger] devices@[d as int].queue_families@[k],
                )
            &&& forall|j: int|
                0 <= j < devices@.len() && (#[trigger] devices@[j]).eligible()
                    ==> device_type_rank(devices@[d as int].device_type) <= device_type_rank(
                    devices@[j].device_type,
                )
            &&& forall|j: int|
                0 <= j < d && (#[trigger] devices@[j]).eligible() ==> device_type_rank(
                    devices@[d as int].device_type,
                ) < device_type_rank(devices@[j].device_type)
        },
{
    let mut best: Option<(usize, usize)> = None;
    let ghost mut best_rank: int = 0;
    let mut j: usize = 0;
    while j < devices.len()
        invariant
            j <= devices@.len(),
            best is None ==> forall|k: int|
                0 <= k < j ==> !(#[trigger] devices@[k]).eligible(),
            best matches Some((d, q)) ==> {
                &&& d < j
                &&& devices@[d as int].eligible()
                &&& q < devices@[d as int].queue_families@.len()
                &&& family_eligible(devices@[d as int].queue_families@[q as int])
                &&& forall|k: int|
                    0 <= k < q ==> !family_eligible(
                        #[trigger] devices@[d as int].queue_families@[k],
                    )
                &&& best_rank == device_type_rank(devices@[d as int].device_type)
                &&& forall|k: int|
                    0 <= k < j && (#[trigger] devices@[k]).eligible() ==> best_rank
                        <= device_type_rank(devices@[k].device_type)
                &&& forall|k: int|
                    0 <= k < d && (#[trigger] devices@[k]).eligible() ==> best_rank
                        < device_type_rank(devices@[k].device_type)
            },
        decreases devices@.len() - j,
    {
        let device = &devices[j];
        if device.supports_swapchain {
            match first_eligible_family(device) {
                Some(q) => {
                    let rank = rank_of(device.device_type);
                    let better = match best {
                        None => true,
                        Some((bd, _)) => rank_of(devices[bd].device_type) > rank,
                    };
                    if better {
                        best = Some((j, q));
                        proof {
                            best_rank = device_type_rank(devices@[j as int].device_type);
                        }
                    }
                },
                None => {},
            }
        }
        j += 1;
    }
    best
}

/// The engine's core state: the surface manager that owns the render-target
/// set, the synchronization tracker that owns the frame-end token, and
/// which device and queue family they were built on.
pub struct RuminativeInternals {
    pub device_index: usize,
    pub queue_family: usize,
    pub surface: SurfaceLifecycleManager,
    pub tracker: SynchronizationTracker,
}

/// Boots the engine: device and presentation-configuration selection, then
/// the initial internals and an orchestrator with no stages registered.
pub struct RuminativeEnginePlugin;

impl RuminativeEnginePlugin {
    /// Selects the device, queue family, presentation format and composite
    /// mode, builds the initial render-target set on `initial_extent`, arms
    /// the sentinel token, and returns the ready orchestrator.
    ///
    /// Fails exactly when no device is eligible or the surface offers no
    /// format or no composite mode.
    pub fn build<S>(
        &self,
        devices: &Vec<DeviceCandidate>,
        caps: &SurfaceCapabilities,
        initial_extent: Extent,
    ) -> (r: Result<FrameOrchestrator<S>, InitializationError>)
        ensures
            r is Ok <==> (exists|j: int|
                0 <= j < devices@.len() && (#[trigger] devices@[j]).eligible())
                && caps.formats@.len() > 0 && caps.composite_modes@.len() > 0,
            (forall|j: int| 0 <= j < devices@.len() ==> !(#[trigger] devices@[j]).eligible()) ==> (
            r matches Err(e) && e == InitializationError::NoCompatibleDevice),
            r matches Ok(o) ==> {
                &&& o.wf()
                &&& o.stages@.len() == 0
                &&& o.runner.order@.len() == 0
                &&& o.phase is Idle
                &&& o.key_queue@.len() == 0
                &&& !o.dispatch_enabled
                &&& devices@[o.internals.device_index as int].eligible()
                &&& forall|j: int|
                    0 <= j < devices@.len() && (#[trigger] devices@[j]).eligible()
                        ==> device_type_rank(
                        devices@[o.internals.device_index as int].device_type,
                    ) <= device_type_rank(devices@[j].device_type)
                &&& o.internals.surface.targets.extent == initial_extent
                &&& o.internals.surface.targets.image_count == caps.min_image_count
                &&& !o.internals.surface.pending_recreate
                &&& o.internals.surface.observed_extent == initial_extent
                &&& o.internals.tracker.token is CompleteSentinel
                &&& o.internals.tracker.submitted@ == 0
            },
    {
        let (device_index, queue_family) = match select_physical_device(devices) {
            Some(pair) => pair,
            None => {
                return Err(InitializationError::NoCompatibleDevice);
            },
        };
        let surface = match SurfaceLifecycleManager::initialize(caps, initial_extent) {
            Ok(m) => m,
            Err(e) => {
                return Err(e);
            },
        };
        let tracker = SynchronizationTracker::new();
        Ok(
            FrameOrchestrator {
                internals: RuminativeInternals { device_index, queue_family, surface, tracker },
                runner: PipelineRunner { order: Vec::new() },
                stages: Vec::new(),
                phase: FramePhase::Idle,
                key_queue: Vec::new(),
                dispatch_enabled: false,
            },
        )
    }
}

} // verus!
