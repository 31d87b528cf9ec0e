//! Presentation-surface lifecycle: the render-target set, staleness and
//! resize signals, deferred recreation, and the scored selection of a
//! presentation format.
use vstd::prelude::*;

verus! {

/// A window extent in physical pixels.
#[derive(Clone, Copy, PartialEq, Eq, Structural, Debug)]
pub struct Extent {
    pub width: u32,
    pub height: u32,
}

impl Extent {
    /// A degenerate extent (a minimized window) on which no target set can
    /// be built.
    pub open spec fn zero_area(self) -> bool {
        self.width == 0 || self.height == 0
    }

    /// Runtime test for `zero_area`.
    pub fn is_zero_area(&self) -> (r: bool)
        ensures
            r == self.zero_area(),
    {
        self.width == 0 || self.height == 0
    }
}

/// One presentation format the surface offers: the bit width of each of its
/// four channels.
#[derive(Clone, Copy, PartialEq, Eq, Structural, Debug)]
pub struct FormatCandidate {
    pub r_bits: u8,
    pub g_bits: u8,
    pub b_bits: u8,
    pub a_bits: u8,
}

/// Total bit width of the first three (color) channels.
pub open spec fn color_bits(f: FormatCandidate) -> int {
    f.r_bits + f.g_bits + f.b_bits
}

/// Preference score of a format: 8 bits per color channel is preferred,
/// wider channels come next, narrower ones last.
pub open spec fn format_score(f: FormatCandidate) -> int {
    if color_bits(f) == 24 {
        2
    } else if color_bits(f) > 24 {
        1
    } else {
        0
    }
}

/// Picks the presentation format: a candidate with the highest preference
/// score; among equally scored candidates the last one offered wins.
///
/// Returns `None` exactly when the surface offers no format at all.
pub fn select_format(candidates: &Vec<FormatCandidate>) -> (r: Option<usize>)
    ensures
        r is None <==> candidates@.len() == 0,
        r matches Some(i) ==> {
            &&& i < candidates@.len()
            &&& forall|j: int|
                0 <= j < candidates@.len() ==> format_score(candidates@[j]) <= format_score(
                    candidates@[i as int],
                )
            &&& forall|j: int|
                i < j < candidates@.len() ==> format_score(candidates@[j]) < format_score(
                    candidates@[i as int],
                )
        },
{
    if candidates.len() == 0 {
        return None;
    }
    let mut best: usize = 0;
    let mut best_score: u32 = score_of(&candidates[0]);
    let mut j: usize = 1;
    while j < candidates.len()
        invariant
            1 <= j <= candidates@.len(),
            best < j,
            best_score == format_score(candidates@[best as int]),
            forall|k: int|
                0 <= k < j ==> format_score(candidates@[k]) <= format_score(
                    candidates@[best as int],
                ),
            forall|k: int|
                best < k < j ==> format_score(candidates@[k]) < format_score(
                    candidates@[best as int],
                ),
        decreases candidates@.len() - j,
    {
        let s = score_of(&candidates[j]);
        if s >= best_score {
            best = j;
            best_score = s;
        }
        j += 1;
    }
    Some(best)
}

/// Runtime preference score of a format.
fn score_of(f: &FormatCandidate) -> (s: u32)
    ensures
        s == format_score(*f),
{
    let bits: u32 = f.r_bits as u32 + f.g_bits as u32 + f.b_bits as u32;
    if bits == 24 {
        2
    } else if bits > 24 {
        1
    } else {
        0
    }
}

/// How the composited image is blended with what lies behind the window.
#[derive(Clone, Copy, PartialEq, Eq, Structural, Debug)]
pub enum CompositeAlphaMode {
    Opaque,
    PreMultiplied,
    PostMultiplied,
    Inherit,
}

/// What the device reports the surface supports.
pub struct SurfaceCapabilities {
    pub min_image_count: u32,
    pub formats: Vec<FormatCandidate>,
    pub composite_modes: Vec<CompositeAlphaMode>,
}

/// No compatible presentation configuration exists.
#[derive(Clone, Copy, PartialEq, Eq, Structural, Debug)]
pub enum InitializationError {
    NoCompatibleDevice,
    NoCompatibleFormat,
    NoCompositeMode,
}

/// Recreation was asked for on an extent no target set can be built on.
#[derive(Clone, Copy, PartialEq, Eq, Structural, Debug)]
pub enum RecreationError {
    DegenerateExtent,
}

/// The rotating set of presentable images the surface presents from.
///
/// The set is recreated wholesale on resize or staleness, never patched; the
/// generation counts the rebuilds, so an acquired index is tied to the set
/// it was acquired from.
pub struct RenderTargetSet {
    pub extent: Extent,
    pub image_count: u32,
    pub generation: Ghost<nat>,
}

/// What the presentation engine reports when the next image is asked for.
#[derive(Clone, Copy, PartialEq, Eq, Structural, Debug)]
pub enum AcquireReport {
    /// The target set no longer matches the surface.
    OutOfDate,
    /// An image is ready; `suboptimal` asks for recreation before the next
    /// frame while the image itself is still usable.
    Ready { index: u32, suboptimal: bool },
}

/// The decision taken on an acquire report.
#[derive(Clone, Copy, PartialEq, Eq, Structural, Debug)]
pub enum AcquireOutcome {
    /// Use this target for the current frame.
    Target { index: u32 },
    /// Use this target now, but recreate before the next frame.
    SuboptimalTarget { index: u32 },
    /// Nothing can be submitted this frame; the set must be recreated first.
    Stale,
}

/// Ghost-level image of the surface lifecycle state.
pub struct SurfaceModel {
    pub extent: Extent,
    pub pending: bool,
    pub observed: Extent,
    pub generation: nat,
    pub recreations: nat,
    pub signals: nat,
}

/// The signals and steps the surface lifecycle is driven by.
pub enum SurfaceSignalOp {
    /// A resize notification with the new extent.
    Resize { extent: Extent },
    /// A staleness or suboptimality signal from acquire, submit or present.
    Stale,
    /// One frame step: recreation is carried out here, and only here, when
    /// a signal is pending and the observed extent has area.
    FrameStep,
}

/// How one signal or step transforms the surface lifecycle state.
pub open spec fn surface_op_step(m: SurfaceModel, op: SurfaceSignalOp) -> SurfaceModel {
    match op {
        SurfaceSignalOp::Resize { extent } => SurfaceModel {
            pending: true,
            observed: extent,
            signals: m.signals + 1,
            ..m
        },
        SurfaceSignalOp::Stale => SurfaceModel { pending: true, signals: m.signals + 1, ..m },
        SurfaceSignalOp::FrameStep => if m.observed.zero_area() {
            m
        } else if m.pending {
            SurfaceModel {
                extent: m.observed,
                pending: false,
                generation: m.generation + 1,
                recreations: m.recreations + 1,
                ..m
            }
        } else {
            m
        },
    }
}

/// The surface lifecycle state after a whole interleaving of signals and
/// frame steps, first to last.
pub open spec fn surface_run(m: SurfaceModel, ops: Seq<SurfaceSignalOp>) -> SurfaceModel
    decreases ops.len(),
{
    if ops.len() == 0 {
        m
    } else {
        surface_op_step(surface_run(m, ops.drop_last()), ops.last())
    }
}

/// Recreations, completed or pending, never outnumber the stale/resize
/// signals that arrived.
pub open spec fn recreation_discipline(m: SurfaceModel) -> bool {
    m.recreations + (if m.pending {
        1int
    } else {
        0int
    }) <= m.signals
}

/// One signal or frame step keeps the recreation discipline.
pub proof fn lemma_step_preserves_discipline(m: SurfaceModel, op: SurfaceSignalOp)
    requires
        recreation_discipline(m),
    ensures
        recreation_discipline(surface_op_step(m, op)),
{
}

/// For any interleaving of resize events, staleness signals and frame
/// steps, no more than one recreation occurs per distinct signal.
pub proof fn lemma_any_interleaving_bounds_recreations(m: SurfaceModel, ops: Seq<SurfaceSignalOp>)
    requires
        recreation_discipline(m),
    ensures
        recreation_discipline(surface_run(m, ops)),
        surface_run(m, ops).recreations <= surface_run(m, ops).signals,
    decreases ops.len(),
{
    if ops.len() > 0 {
        lemma_any_interleaving_bounds_recreations(m, ops.drop_last());
        lemma_step_preserves_discipline(surface_run(m, ops.drop_last()), ops.last());
    }
}

/// A frame step that carries out a pending recreation leaves the target
/// set's extent equal to the most recently observed resize extent.
pub proof fn lemma_recreation_restores_observed_extent(m: SurfaceModel)
    requires
        m.pending,
        !m.observed.zero_area(),
    ensures
        surface_op_step(m, SurfaceSignalOp::FrameStep).extent == m.observed,
        surface_op_step(m, SurfaceSignalOp::FrameStep).generation == m.generation + 1,
        !surface_op_step(m, SurfaceSignalOp::FrameStep).pending,
{
}

/// Owns the render-target set, observes resize and staleness signals, and
/// rebuilds the set when asked to.
///
/// Policy: a signal only raises `pending_recreate`; the rebuild itself is
/// deferred to the next frame step, so a frame in flight never observes a
/// half-rebuilt set.
pub struct SurfaceLifecycleManager {
    pub targets: RenderTargetSet,
    pub format_index: usize,
    pub composite_mode: CompositeAlphaMode,
    pub pending_recreate: bool,
    /// The extent of the most recently observed resize (initially the
    /// extent the surface was created with).
    pub observed_extent: Extent,
    /// How many recreations have completed.
    pub recreations: Ghost<nat>,
    /// How many stale or resize signals have arrived.
    pub signals: Ghost<nat>,
}

impl SurfaceLifecycleManager {
    /// Ghost-level image of this manager.
    pub open spec fn model(self) -> SurfaceModel {
        SurfaceModel {
            extent: self.targets.extent,
            pending: self.pending_recreate,
            observed: self.observed_extent,
            generation: self.targets.generation@,
            recreations: self.recreations@,
            signals: self.signals@,
        }
    }

    /// Selects a compatible presentation format and composite mode and
    /// builds the initial target set on `initial_extent`.
    ///
    /// Fails exactly when the surface offers no format or no composite mode.
    pub fn initialize(caps: &SurfaceCapabilities, initial_extent: Extent) -> (r: Result<
        SurfaceLifecycleManager,
        InitializationError,
    >)
        ensures
            r is Ok <==> caps.formats@.len() > 0 && caps.composite_modes@.len() > 0,
            caps.formats@.len() == 0 ==> (r matches Err(e) && e
                == InitializationError::NoCompatibleFormat),
            caps.formats@.len() > 0 && caps.composite_modes@.len() == 0 ==> (r matches Err(e) && e
                == InitializationError::NoCompositeMode),
            r matches Ok(m) ==> {
                &&& m.targets.extent == initial_extent
                &&& m.targets.image_count == caps.min_image_count
                &&& m.targets.generation@ == 0
                &&& m.format_index < caps.formats@.len()
                &&& forall|j: int|
                    0 <= j < caps.formats@.len() ==> #[trigger] format_score(caps.formats@[j])
                        <= format_score(caps.formats@[m.format_index as int])
                &&& forall|j: int|
                    m.format_index < j < caps.formats@.len() ==> #[trigger] format_score(
                        caps.formats@[j],
                    ) < format_score(caps.formats@[m.format_index as int])
                &&& m.composite_mode == caps.composite_modes@[0]
                &&& !m.pending_recreate
                &&& m.observed_extent == initial_extent
                &&& m.recreations@ == 0
                &&& m.signals@ == 0
            },
    {
        let format_index = match select_format(&caps.formats) {
            Some(i) => i,
            None => {
                return Err(InitializationError::NoCompatibleFormat);
            },
        };
        if caps.composite_modes.len() == 0 {
            return Err(InitializationError::NoCompositeMode);
        }
        let composite_mode = caps.composite_modes[0];
        Ok(
            SurfaceLifecycleManager {
                targets: RenderTargetSet {
                    extent: initial_extent,
                    image_count: caps.min_image_count,
                    generation: Ghost(0),
                },
                format_index,
                composite_mode,
                pending_recreate: false,
                observed_extent: initial_extent,
                recreations: Ghost(0),
                signals: Ghost(0),
            },
        )
    }

    /// A resize notification: records the new extent and flags recreation;
    /// the target set itself is left untouched until the next frame step.
    pub fn note_resize(&mut self, extent: Extent)
        ensures
            final(self).pending_recreate,
            final(self).observed_extent == extent,
            final(self).signals@ == old(self).signals@ + 1,
            final(self).targets == old(self).targets,
            final(self).format_index == old(self).format_index,
            final(self).composite_mode == old(self).composite_mode,
            final(self).recreations@ == old(self).recreations@,
            final(self).model() == surface_op_step(
                old(self).model(),
                SurfaceSignalOp::Resize { extent },
            ),
    {
        self.pending_recreate = true;
        self.observed_extent = extent;
        self.signals = Ghost(self.signals@ + 1);
    }

    /// A staleness signal from outside the acquire step (a failed present):
    /// flags recreation without touching the target set.
    pub fn flag_stale(&mut self)
        ensures
            final(self).pending_recreate,
            final(self).signals@ == old(self).signals@ + 1,
            final(self).targets == old(self).targets,
            final(self).format_index == old(self).format_index,
            final(self).composite_mode == old(self).composite_mode,
            final(self).observed_extent == old(self).observed_extent,
            final(self).recreations@ == old(self).recreations@,
            final(self).model() == surface_op_step(old(self).model(), SurfaceSignalOp::Stale),
    {
        self.pending_recreate = true;
        self.signals = Ghost(self.signals@ + 1);
    }

    /// Decides on the presentation engine's acquire report.
    ///
    /// An out-of-date report means nothing can be submitted this frame and
    /// recreation is flagged; a suboptimal image is used now and recreation
    /// is flagged for the next frame; otherwise the index is handed out
    /// unchanged. The index an acquire report carries always lies within
    /// the current target set.
    pub fn acquire_next_target(&mut self, report: AcquireReport) -> (outcome: AcquireOutcome)
        requires
            report matches AcquireReport::Ready { index, .. } ==> index < old(
                self,
            ).targets.image_count,
        ensures
            final(self).targets == old(self).targets,
            final(self).format_index == old(self).format_index,
            final(self).composite_mode == old(self).composite_mode,
            final(self).observed_extent == old(self).observed_extent,
            final(self).recreations@ == old(self).recreations@,
            report is OutOfDate ==> {
                &&& outcome is Stale
                &&& final(self).pending_recreate
                &&& final(self).signals@ == old(self).signals@ + 1
            },
            report matches AcquireReport::Ready { index, suboptimal: true } ==> {
                &&& outcome == AcquireOutcome::SuboptimalTarget { index }
                &&& final(self).pending_recreate
                &&& final(self).signals@ == old(self).signals@ + 1
            },
            report matches AcquireReport::Ready { index, suboptimal: false } ==> {
                &&& outcome == AcquireOutcome::Target { index }
                &&& *final(self) == *old(self)
            },
            outcome matches AcquireOutcome::Target { index } ==> index < old(
                self,
            ).targets.image_count,
            outcome matches AcquireOutcome::SuboptimalTarget { index } ==> index < old(
                self,
            ).targets.image_count,
            outcome is Target ==> final(self).model() == old(self).model(),
            !(outcome is Target) ==> final(self).model() == surface_op_step(
                old(self).model(),
                SurfaceSignalOp::Stale,
            ),
    {
        match report {
            AcquireReport::OutOfDate => {
                self.pending_recreate = true;
                self.signals = Ghost(self.signals@ + 1);
                AcquireOutcome::Stale
            },
            AcquireReport::Ready { index, suboptimal } => {
                if suboptimal {
                    self.pending_recreate = true;
                    self.signals = Ghost(self.signals@ + 1);
                    AcquireOutcome::SuboptimalTarget { index }
                } else {
                    AcquireOutcome::Target { index }
                }
            },
        }
    }

    /// Rebuilds the target set wholesale on `new_extent`.
    ///
    /// Fails exactly on a degenerate (zero-area) extent, leaving everything
    /// untouched: the caller retries on a later, valid extent. On success
    /// the old set is discarded and the new set carries the new extent and
    /// a fresh generation, and the pending flag is cleared.
    pub fn recreate(&mut self, new_extent: Extent) -> (r: Result<(), RecreationError>)
        ensures
            r is Ok <==> !new_extent.zero_area(),
            r is Err ==> (r matches Err(e) && e == RecreationError::DegenerateExtent && *final(self)
                == *old(self)),
            r is Ok ==> {
                &&& final(self).targets.extent == new_extent
                &&& final(self).targets.image_count == old(self).targets.image_count
                &&& final(self).targets.generation@ == old(self).targets.generation@ + 1
                &&& !final(self).pending_recreate
                &&& final(self).recreations@ == old(self).recreations@ + 1
                &&& final(self).signals@ == old(self).signals@
                &&& final(self).observed_extent == old(self).observed_extent
                &&& final(self).format_index == old(self).format_index
                &&& final(self).composite_mode == old(self).composite_mode
            },
    {
        if new_extent.is_zero_area() {
            return Err(RecreationError::DegenerateExtent);
        }
        self.targets = RenderTargetSet {
            extent: new_extent,
            image_count: self.targets.image_count,
            generation: Ghost(self.targets.generation@ + 1),
        };
        self.pending_recreate = false;
        self.recreations = Ghost(self.recreations@ + 1);
        Ok(())
    }
}

} // verus!
