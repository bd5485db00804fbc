//! The decisions of the render loop: the surface lifecycle and the order of
//! the work in each frame.
//!
//! The loop alternates GPU and window work with decisions. The decisions are
//! the state machine here: the loop hands `Engine::step` what the last piece of
//! work reported, and performs the action that comes back.

use vstd::prelude::*;

verus! {

/// Whether the swapchain matches the surface.
#[derive(Clone, Copy, Debug, PartialEq, Eq, Structural)]
pub enum SurfaceState {
    /// Swapchain and framebuffers match the surface; frames may be drawn.
    Valid,
    /// The swapchain must be rebuilt before the next frame is drawn.
    PendingReconstruction,
    /// Exit was requested (or a fatal error met): the loop has returned.
    ShuttingDown,
}

/// The completion token of the most recently submitted frame.
#[derive(Clone, Copy, Debug, PartialEq, Eq, Structural)]
pub enum FrameToken {
    /// No submitted work to wait for.
    Idle,
    /// GPU work of the frame with this id may still be running.
    Pending(u64),
}

/// Where the loop stands within one iteration: which report it waits for.
#[derive(Clone, Copy, Debug, PartialEq, Eq, Structural)]
pub enum Phase {
    /// The start of an iteration: waits for `FrameStarted`.
    FrameTop,
    /// Waits for the surface's current size.
    AwaitSurfaceSize,
    /// Waits for the outcome of a swapchain rebuild.
    AwaitRebuild,
    /// Waits for the outcome of an image acquisition.
    AwaitAcquire,
    /// Waits for the outcome of submitting and presenting `image`.
    AwaitSubmit { image: u32 },
    /// The loop has returned.
    Stopped,
}

/// What the render loop reports back after performing an action.
#[derive(Clone, Copy, Debug, PartialEq, Eq, Structural)]
pub enum EngineEvent {
    /// The previous frame's token was polled; the exit flag was read and the
    /// dirty flag read and cleared at once.
    FrameStarted { exit_requested: bool, surface_dirty: bool },
    /// The surface's current size in pixels.
    SurfaceMeasured { width: u32, height: u32 },
    /// A new swapchain with `image_count` images and one framebuffer per
    /// image replaced the old ones.
    Rebuilt { image_count: u32 },
    /// The graphics driver refused the size (the surface changed meanwhile):
    /// nothing was rebuilt.
    RebuildDeferred,
    /// The rebuild failed for another reason.
    RebuildFailed,
    /// Swapchain image `image` was acquired.
    ImageAcquired { image: u32 },
    /// Acquisition reported the swapchain out of date.
    AcquireOutOfDate,
    /// Acquisition failed for another reason.
    AcquireFailed,
    /// The frame was submitted and presented; `token` completes with it.
    Submitted { token: u64 },
    /// Submission or presentation reported the swapchain out of date.
    SubmitOutOfDate,
    /// Submission or presentation failed for another reason.
    SubmitFailed,
}

/// What the render loop does next.
#[derive(Clone, Copy, Debug, PartialEq, Eq, Structural)]
pub enum EngineAction {
    /// Poll the previous frame's token (freeing what it no longer holds),
    /// read the flags, and report `FrameStarted`.
    BeginFrame,
    /// Read the surface's current size and report `SurfaceMeasured`.
    MeasureSurface,
    /// Discard the swapchain and its framebuffers and build new ones of
    /// `width` by `height` pixels.
    Rebuild { width: u32, height: u32 },
    /// Copy the latest view, upload it as this frame's parameters, and
    /// acquire the next swapchain image.
    Acquire,
    /// Record the pass into framebuffer `image`, submit it after `after` and
    /// the acquisition, present the image, and flush.
    Submit { image: u32, after: FrameToken },
    /// Return from the loop.
    Stop,
    /// A failure the loop cannot repair: report it and end the process.
    Abort,
}

/// The render loop's state.
#[derive(Clone, Copy, Debug, PartialEq, Eq, Structural)]
pub struct Engine {
    pub surface: SurfaceState,
    pub phase: Phase,
    /// The token that the next submission is ordered after.
    pub previous_frame: FrameToken,
    /// The number of images (and framebuffers) of the current swapchain.
    pub image_count: u32,
}

/// The state after a fatal report or a report that does not fit the phase.
pub open spec fn aborted(s: Engine) -> Engine {
    Engine { surface: SurfaceState::ShuttingDown, phase: Phase::Stopped, ..s }
}

/// One transition: the state after `ev` and the action to perform.
pub open spec fn next(s: Engine, ev: EngineEvent) -> (Engine, EngineAction) {
    match (s.phase, ev) {
        (Phase::Stopped, _) => (s, EngineAction::Stop),
        (Phase::FrameTop, EngineEvent::FrameStarted { exit_requested, surface_dirty }) => {
            if exit_requested {
                (
                    Engine { surface: SurfaceState::ShuttingDown, phase: Phase::Stopped, ..s },
                    EngineAction::Stop,
                )
            } else if surface_dirty || s.surface != SurfaceState::Valid {
                (
                    Engine {
                        surface: SurfaceState::PendingReconstruction,
                        phase: Phase::AwaitSurfaceSize,
                        ..s
                    },
                    EngineAction::MeasureSurface,
                )
            } else {
                (Engine { phase: Phase::AwaitAcquire, ..s }, EngineAction::Acquire)
            }
        },
        (Phase::AwaitSurfaceSize, EngineEvent::SurfaceMeasured { width, height }) => {
            if width == 0 || height == 0 {
                (Engine { phase: Phase::FrameTop, ..s }, EngineAction::BeginFrame)
            } else {
                (
                    Engine { phase: Phase::AwaitRebuild, ..s },
                    EngineAction::Rebuild { width, height },
                )
            }
        },
        (Phase::AwaitRebuild, EngineEvent::Rebuilt { image_count }) => {
            if image_count == 0 {
                (aborted(s), EngineAction::Abort)
            } else {
                (
                    Engine {
                        surface: SurfaceState::Valid,
                        phase: Phase::FrameTop,
                        image_count,
                        ..s
                    },
                    EngineAction::BeginFrame,
                )
            }
        },
        (Phase::AwaitRebuild, EngineEvent::RebuildDeferred) => (
            Engine { phase: Phase::FrameTop, ..s },
            EngineAction::BeginFrame,
        ),
        (Phase::AwaitAcquire, EngineEvent::ImageAcquired { image }) => {
            if image < s.image_count {
                (
                    Engine { phase: Phase::AwaitSubmit { image }, ..s },
                    EngineAction::Submit { image, after: s.previous_frame },
                )
            } else {
                (aborted(s), EngineAction::Abort)
            }
        },
        (Phase::AwaitAcquire, EngineEvent::AcquireOutOfDate) => (
            Engine { surface: SurfaceState::PendingReconstruction, phase: Phase::FrameTop, ..s },
            EngineAction::BeginFrame,
        ),
        (Phase::AwaitSubmit { .. }, EngineEvent::Submitted { token }) => (
            Engine { phase: Phase::FrameTop, previous_frame: FrameToken::Pending(token), ..s },
            EngineAction::BeginFrame,
        ),
        (Phase::AwaitSubmit { .. }, EngineEvent::SubmitOutOfDate) => (
            Engine {
                surface: SurfaceState::PendingReconstruction,
                phase: Phase::FrameTop,
                previous_frame: FrameToken::Idle,
                ..s
            },
            EngineAction::BeginFrame,
        ),
        (Phase::AwaitSubmit { .. }, EngineEvent::SubmitFailed) => (
            Engine { phase: Phase::FrameTop, previous_frame: FrameToken::Idle, ..s },
            EngineAction::BeginFrame,
        ),
        _ => (aborted(s), EngineAction::Abort),
    }
}

impl Engine {
    /// A loop about to start its first frame on a freshly built swapchain of
    /// `image_count` images, with no frame submitted yet.
    pub fn new(image_count: u32) -> (r: Engine)
        ensures
            r == (Engine {
                surface: SurfaceState::Valid,
                phase: Phase::FrameTop,
                previous_frame: FrameToken::Idle,
                image_count,
            }),
    {
        Engine {
            surface: SurfaceState::Valid,
            phase: Phase::FrameTop,
            previous_frame: FrameToken::Idle,
            image_count,
        }
    }

    /// Takes in the report `ev` and returns the next action.
    pub fn step(&mut self, ev: EngineEvent) -> (a: EngineAction)
        ensures
            (*final(self), a) == next(*old(self), ev),
    {
        let s = *self;
        match (s.phase, ev) {
            (Phase::Stopped, _) => EngineAction::Stop,
            (Phase::FrameTop, EngineEvent::FrameStarted { exit_requested, surface_dirty }) => {
                if exit_requested {
                    self.surface = SurfaceState::ShuttingDown;
                    self.phase = Phase::Stopped;
                    EngineAction::Stop
                } else if surface_dirty || s.surface != SurfaceState::Valid {
                    self.surface = SurfaceState::PendingReconstruction;
                    self.phase = Phase::AwaitSurfaceSize;
                    EngineAction::MeasureSurface
                } else {
                    self.phase = Phase::AwaitAcquire;
                    EngineAction::Acquire
                }
            },
            (Phase::AwaitSurfaceSize, EngineEvent::SurfaceMeasured { width, height }) => {
                if width == 0 || height == 0 {
                    self.phase = Phase::FrameTop;
                    EngineAction::BeginFrame
                } else {
                    self.phase = Phase::AwaitRebuild;
                    EngineAction::Rebuild { width, height }
                }
            },
            (Phase::AwaitRebuild, EngineEvent::Rebuilt { image_count }) => {
                if image_count == 0 {
                    self.abort()
                } else {
                    self.surface = SurfaceState::Valid;
                    self.phase = Phase::FrameTop;
                    self.image_count = image_count;
                    EngineAction::BeginFrame
                }
            },
            (Phase::AwaitRebuild, EngineEvent::RebuildDeferred) => {
                self.phase = Phase::FrameTop;
                EngineAction::BeginFrame
            },
            (Phase::AwaitAcquire, EngineEvent::ImageAcquired { image }) => {
                if image < s.image_count {
                    self.phase = Phase::AwaitSubmit { image };
                    EngineAction::Submit { image, after: s.previous_frame }
                } else {
                    self.abort()
                }
            },
            (Phase::AwaitAcquire, EngineEvent::AcquireOutOfDate) => {
                self.surface = SurfaceState::PendingReconstruction;
                self.phase = Phase::FrameTop;
                EngineAction::BeginFrame
            },
            (Phase::AwaitSubmit { .. }, EngineEvent::Submitted { token }) => {
                self.phase = Phase::FrameTop;
                self.previous_frame = FrameToken::Pending(token);
                EngineAction::BeginFrame
            },
            (Phase::AwaitSubmit { .. }, EngineEvent::SubmitOutOfDate) => {
                self.surface = SurfaceState::PendingReconstruction;
                self.phase = Phase::FrameTop;
                self.previous_frame = FrameToken::Idle;
                EngineAction::BeginFrame
            },
            (Phase::AwaitSubmit { .. }, EngineEvent::SubmitFailed) => {
                self.phase = Phase::FrameTop;
                self.previous_frame = FrameToken::Idle;
                EngineAction::BeginFrame
            },
            _ => self.abort(),
        }
    }

    fn abort(&mut self) -> (a: EngineAction)
        ensures
            *final(self) == aborted(*old(self)),
            a == EngineAction::Abort,
    {
        self.surface = SurfaceState::ShuttingDown;
        self.phase = Phase::Stopped;
        EngineAction::Abort
    }
}

/// What holds of every state the loop reaches from `Engine::new`: frames are
/// only worked on over a valid surface, a rebuild is only awaited while one
/// is pending, the loop is stopped exactly when shutting down, and an image
/// being submitted belongs to the current swapchain.
pub open spec fn reachable_shape(s: Engine) -> bool {
    &&& (s.phase is AwaitAcquire || s.phase is AwaitSubmit) ==> s.surface == SurfaceState::Valid
    &&& (s.phase is AwaitSurfaceSize || s.phase is AwaitRebuild) ==> s.surface
        == SurfaceState::PendingReconstruction
    &&& (s.phase is Stopped <==> s.surface == SurfaceState::ShuttingDown)
    &&& s.phase matches Phase::AwaitSubmit { image } ==> image < s.image_count
}

/// A new loop has that shape, and every transition keeps it.
pub proof fn lemma_shape_kept(s: Engine, ev: EngineEvent, image_count: u32)
    ensures
        reachable_shape(
            Engine {
                surface: SurfaceState::Valid,
                phase: Phase::FrameTop,
                previous_frame: FrameToken::Idle,
                image_count,
            },
        ),
        reachable_shape(s) ==> reachable_shape(next(s, ev).0),
{
}

/// A frame is submitted only over a valid surface, into an image of the
/// current swapchain, ordered after the previous frame's token; a rebuild
/// (or anything else but the outcome of a submission) never drops that token,
/// so a frame still in flight is waited on by the next submission.
pub proof fn lemma_submit_and_token(s: Engine, ev: EngineEvent)
    requires
        reachable_shape(s),
    ensures
        next(s, ev).1 matches EngineAction::Submit { image, after } ==> {
            &&& s.surface == SurfaceState::Valid
            &&& image < s.image_count
            &&& after == s.previous_frame
        },
        !(s.phase is AwaitSubmit) ==> next(s, ev).0.previous_frame == s.previous_frame,
{
}

/// A dirty signal seen at the top of a frame (any number of signals before
/// the read count as one, the flag being a boolean) leads to exactly one
/// rebuild: after it succeeds, the next frame with no new signal draws.
pub proof fn lemma_one_rebuild_per_signal(s: Engine, width: u32, height: u32, image_count: u32)
    requires
        s.phase == Phase::FrameTop,
        width > 0,
        height > 0,
        image_count > 0,
    ensures
        ({
            let (s1, a1) = next(
                s,
                EngineEvent::FrameStarted { exit_requested: false, surface_dirty: true },
            );
            let (s2, a2) = next(s1, EngineEvent::SurfaceMeasured { width, height });
            let (s3, a3) = next(s2, EngineEvent::Rebuilt { image_count });
            let (s4, a4) = next(
                s3,
                EngineEvent::FrameStarted { exit_requested: false, surface_dirty: false },
            );
            &&& a1 == EngineAction::MeasureSurface
            &&& a2 == EngineAction::Rebuild { width, height }
            &&& a3 == EngineAction::BeginFrame
            &&& s3.surface == SurfaceState::Valid
            &&& s3.image_count == image_count
            &&& a4 == EngineAction::Acquire
        }),
{
}

/// A surface of zero area defers the rebuild without dropping it: the
/// surface stays pending, and the next frame measures it again even with no
/// new signal.
pub proof fn lemma_zero_area_defers(s: Engine, width: u32, height: u32)
    requires
        s.phase == Phase::AwaitSurfaceSize,
        s.surface == SurfaceState::PendingReconstruction,
        width == 0 || height == 0,
    ensures
        ({
            let (s1, a1) = next(s, EngineEvent::SurfaceMeasured { width, height });
            let (s2, a2) = next(
                s1,
                EngineEvent::FrameStarted { exit_requested: false, surface_dirty: false },
            );
            &&& a1 == EngineAction::BeginFrame
            &&& s1.surface == SurfaceState::PendingReconstruction
            &&& a2 == EngineAction::MeasureSurface
        }),
{
}

/// After a present that reports the swapchain out of date the loop goes on:
/// the surface is pending reconstruction, the next frame rebuilds, and the
/// frame after that submits again (unless a new signal or exit comes).
pub proof fn lemma_stale_present_recovers(
    s: Engine,
    surface_dirty: bool,
    width: u32,
    height: u32,
    image_count: u32,
    image: u32,
)
    requires
        s.phase is AwaitSubmit,
        width > 0,
        height > 0,
        image < image_count,
    ensures
        ({
            let (s1, a1) = next(s, EngineEvent::SubmitOutOfDate);
            let (s2, a2) = next(
                s1,
                EngineEvent::FrameStarted { exit_requested: false, surface_dirty },
            );
            let (s3, a3) = next(s2, EngineEvent::SurfaceMeasured { width, height });
            let (s4, a4) = next(s3, EngineEvent::Rebuilt { image_count });
            let (s5, a5) = next(
                s4,
                EngineEvent::FrameStarted { exit_requested: false, surface_dirty: false },
            );
            let (s6, a6) = next(s5, EngineEvent::ImageAcquired { image });
            &&& a1 == EngineAction::BeginFrame
            &&& s1.surface == SurfaceState::PendingReconstruction
            &&& a2 == EngineAction::MeasureSurface
            &&& a3 == EngineAction::Rebuild { width, height }
            &&& a4 == EngineAction::BeginFrame
            &&& a5 == EngineAction::Acquire
            &&& a6 == EngineAction::Submit { image, after: FrameToken::Idle }
        }),
{
}

/// Exit seen at the top of a frame stops the loop, and a stopped loop answers
/// every report with `Stop`.
pub proof fn lemma_exit_stops(s: Engine, surface_dirty: bool, ev: EngineEvent)
    requires
        s.phase == Phase::FrameTop,
    ensures
        ({
            let (s1, a1) = next(
                s,
                EngineEvent::FrameStarted { exit_requested: true, surface_dirty },
            );
            &&& a1 == EngineAction::Stop
            &&& s1.phase == Phase::Stopped
            &&& s1.surface == SurfaceState::ShuttingDown
            &&& next(s1, ev) == (s1, EngineAction::Stop)
        }),
{
}

} // verus!
