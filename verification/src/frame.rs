//! Progress of a frame through its render passes, and the decisions the
//! renderer takes around each frame.

use vstd::prelude::*;

use crate::swapchain::Extent2D;
use crate::window::Size;

verus! {

/// What the renderer is to do at the next step of a frame.
#[derive(Debug, Clone, Copy, PartialEq, Eq, Structural)]
pub enum PassStep {
    /// Draw the scene's objects in the first subpass.
    Deferred,
    /// Move to the next subpass and draw the user interface there.
    Ui,
    /// End the render pass, build the frame's command buffer and execute it
    /// after what had to happen before the frame.
    Finish,
    /// The frame is finished; nothing is left to do.
    Done,
}

/// The step of a frame that has already taken `taken` steps.
pub open spec fn pass_step(taken: u8) -> PassStep {
    if taken == 0 {
        PassStep::Deferred
    } else if taken == 1 {
        PassStep::Ui
    } else if taken == 2 {
        PassStep::Finish
    } else {
        PassStep::Done
    }
}

/// How far a frame has gone through its passes.
#[derive(Debug, Clone, Copy, PartialEq, Eq, Structural)]
pub struct FrameProgress {
    subpass_number: u8,
}

impl FrameProgress {
    /// Number of steps the frame has taken.
    pub closed spec fn taken(&self) -> u8 {
        self.subpass_number
    }

    /// A frame that has not started drawing.
    pub fn new() -> (progress: Self)
        ensures
            progress.taken() == 0,
    {
        FrameProgress { subpass_number: 0 }
    }

    /// Advances the frame to its next step and tells what to do there.
    pub fn next_pass(&mut self) -> (step: PassStep)
        requires
            old(self).taken() < u8::MAX,
        ensures
            step == pass_step(old(self).taken()),
            final(self).taken() == old(self).taken() + 1,
    {
        let current = self.subpass_number;
        self.subpass_number = self.subpass_number + 1;
        if current == 0 {
            PassStep::Deferred
        } else if current == 1 {
            PassStep::Ui
        } else if current == 2 {
            PassStep::Finish
        } else {
            PassStep::Done
        }
    }
}

/// A frame draws the scene first, then the user interface, then finishes,
/// and from then on has nothing left to do.
pub proof fn lemma_pass_order(taken: u8)
    ensures
        pass_step(0) == PassStep::Deferred,
        pass_step(1) == PassStep::Ui,
        pass_step(2) == PassStep::Finish,
        taken >= 3 ==> pass_step(taken) == PassStep::Done,
{
}

/// Whether the depth buffer must be (re)created for a final image of size
/// `dimensions`: when there is none yet, or when its size differs.
pub open spec fn needs_new_depth_buffer_spec(current: Option<Extent2D>, dimensions: Extent2D) -> bool {
    match current {
        None => true,
        Some(d) => d != dimensions,
    }
}

/// Decides whether the depth buffer must be (re)created.
pub fn needs_new_depth_buffer(current: Option<Extent2D>, dimensions: Extent2D) -> (needed: bool)
    ensures
        needed == needs_new_depth_buffer_spec(current, dimensions),
        current is None ==> needed,
        current matches Some(d) ==> (needed <==> (d.width != dimensions.width || d.height
            != dimensions.height)),
{
    match current {
        None => true,
        Some(d) => d.width != dimensions.width || d.height != dimensions.height,
    }
}

/// A depth buffer is made when there is none, and an existing one is
/// remade exactly when its width or its height differs from the final
/// image's: a change of either dimension alone is enough, and an equal
/// extent keeps it.
pub proof fn lemma_depth_buffer_follows_extent(current: Option<Extent2D>, dimensions: Extent2D)
    ensures
        current is None ==> needs_new_depth_buffer_spec(current, dimensions),
        current matches Some(d) ==> (needs_new_depth_buffer_spec(current, dimensions) <==> (d.width
            != dimensions.width || d.height != dimensions.height)),
{
}

/// Size of the viewport of a pass whose framebuffer has the given
/// width, height and number of layers.
pub fn viewport_size(framebuffer_dimensions: [u32; 3]) -> (size: Size)
    ensures
        size.width == framebuffer_dimensions@[0],
        size.height == framebuffer_dimensions@[1],
{
    Size::new(framebuffer_dimensions[0], framebuffer_dimensions[1])
}

/// Error of a drawing system created on a queue that cannot draw.
#[derive(Debug, Clone, Copy, PartialEq, Eq, Structural)]
pub enum QueueFamilyNotSupported {
    /// The queue's family does not support graphics operations.
    NoGraphics,
}

/// Checks that a drawing system's queue supports graphics operations.
pub fn check_graphics_queue(supports_graphics: bool) -> (checked: Result<(), QueueFamilyNotSupported>)
    ensures
        checked is Ok <==> supports_graphics,
{
    if !supports_graphics {
        Err(QueueFamilyNotSupported::NoGraphics)
    } else {
        Ok(())
    }
}

/// Whether the swapchain must be recreated before the next frame.
#[derive(Debug, Clone, Copy, PartialEq, Eq, Structural)]
pub struct SwapchainState {
    recreate_swapchain: bool,
}

/// What acquiring the next swapchain image gave.
#[derive(Debug, Clone, Copy, PartialEq, Eq, Structural)]
pub enum AcquireOutcome {
    /// An image was acquired; it may fit the surface only suboptimally.
    Acquired { image_index: usize, suboptimal: bool },
    /// The swapchain no longer fits the surface.
    OutOfDate,
    /// Acquiring failed for another reason.
    Failed,
}

/// What the renderer does after acquiring an image.
#[derive(Debug, Clone, Copy, PartialEq, Eq, Structural)]
pub enum AcquireDecision {
    /// Draw into the acquired image.
    Draw { image_index: usize },
    /// Draw nothing this time, and report success.
    SkipFrame,
    /// Report the failure to acquire an image.
    Fail,
}

/// What submitting the frame and flushing it gave.
#[derive(Debug, Clone, Copy, PartialEq, Eq, Structural)]
pub enum FlushOutcome {
    Flushed,
    OutOfDate,
    Failed,
}

/// What the renderer does after submitting a frame.
#[derive(Debug, Clone, Copy, PartialEq, Eq, Structural)]
pub enum FlushDecision {
    /// Keep the submitted work as the end of the previous frame.
    KeepFuture,
    /// Start the next frame afresh, and report success.
    Restart,
    /// Start the next frame afresh, and report the failure to submit.
    RestartAndFail,
}

/// What acquiring an image does to the need to recreate the swapchain, and
/// what the renderer does next.
pub open spec fn acquire_step(recreate: bool, outcome: AcquireOutcome) -> (bool, AcquireDecision) {
    match outcome {
        AcquireOutcome::Acquired { image_index, suboptimal } => (
            suboptimal,
            AcquireDecision::Draw { image_index },
        ),
        AcquireOutcome::OutOfDate => (true, AcquireDecision::SkipFrame),
        AcquireOutcome::Failed => (recreate, AcquireDecision::Fail),
    }
}

/// What presenting a frame does to the need to recreate the swapchain, and
/// what the renderer does next.
pub open spec fn flush_step(recreate: bool, outcome: FlushOutcome) -> (bool, FlushDecision) {
    match outcome {
        FlushOutcome::Flushed => (recreate, FlushDecision::KeepFuture),
        FlushOutcome::OutOfDate => (true, FlushDecision::Restart),
        FlushOutcome::Failed => (recreate, FlushDecision::RestartAndFail),
    }
}

/// Over one frame, from acquiring its image to presenting it: a swapchain
/// found out of date at either step is recreated before the next frame
/// draws; a frame drawn into an image that fits and presented without
/// trouble leaves nothing to recreate; a frame is drawn exactly when an
/// image was acquired.
pub proof fn lemma_frame_recreates_out_of_date(
    recreate: bool,
    acquired: AcquireOutcome,
    presented: FlushOutcome,
)
    ensures
        ({
            let (after_acquire, decision) = acquire_step(recreate, acquired);
            let (after_present, _) = flush_step(after_acquire, presented);
            &&& acquired == AcquireOutcome::OutOfDate ==> after_acquire
            &&& (decision is Draw && presented == FlushOutcome::OutOfDate) ==> after_present
            &&& (acquired matches AcquireOutcome::Acquired { suboptimal, .. } && !suboptimal
                && presented == FlushOutcome::Flushed) ==> !after_present
            &&& (decision is Draw <==> acquired is Acquired)
        }),
{
}

impl SwapchainState {
    pub closed spec fn recreate(&self) -> bool {
        self.recreate_swapchain
    }

    /// State of a renderer whose swapchain was just created.
    pub fn new() -> (state: Self)
        ensures
            !state.recreate(),
    {
        SwapchainState { recreate_swapchain: false }
    }

    /// Whether the swapchain must be recreated before drawing.
    pub fn needs_recreate(&self) -> (needed: bool)
        ensures
            needed == self.recreate(),
    {
        self.recreate_swapchain
    }

    /// Records that the swapchain was recreated.
    pub fn recreated(&mut self)
        ensures
            !final(self).recreate(),
    {
        self.recreate_swapchain = false;
    }

    /// Decides what to do with the outcome of acquiring an image: an
    /// out-of-date swapchain is to be recreated and the frame skipped; an
    /// acquired image is drawn into, and the swapchain is to be recreated
    /// when the image fits only suboptimally.
    pub fn after_acquire(&mut self, outcome: AcquireOutcome) -> (decision: AcquireDecision)
        ensures
            (final(self).recreate(), decision) == acquire_step(old(self).recreate(), outcome),
            match outcome {
                AcquireOutcome::Acquired { image_index, suboptimal } => {
                    &&& decision == AcquireDecision::Draw { image_index }
                    &&& final(self).recreate() == suboptimal
                },
                AcquireOutcome::OutOfDate => {
                    &&& decision == AcquireDecision::SkipFrame
                    &&& final(self).recreate()
                },
                AcquireOutcome::Failed => {
                    &&& decision == AcquireDecision::Fail
                    &&& final(self).recreate() == old(self).recreate()
                },
            },
    {
        match outcome {
            AcquireOutcome::Acquired { image_index, suboptimal } => {
                self.recreate_swapchain = suboptimal;
                AcquireDecision::Draw { image_index }
            },
            AcquireOutcome::OutOfDate => {
                self.recreate_swapchain = true;
                AcquireDecision::SkipFrame
            },
            AcquireOutcome::Failed => AcquireDecision::Fail,
        }
    }

    /// Decides what to do with the outcome of submitting a frame: an
    /// out-of-date swapchain is to be recreated and the next frame started
    /// afresh, as after a failure, which is reported.
    pub fn after_flush(&mut self, outcome: FlushOutcome) -> (decision: FlushDecision)
        ensures
            (final(self).recreate(), decision) == flush_step(old(self).recreate(), outcome),
            match outcome {
                FlushOutcome::Flushed => {
                    &&& decision == FlushDecision::KeepFuture
                    &&& final(self).recreate() == old(self).recreate()
                },
                FlushOutcome::OutOfDate => {
                    &&& decision == FlushDecision::Restart
                    &&& final(self).recreate()
                },
                FlushOutcome::Failed => {
                    &&& decision == FlushDecision::RestartAndFail
                    &&& final(self).recreate() == old(self).recreate()
                },
            },
    {
        match outcome {
            FlushOutcome::Flushed => FlushDecision::KeepFuture,
            FlushOutcome::OutOfDate => {
                self.recreate_swapchain = true;
                FlushDecision::Restart
            },
            FlushOutcome::Failed => FlushDecision::RestartAndFail,
        }
    }
}

/// Acquiring draws into the acquired image and needs a new swapchain
/// afterwards exactly when that image is suboptimal; an out-of-date
/// swapchain skips the frame and must be recreated; a failure reports it
/// and leaves the need to recreate as it was.
pub proof fn lemma_acquire_outcomes(recreate: bool, image_index: usize, suboptimal: bool)
    ensures
        acquire_step(recreate, AcquireOutcome::Acquired { image_index, suboptimal }) == (
            suboptimal,
            AcquireDecision::Draw { image_index },
        ),
        acquire_step(recreate, AcquireOutcome::OutOfDate) == (true, AcquireDecision::SkipFrame),
        acquire_step(recreate, AcquireOutcome::Failed) == (recreate, AcquireDecision::Fail),
{
}

/// Presenting keeps the submitted work when it succeeded; an out-of-date
/// swapchain restarts the frame and must be recreated; a failure restarts
/// and reports it; only an out-of-date swapchain changes the need to
/// recreate.
pub proof fn lemma_flush_outcomes(recreate: bool)
    ensures
        flush_step(recreate, FlushOutcome::Flushed) == (recreate, FlushDecision::KeepFuture),
        flush_step(recreate, FlushOutcome::OutOfDate) == (true, FlushDecision::Restart),
        flush_step(recreate, FlushOutcome::Failed) == (recreate, FlushDecision::RestartAndFail),
{
}

} // verus!
