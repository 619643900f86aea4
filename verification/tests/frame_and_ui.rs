use titan_core::command::CommandBufferCursor;
use titan_core::frame::{
    check_graphics_queue, needs_new_depth_buffer, viewport_size, AcquireDecision, AcquireOutcome, FlushDecision,
    FlushOutcome, FrameProgress, PassStep, QueueFamilyNotSupported, SwapchainState,
};
use titan_core::pipeline::{check_pipeline_parents, first_created_pipeline, PipelineError};
use titan_core::swapchain::Extent2D;
use titan_core::ui::{
    coverage_to_rgba, flatten_pixels, indices, indices_u16, mesh_is_drawable, UiTextureState,
};
use titan_core::window::Size;

#[test]
fn frame_passes_come_in_order() {
    let mut progress = FrameProgress::new();
    assert_eq!(progress.next_pass(), PassStep::Deferred);
    assert_eq!(progress.next_pass(), PassStep::Ui);
    assert_eq!(progress.next_pass(), PassStep::Finish);
    assert_eq!(progress.next_pass(), PassStep::Done);
    assert_eq!(progress.next_pass(), PassStep::Done);
}

#[test]
fn depth_buffer_recreated_on_first_use_and_resize() {
    let e = Extent2D { width: 800, height: 600 };
    assert!(needs_new_depth_buffer(None, e));
    assert!(!needs_new_depth_buffer(Some(e), e));
    assert!(needs_new_depth_buffer(Some(Extent2D { width: 800, height: 601 }), e));
}

#[test]
fn viewport_is_framebuffer_width_and_height() {
    assert_eq!(viewport_size([1920, 1080, 1]), Size::new(1920, 1080));
}

#[test]
fn out_of_date_acquire_skips_frame_and_recreates() {
    let mut state = SwapchainState::new();
    assert!(!state.needs_recreate());
    assert_eq!(state.after_acquire(AcquireOutcome::OutOfDate), AcquireDecision::SkipFrame);
    assert!(state.needs_recreate());
    state.recreated();
    assert!(!state.needs_recreate());
}

#[test]
fn acquired_image_is_drawn_and_suboptimal_marks_recreate() {
    let mut state = SwapchainState::new();
    assert_eq!(
        state.after_acquire(AcquireOutcome::Acquired { image_index: 2, suboptimal: true }),
        AcquireDecision::Draw { image_index: 2 }
    );
    assert!(state.needs_recreate());
    assert_eq!(
        state.after_acquire(AcquireOutcome::Acquired { image_index: 0, suboptimal: false }),
        AcquireDecision::Draw { image_index: 0 }
    );
    assert!(!state.needs_recreate());
    assert_eq!(state.after_acquire(AcquireOutcome::Failed), AcquireDecision::Fail);
    assert!(!state.needs_recreate());
}

#[test]
fn flush_outcomes() {
    let mut state = SwapchainState::new();
    assert_eq!(state.after_flush(FlushOutcome::Flushed), FlushDecision::KeepFuture);
    assert!(!state.needs_recreate());
    assert_eq!(state.after_flush(FlushOutcome::Failed), FlushDecision::RestartAndFail);
    assert!(!state.needs_recreate());
    assert_eq!(state.after_flush(FlushOutcome::OutOfDate), FlushDecision::Restart);
    assert!(state.needs_recreate());
}

#[test]
fn scene_indices() {
    assert_eq!(indices(), [0, 1, 2, 2, 3, 0, 4, 5, 6, 6, 7, 4]);
    assert_eq!(indices_u16(), [0, 1, 2, 2, 3, 0, 4, 5, 6, 6, 7, 4]);
}

#[test]
fn ui_texture_uploaded_once_per_version() {
    let mut state = UiTextureState::new();
    assert!(!state.needs_upload(0));
    assert!(state.needs_upload(3));
    assert!(!state.needs_upload(3));
    assert!(state.needs_upload(4));
}

#[test]
fn coverage_texture_expands_to_rgba() {
    assert_eq!(coverage_to_rgba(&vec![7, 255]), vec![7, 7, 7, 7, 255, 255, 255, 255]);
    assert_eq!(coverage_to_rgba(&Vec::new()), Vec::<u8>::new());
}

#[test]
fn rgba_pixels_flatten_in_order() {
    assert_eq!(flatten_pixels(&vec![[1, 2, 3, 4], [5, 6, 7, 8]]), vec![1, 2, 3, 4, 5, 6, 7, 8]);
}

#[test]
fn empty_meshes_are_skipped() {
    assert!(mesh_is_drawable(3, 3));
    assert!(!mesh_is_drawable(0, 3));
    assert!(!mesh_is_drawable(3, 0));
}

#[test]
fn command_buffer_walk_hands_out_each_index_once() {
    let mut cursor = CommandBufferCursor::new(3);
    assert_eq!(cursor.size_hint(), (3, Some(3)));
    assert_eq!(cursor.next(), Some(0));
    assert_eq!(cursor.next(), Some(1));
    assert_eq!(cursor.next(), Some(2));
    assert_eq!(cursor.next(), None);
    assert_eq!(cursor.next(), None);
    assert_eq!(cursor.len(), 3);
    assert_eq!(cursor.size_hint(), (3, Some(3)));
    let mut empty = CommandBufferCursor::new(0);
    assert_eq!(empty.next(), None);
}

#[test]
fn drawing_systems_need_graphics_queues() {
    assert_eq!(check_graphics_queue(true), Ok(()));
    assert_eq!(check_graphics_queue(false), Err(QueueFamilyNotSupported::NoGraphics));
}

#[test]
fn pipeline_checks() {
    assert_eq!(check_pipeline_parents(4, 4), Ok(()));
    assert_eq!(check_pipeline_parents(4, 5), Err(PipelineError::ParentMismatch));
    assert_eq!(first_created_pipeline(&vec![9, 10]), Ok(9));
    assert_eq!(first_created_pipeline(&Vec::new()), Err(PipelineError::NotCreated));
    assert_eq!(PipelineError::NotCreated.message(), "graphics pipeline was not created");
    assert_eq!(
        PipelineError::ParentMismatch.message(),
        "pipeline layout and render pass must have the same parent"
    );
}
