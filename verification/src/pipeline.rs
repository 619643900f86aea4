//! Checks around the creation of the engine's graphics pipeline.

use vstd::prelude::*;

verus! {

/// Error that can happen while creating a graphics pipeline.
#[derive(Debug, Clone, Copy, PartialEq, Eq, Structural)]
pub enum PipelineError {
    /// The render pass and the pipeline layout belong to different devices.
    ParentMismatch,
    /// The device created no pipeline.
    NotCreated,
}

impl PipelineError {
    pub open spec fn message_spec(&self) -> Seq<char> {
        match self {
            PipelineError::ParentMismatch => "pipeline layout and render pass must have the same parent"@,
            PipelineError::NotCreated => "graphics pipeline was not created"@,
        }
    }

    /// The message that describes this error.
    pub fn message(&self) -> (text: &'static str)
        ensures
            text@ == self.message_spec(),
    {
        proof {
            reveal_strlit("pipeline layout and render pass must have the same parent");
            reveal_strlit("graphics pipeline was not created");
        }
        match self {
            PipelineError::ParentMismatch => "pipeline layout and render pass must have the same parent",
            PipelineError::NotCreated => "graphics pipeline was not created",
        }
    }
}

/// Checks that the render pass (through its swapchain) and the pipeline
/// layout belong to the same device, given by key.
pub fn check_pipeline_parents(render_pass_device: u64, pipeline_layout_device: u64) -> (checked:
    Result<(), PipelineError>)
    ensures
        checked is Ok <==> render_pass_device == pipeline_layout_device,
        checked matches Err(e) ==> e == PipelineError::ParentMismatch,
{
    if render_pass_device != pipeline_layout_device {
        Err(PipelineError::ParentMismatch)
    } else {
        Ok(())
    }
}

/// The pipeline the engine keeps among those the device created: the first.
pub fn first_created_pipeline(handles: &Vec<u64>) -> (pipeline: Result<u64, PipelineError>)
    ensures
        handles.len() > 0 ==> pipeline == Ok::<u64, PipelineError>(handles@[0]),
        handles.len() == 0 ==> pipeline == Err::<u64, PipelineError>(PipelineError::NotCreated),
{
    if handles.len() > 0 {
        Ok(handles[0])
    } else {
        Err(PipelineError::NotCreated)
    }
}

} // verus!
