//! The order in which the window, the GPU device and the pipelines built on
//! them are released: children before parents, each handle once.

use vstd::prelude::*;

verus! {

/// Which of the application's handles were acquired.
#[derive(Clone, Copy, Debug, PartialEq, Eq, Structural)]
pub struct AcquiredHandles {
    pub window: bool,
    pub device: bool,
    pub fill_pipeline: bool,
    pub line_pipeline: bool,
}

/// One release call of the teardown.
#[derive(Clone, Copy, Debug, PartialEq, Eq, Structural)]
pub enum TeardownStep {
    /// Release the pipeline that fills triangles.
    ReleaseFillPipeline,
    /// Release the pipeline that draws triangles as lines.
    ReleaseLinePipeline,
    /// Take the window away from the device.
    ReleaseWindowFromDevice,
    /// Destroy the window.
    DestroyWindow,
    /// Destroy the device.
    DestroyDevice,
}

/// `step` when `present`, else nothing.
pub open spec fn step_if(present: bool, step: TeardownStep) -> Seq<TeardownStep> {
    if present {
        seq![step]
    } else {
        Seq::empty()
    }
}

/// The teardown of the handles `h`: the pipelines first, then the window is
/// taken from the device, then the window and last the device are destroyed;
/// a handle that was never acquired is not touched.
pub open spec fn teardown_of(h: AcquiredHandles) -> Seq<TeardownStep> {
    step_if(h.fill_pipeline, TeardownStep::ReleaseFillPipeline)
        + step_if(h.line_pipeline, TeardownStep::ReleaseLinePipeline)
        + step_if(h.device && h.window, TeardownStep::ReleaseWindowFromDevice)
        + step_if(h.window, TeardownStep::DestroyWindow)
        + step_if(h.device, TeardownStep::DestroyDevice)
}

/// Adds `step` to `steps` when `present`.
fn push_if(steps: &mut Vec<TeardownStep>, present: bool, step: TeardownStep)
    ensures
        final(steps)@ == old(steps)@ + step_if(present, step),
{
    if present {
        steps.push(step);
    }
    assert(final(steps)@ =~= old(steps)@ + step_if(present, step));
}

/// The release calls that tear down the handles `h`, in order.
pub fn teardown_steps(h: AcquiredHandles) -> (r: Vec<TeardownStep>)
    ensures
        r@ == teardown_of(h),
{
    let mut steps: Vec<TeardownStep> = Vec::new();
    push_if(&mut steps, h.fill_pipeline, TeardownStep::ReleaseFillPipeline);
    push_if(&mut steps, h.line_pipeline, TeardownStep::ReleaseLinePipeline);
    push_if(&mut steps, h.device && h.window, TeardownStep::ReleaseWindowFromDevice);
    push_if(&mut steps, h.window, TeardownStep::DestroyWindow);
    push_if(&mut steps, h.device, TeardownStep::DestroyDevice);
    assert(steps@ =~= teardown_of(h));
    steps
}

} // verus!
