//! Graphics bookkeeping: the all-or-nothing resource unit, whether it is
//! bound, and what a present result means.

use vstd::prelude::*;

use crate::diagnostics::Manager;
use crate::errors::GraphicsError;

verus! {

/// The present result of success.
pub const S_OK: i32 = 0;

/// The present result that reports a removed device (`0x887A0005`).
pub const DXGI_ERROR_DEVICE_REMOVED: i32 = -2005270523;

/// Presents wait for this many vertical blanks.
pub const SYNC_INTERVAL: u32 = 1;

/// What a present result calls for.
#[derive(Debug, Clone, Copy, PartialEq, Eq, Structural)]
pub enum PresentOutcome {
    /// The frame was shown.
    Presented,
    /// The device is gone; its removal reason must be fetched and the
    /// device and every resource recreated.
    DeviceRemoved,
    /// Any other failure, with its result code.
    Failed(i32),
}

/// What present result `hr` calls for: success only for `S_OK`, the
/// removed-device path for `DXGI_ERROR_DEVICE_REMOVED`, failure otherwise.
pub open spec fn present_outcome_of(hr: i32) -> PresentOutcome {
    if hr == DXGI_ERROR_DEVICE_REMOVED {
        PresentOutcome::DeviceRemoved
    } else if hr == S_OK {
        PresentOutcome::Presented
    } else {
        PresentOutcome::Failed(hr)
    }
}

/// Classifies present result `hr`.
pub fn present_outcome(hr: i32) -> (r: PresentOutcome)
    ensures
        r == present_outcome_of(hr),
{
    if hr == DXGI_ERROR_DEVICE_REMOVED {
        PresentOutcome::DeviceRemoved
    } else if hr != S_OK {
        PresentOutcome::Failed(hr)
    } else {
        PresentOutcome::Presented
    }
}

/// Everything tied to the window: swap chain, device context, render-target
/// view and depth-stencil view.
pub struct Resources<S, C, T, D> {
    pub swap_chain: S,
    pub context: C,
    pub target: T,
    pub depth_stencil_view: D,
}

impl<S, C, T, D> Resources<S, C, T, D> {
    /// The unit, only if every part is present.
    pub fn assemble(swap_chain: Option<S>, context: Option<C>, target: Option<T>, depth_stencil_view: Option<D>) -> (r: Option<Resources<S, C, T, D>>)
        ensures
            r is Some <==> (swap_chain is Some && context is Some && target is Some
                && depth_stencil_view is Some),
            r matches Some(u) ==> Some(u.swap_chain) == swap_chain && Some(u.context) == context
                && Some(u.target) == target && Some(u.depth_stencil_view) == depth_stencil_view,
    {
        match (swap_chain, context, target, depth_stencil_view) {
            (Some(swap_chain), Some(context), Some(target), Some(depth_stencil_view)) => Some(
                Resources { swap_chain, context, target, depth_stencil_view },
            ),
            _ => None,
        }
    }
}

/// The size of a window side in pixels as a buffer extent; a side that is
/// not positive gives 0, which lets the platform pick the client size.
pub open spec fn extent(side: i16) -> u32 {
    if side > 0 {
        side as u32
    } else {
        0
    }
}

/// The graphics state of one window: its resource unit `R` once bound, and
/// the diagnostic drain when diagnostics are on.
pub struct Graphics<R> {
    pub resources: Option<R>,
    pub dx_info_manager: Option<Manager>,
    pub window_width: i16,
    pub window_height: i16,
}

impl<R> Graphics<R> {
    /// Unbound graphics for a window of `window_width` by `window_height`.
    pub fn setup(window_width: i16, window_height: i16, dx_info_manager: Option<Manager>) -> (r: Graphics<R>)
        ensures
            r.resources is None,
            r.dx_info_manager == dx_info_manager,
            r.window_width == window_width,
            r.window_height == window_height,
    {
        Graphics { resources: None, dx_info_manager, window_width, window_height }
    }

    /// Whether a resource unit is installed.
    pub fn is_bound(&self) -> (r: bool)
        ensures
            r == self.resources is Some,
    {
        self.resources.is_some()
    }

    /// Installs a freshly built unit, replacing any earlier one whole. A
    /// failed build installs nothing and hands its error back.
    pub fn bind_to_window(&mut self, built: Result<R, GraphicsError>) -> (r: Result<(), GraphicsError>)
        ensures
            final(self).dx_info_manager == old(self).dx_info_manager,
            final(self).window_width == old(self).window_width,
            final(self).window_height == old(self).window_height,
            built is Ok ==> r is Ok && final(self).resources == Some(built->Ok_0),
            built is Err ==> r == Err::<(), GraphicsError>(built->Err_0) && final(self).resources
                == old(self).resources,
    {
        match built {
            Ok(unit) => {
                self.resources = Some(unit);
                Ok(())
            },
            Err(e) => Err(e),
        }
    }

    /// Width and height of the swap chain and depth buffer.
    pub fn buffer_extent(&self) -> (r: (u32, u32))
        ensures
            r == (extent(self.window_width), extent(self.window_height)),
    {
        let w: u32 = if self.window_width > 0 { self.window_width as u32 } else { 0 };
        let h: u32 = if self.window_height > 0 { self.window_height as u32 } else { 0 };
        (w, h)
    }

    /// Classifies the result of presenting the bound swap chain.
    pub fn end_frame(&self, present_result: i32) -> (r: PresentOutcome)
        requires
            self.resources is Some,
        ensures
            r == present_outcome_of(present_result),
    {
        present_outcome(present_result)
    }
}

} // verus!
