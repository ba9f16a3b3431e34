//! The per-platform chrome adjuster.
//!
//! Only one platform's native windowing API exposes raw style bits; there the
//! adjuster strips the caption bits from the current style and asks for a
//! frame refresh that moves, resizes and reorders nothing. On every other
//! platform the adjuster is a no-op. A native handle of an unexpected type on
//! the style-bit platform is a platform-detection bug and must abort.

use vstd::prelude::*;

use crate::style::spec_strip_caption;
use crate::style::strip_caption;

verus! {

/// The platforms the adjuster distinguishes: the one whose windowing API
/// exposes raw style bits, and every other platform.
#[derive(Clone, Copy, PartialEq, Eq, Structural, Debug)]
pub enum Platform {
    Windows,
    Other,
}

/// A native window handle, reduced to what the adjuster reads of it: the
/// platform kind and, for the style-bit platform, the raw window address.
#[derive(Clone, Copy, PartialEq, Eq, Structural, Debug)]
pub enum NativeHandle {
    Win32(u64),
    Unknown,
}

/// The style-refresh request issued after a restyle: keep position, size and
/// z-order, and only mark the frame as changed, so the window is redrawn in
/// place without a caption bar.
#[derive(Clone, Copy, PartialEq, Eq, Structural, Debug)]
pub struct FrameRefresh {
    pub keep_position: bool,
    pub keep_size: bool,
    pub keep_z_order: bool,
    pub frame_changed: bool,
}

/// A planned write-back of a new style bitmask, followed by a frame refresh.
#[derive(Clone, Copy, PartialEq, Eq, Structural, Debug)]
pub struct StyleUpdate {
    pub new_style: u32,
    pub refresh: FrameRefresh,
}

/// What the chrome adjuster decides for one window.
#[derive(Clone, Copy, PartialEq, Eq, Structural, Debug)]
pub enum ChromeOutcome {
    /// This platform exposes no raw style bits: nothing to change.
    NoOp,
    /// Write this bitmask back and refresh the frame.
    Restyle(StyleUpdate),
    /// The handle is not of the platform's expected type: abort.
    Mismatch,
}

/// The one frame refresh the adjuster ever requests.
pub open spec fn spec_frame_refresh() -> FrameRefresh {
    FrameRefresh { keep_position: true, keep_size: true, keep_z_order: true, frame_changed: true }
}

/// The chrome adjuster's decision: strip the caption on the style-bit
/// platform (aborting on a foreign handle), do nothing elsewhere.
pub open spec fn spec_adjust_chrome(platform: Platform, handle: NativeHandle, style: u32)
    -> ChromeOutcome {
    match platform {
        Platform::Windows => match handle {
            NativeHandle::Win32(_) => ChromeOutcome::Restyle(
                StyleUpdate { new_style: spec_strip_caption(style), refresh: spec_frame_refresh() },
            ),
            NativeHandle::Unknown => ChromeOutcome::Mismatch,
        },
        Platform::Other => ChromeOutcome::NoOp,
    }
}

/// The window's style bitmask after the chrome step: stripped of its caption
/// bits where a restyle happens, unchanged everywhere else.
pub open spec fn spec_style_after(platform: Platform, handle: NativeHandle, style: u32) -> u32 {
    match spec_adjust_chrome(platform, handle, style) {
        ChromeOutcome::Restyle(update) => update.new_style,
        _ => style,
    }
}

/// Run the chrome adjuster for the detected platform.
pub fn adjust_chrome(platform: Platform, handle: NativeHandle, style: u32) -> (r: ChromeOutcome)
    ensures
        r == spec_adjust_chrome(platform, handle, style),
{
    match platform {
        Platform::Windows => match handle {
            NativeHandle::Win32(_) => {
                let update = StyleUpdate {
                    new_style: strip_caption(style),
                    refresh: FrameRefresh {
                        keep_position: true,
                        keep_size: true,
                        keep_z_order: true,
                        frame_changed: true,
                    },
                };
                ChromeOutcome::Restyle(update)
            },
            NativeHandle::Unknown => ChromeOutcome::Mismatch,
        },
        Platform::Other => ChromeOutcome::NoOp,
    }
}

} // verus!
