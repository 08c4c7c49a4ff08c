//! Choices about the surface that frames are presented on: which of the
//! formats and modes that it offers to take, and what to do when it fails.

use vstd::prelude::*;

verus! {

/// How a surface hands frames to the display.
#[derive(Debug, Clone, Copy, PartialEq, Eq, Structural)]
pub enum PresentMode {
    AutoVsync,
    AutoNoVsync,
    Fifo,
    FifoRelaxed,
    Immediate,
    Mailbox,
}

/// How the surface failed to give or to present a frame.
#[derive(Debug, Clone, Copy, PartialEq, Eq, Structural)]
pub enum SurfaceFailure {
    Timeout,
    Outdated,
    Lost,
    OutOfMemory,
    Other,
}

/// What to do when the surface does not give the texture of the next frame.
#[derive(Debug, Clone, Copy, PartialEq, Eq, Structural)]
pub enum Retry {
    /// Ask once more.
    Again,
    /// Configure the surface anew, then ask once more.
    ConfigureFirst,
    /// Give the frame up and report the failure.
    GiveUp,
}

/// What to do when a frame could not be rendered.
#[derive(Debug, Clone, Copy, PartialEq, Eq, Structural)]
pub enum Recovery {
    /// Go on with the next frame.
    Skip,
    /// Configure the surface anew.
    Reconfigure,
    /// Leave the event loop.
    Exit,
}

/// The mode to present in: `Mailbox` where the surface offers it, else
/// `Immediate` where it offers that, else `Fifo`, which every surface has.
pub open spec fn preferred_mode(offered: Seq<PresentMode>) -> PresentMode {
    if offered.contains(PresentMode::Mailbox) {
        PresentMode::Mailbox
    } else if offered.contains(PresentMode::Immediate) {
        PresentMode::Immediate
    } else {
        PresentMode::Fifo
    }
}

/// Whether `index` is the place of the format to take, given for each
/// offered format whether it is an sRGB format: the first sRGB format, or
/// the first format of all where none is sRGB.
pub open spec fn is_preferred_format(srgb: Seq<bool>, index: int) -> bool {
    &&& 0 <= index < srgb.len()
    &&& forall|i: int| 0 <= i < index ==> !srgb[i]
    &&& srgb[index] || (index == 0 && forall|i: int| 0 <= i < srgb.len() ==> !srgb[i])
}

/// What to do after the surface failed to give a texture.
pub open spec fn retry_after(failure: SurfaceFailure) -> Retry {
    match failure {
        SurfaceFailure::Lost => Retry::ConfigureFirst,
        SurfaceFailure::OutOfMemory => Retry::GiveUp,
        _ => Retry::Again,
    }
}

/// What to do after a frame could not be rendered.
pub open spec fn recovery_after(failure: SurfaceFailure) -> Recovery {
    match failure {
        SurfaceFailure::Lost => Recovery::Reconfigure,
        SurfaceFailure::OutOfMemory => Recovery::Exit,
        _ => Recovery::Skip,
    }
}

/// Whether the surface offers `mode`.
fn offers(offered: &Vec<PresentMode>, mode: PresentMode) -> (found: bool)
    ensures
        found == offered@.contains(mode),
{
    let mut i: usize = 0;
    while i < offered.len()
        invariant
            i <= offered.len(),
            forall|j: int| 0 <= j < i ==> offered@[j] != mode,
        decreases offered.len() - i,
    {
        if offered[i] == mode {
            return true;
        }
        i = i + 1;
    }
    false
}

/// The mode to present in, of those that the surface offers.
pub fn choose_present_mode(offered: &Vec<PresentMode>) -> (mode: PresentMode)
    ensures
        mode == preferred_mode(offered@),
{
    if offers(offered, PresentMode::Mailbox) {
        PresentMode::Mailbox
    } else if offers(offered, PresentMode::Immediate) {
        PresentMode::Immediate
    } else {
        PresentMode::Fifo
    }
}

/// The place of the format to take, given for each offered format whether
/// it is an sRGB format. A surface offers at least one format.
pub fn choose_format(srgb: &Vec<bool>) -> (index: usize)
    requires
        srgb@.len() >= 1,
    ensures
        is_preferred_format(srgb@, index as int),
{
    let mut i: usize = 0;
    while i < srgb.len()
        invariant
            i <= srgb.len(),
            srgb@.len() >= 1,
            forall|j: int| 0 <= j < i ==> !srgb@[j],
        decreases srgb.len() - i,
    {
        if srgb[i] {
            return i;
        }
        i = i + 1;
    }
    0
}

/// What to do after the surface failed to give a texture.
pub fn after_acquire_failure(failure: SurfaceFailure) -> (retry: Retry)
    ensures
        retry == retry_after(failure),
{
    match failure {
        SurfaceFailure::Lost => Retry::ConfigureFirst,
        SurfaceFailure::OutOfMemory => Retry::GiveUp,
        _ => Retry::Again,
    }
}

/// What to do after a frame could not be rendered.
pub fn after_render_failure(failure: SurfaceFailure) -> (recovery: Recovery)
    ensures
        recovery == recovery_after(failure),
{
    match failure {
        SurfaceFailure::Lost => Recovery::Reconfigure,
        SurfaceFailure::OutOfMemory => Recovery::Exit,
        _ => Recovery::Skip,
    }
}

/// Only one place is that of the format to take.
pub proof fn lemma_preferred_format_is_unique(srgb: Seq<bool>, a: int, b: int)
    requires
        is_preferred_format(srgb, a),
        is_preferred_format(srgb, b),
    ensures
        a == b,
{
}

} // verus!
