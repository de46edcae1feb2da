//! Screen-capture frames delivered as GPU textures.
//!
//! The engine receives what a native capture session produces, classifies it,
//! converts or describes its pixels for the GPU, and stamps each frame with
//! its wall-clock display time. Two backends are modelled: a compositor that
//! pushes native samples (`mac`) and a desktop portal that hands over decoded
//! CPU frames (`linux`).

use vstd::prelude::*;

pub mod pixel;
pub mod upload;
pub mod timing;
pub mod texture;
pub mod mac;
pub mod frame;
pub mod linux;
pub mod engine;
pub mod gpu_capturer;

verus! {

/// Reports whether the running user may capture the screen: on a portal
/// desktop consent is asked interactively when capture starts.
pub fn has_permission() -> (r: bool)
    ensures
        r,
{
    true
}

/// Whether screen capture is available: a graphical session must be present,
/// and the desktop portal must offer at least one kind of capture source
/// (`source_types` is its bit mask of source kinds, `None` when it could not be
/// reached).
pub fn portal_supports_capture(graphical_session: bool, source_types: Option<u32>) -> (r: bool)
    ensures
        r == (graphical_session && source_types is Some && source_types->0 != 0),
{
    if !graphical_session {
        return false;
    }
    match source_types {
        Some(mask) => mask != 0,
        None => false,
    }
}

} // verus!
