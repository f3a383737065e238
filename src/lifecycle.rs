//! The render loop around frames: when to render, when to wait for the device,
//! and the order in which a stale surface and its renderer are rebuilt.

use vstd::prelude::*;
use crate::surface::Extent;

verus! {

/// Where the render loop stands.
#[derive(Clone, Copy, PartialEq, Eq, Structural, Debug)]
pub enum LoopState {
    /// Rendering frames.
    Running,
    /// Waiting for the device to go idle before a rebuild.
    IdleForRebuild,
    /// Rebuilding the surface for the window's current size.
    RebuildingSurface,
    /// Rebuilding the renderer for the rebuilt surface.
    RebuildingRenderer,
    /// Waiting for the device to go idle before exiting.
    IdleForExit,
    /// Done.
    Exited,
    /// An event came that the state does not expect.
    Failed,
}

/// What happened since the last action.
#[derive(Clone, Copy, PartialEq, Eq, Structural, Debug)]
pub enum LoopEvent {
    /// A frame was rendered; `ok` is false when the surface must be rebuilt.
    Frame { ok: bool },
    /// The window asked to close.
    QuitRequested,
    /// All queued device work has completed.
    DeviceIdle,
    /// The surface was rebuilt with the given extent.
    SurfaceRebuilt { extent: Extent },
    /// The renderer was rebuilt.
    RendererRebuilt,
}

/// What the loop does next.
#[derive(Clone, Copy, PartialEq, Eq, Structural, Debug)]
pub enum LoopAction {
    /// Render the next frame.
    Render,
    /// Block until the device is idle.
    WaitIdle,
    /// Rebuild the surface for the window's current size.
    RebuildSurface,
    /// Rebuild the renderer's pipeline for a render target of this extent.
    RebuildRenderer { extent: Extent },
    /// Leave the loop.
    Exit,
    /// Stop: the sequence was broken.
    Abort,
}

/// The next state and action of the render loop. A failed frame starts the
/// rebuild sequence: wait for the device, rebuild the surface, then rebuild
/// the renderer for the extent that the surface reports; a quit waits for the
/// device before exiting.
pub fn loop_step(state: LoopState, ev: LoopEvent) -> (r: (LoopState, LoopAction))
    ensures
        state == LoopState::Running && ev == (LoopEvent::Frame { ok: true }) ==> r == (
        LoopState::Running,
        LoopAction::Render,
        ),
        state == LoopState::Running && ev == (LoopEvent::Frame { ok: false }) ==> r == (
        LoopState::IdleForRebuild,
        LoopAction::WaitIdle,
        ),
        state == LoopState::Running && ev == LoopEvent::QuitRequested ==> r == (
        LoopState::IdleForExit,
        LoopAction::WaitIdle,
        ),
        state == LoopState::IdleForRebuild && ev == LoopEvent::DeviceIdle ==> r == (
        LoopState::RebuildingSurface,
        LoopAction::RebuildSurface,
        ),
        forall|extent: Extent|
            state == LoopState::RebuildingSurface && ev == (LoopEvent::SurfaceRebuilt { extent })
                ==> r == (LoopState::RebuildingRenderer, LoopAction::RebuildRenderer { extent }),
        state == LoopState::RebuildingRenderer && ev == LoopEvent::RendererRebuilt ==> r == (
        LoopState::Running,
        LoopAction::Render,
        ),
        state == LoopState::IdleForExit && ev == LoopEvent::DeviceIdle ==> r == (
        LoopState::Exited,
        LoopAction::Exit,
        ),
        !loop_expects(state, ev) ==> r == (LoopState::Failed, LoopAction::Abort),
{
    match (state, ev) {
        (LoopState::Running, LoopEvent::Frame { ok }) => {
            if ok {
                (LoopState::Running, LoopAction::Render)
            } else {
                (LoopState::IdleForRebuild, LoopAction::WaitIdle)
            }
        },
        (LoopState::Running, LoopEvent::QuitRequested) => (
            LoopState::IdleForExit,
            LoopAction::WaitIdle,
        ),
        (LoopState::IdleForRebuild, LoopEvent::DeviceIdle) => (
            LoopState::RebuildingSurface,
            LoopAction::RebuildSurface,
        ),
        (LoopState::RebuildingSurface, LoopEvent::SurfaceRebuilt { extent }) => (
            LoopState::RebuildingRenderer,
            LoopAction::RebuildRenderer { extent },
        ),
        (LoopState::RebuildingRenderer, LoopEvent::RendererRebuilt) => (
            LoopState::Running,
            LoopAction::Render,
        ),
        (LoopState::IdleForExit, LoopEvent::DeviceIdle) => (LoopState::Exited, LoopAction::Exit),
        _ => (LoopState::Failed, LoopAction::Abort),
    }
}

/// Whether state `s` has a transition on event `ev`.
pub open spec fn loop_expects(s: LoopState, ev: LoopEvent) -> bool {
    match s {
        LoopState::Running => ev is Frame || ev == LoopEvent::QuitRequested,
        LoopState::IdleForRebuild => ev == LoopEvent::DeviceIdle,
        LoopState::RebuildingSurface => ev is SurfaceRebuilt,
        LoopState::RebuildingRenderer => ev == LoopEvent::RendererRebuilt,
        LoopState::IdleForExit => ev == LoopEvent::DeviceIdle,
        _ => false,
    }
}

} // verus!
