//! Rendering-resource logic of an interactive application: the readiness state
//! machine and dispatch sizing of a compute post-processing effect, the per-frame
//! mirroring of its target image into the render side, and a deduplicating cache
//! of repeating-texture materials keyed by texture and repeat factors.

pub mod dispatch;
pub mod repeat;
pub mod materials;
pub mod scene;
pub mod frame;
