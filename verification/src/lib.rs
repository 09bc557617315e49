//! Core logic of a physically-based-rendering pipeline, verified.
//!
//! The crate models the CPU-side decisions of a small real-time renderer:
//! how texture and sampler slots are laid out in bind groups, how the
//! shader preamble of `#define` lines is derived from the material's
//! property slots, how an equirectangular environment map is turned into
//! a cubemap (face orientations, per-face render passes, mip-chain copy
//! schedules), and how input and window events drive the camera and the
//! render loop.  GPU submission, window handling and asset decoding live
//! outside the library and consume the plans computed here.

pub mod binding;
pub mod camera;
pub mod convert;
pub mod cube;
pub mod events;
pub mod material;
pub mod passes;
pub mod shader_text;
pub mod vertex;
