//! A screen-space edge-detection post-process, modelled as an explicit,
//! verified frame pipeline.
//!
//! The effect reads a rendered colour frame plus the depth and normal buffers
//! produced by earlier prepasses, and overlays detected edges onto the final
//! image.  The host renderer is represented by explicit, dependency-injected
//! values (a render device, a pipeline cache, per-view textures), so that the
//! design content of the pass is stated and proved here: the byte layout of
//! the configuration record mirrored into the GPU uniform buffer, the binding
//! helper that numbers bind-group entries, the bind-group layout and pipeline
//! description of the full-screen pass, the per-view render node with its
//! skip conditions and ping-pong write, and the ordering of the extract,
//! prepare and render phases within a frame.

pub mod binding;
pub mod config;
pub mod frame;
pub mod graph;
pub mod layout;
pub mod node;
pub mod pipeline;

pub use config::ConfigBuffer;
pub use config::EdgeDetectionConfig;
pub use config::Rgba;
pub use graph::EdgeDetectionPlugin;
pub use graph::EdgeDetetctionNodeLabel;
pub use node::EdgeDetectionNode;
pub use pipeline::SHADER_HANDLE;
