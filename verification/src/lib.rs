//! Verified core of a minimal one-frame rendering pipeline.
//!
//! The pipeline compiles a vertex/fragment shader pair, uploads a quad's
//! vertex data into two buffers, computes a projection and a model-view
//! transform, and plans the command sequence for exactly one draw call.
//! Every decision the pipeline makes — how a compile or link outcome maps
//! to a result, which values the buffers hold, how the matrices are laid
//! out, and the exact order of the per-frame commands — lives here with a
//! proved contract. The host surface (the graphics context itself) is an
//! external collaborator: an unverified shell performs the context calls
//! and feeds their outcomes back into these functions.

pub mod error;
pub mod frame;
pub mod geometry;
pub mod shader;
pub mod transform;
