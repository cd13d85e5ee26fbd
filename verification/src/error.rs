//! The failure taxonomy of the pipeline.
//!
//! Every component surfaces failures upward immediately: there is no local
//! recovery and no retry, so a single enum covers the whole pipeline.

use vstd::prelude::*;

verus! {

/// Which kind of GPU object a creation request was for.
#[derive(Clone, Copy, PartialEq, Eq, Structural, Debug)]
pub enum ObjectKind {
    Shader,
    Program,
}

/// Which of the two vertex buffers an operation concerns.
#[derive(Clone, Copy, PartialEq, Eq, Structural, Debug)]
pub enum BufferKind {
    Position,
    Color,
}

/// A failure of the rendering pipeline.
///
/// Compile and link failures carry the diagnostic log text retrieved from
/// the context (or a generic fallback chosen by the caller when the context
/// offered no log).
#[derive(Debug, PartialEq, Eq)]
pub enum RenderError {
    /// The context could not create the requested GPU object.
    ObjectCreation { kind: ObjectKind },
    /// Shader compilation failed; `log` is the diagnostic text.
    ShaderCompile { log: String },
    /// Program linking failed; `log` is the diagnostic text.
    ProgramLink { log: String },
    /// The context could not allocate the named buffer.
    BufferAllocation { which: BufferKind },
    /// A required vertex attribute was not found in the linked program
    /// (only raised under the strict attribute policy).
    AttributeNotFound,
}

impl RenderError {
    /// The diagnostic text for this failure.
    pub fn message(&self) -> (r: String)
        ensures
            self matches RenderError::ObjectCreation { kind: ObjectKind::Shader }
                ==> r@ == "Unable to create shader object"@,
            self matches RenderError::ObjectCreation { kind: ObjectKind::Program }
                ==> r@ == "Unable to create program object"@,
            self matches RenderError::ShaderCompile { log } ==> r@ == log@,
            self matches RenderError::ProgramLink { log } ==> r@ == log@,
            self matches RenderError::BufferAllocation { which: BufferKind::Position }
                ==> r@ == "Error creating position buffer"@,
            self matches RenderError::BufferAllocation { which: BufferKind::Color }
                ==> r@ == "Error creating color buffer"@,
            self matches RenderError::AttributeNotFound
                ==> r@ == "Attribute aVertexPosition not found"@,
    {
        match self {
            RenderError::ObjectCreation { kind: ObjectKind::Shader } => {
                String::from_str("Unable to create shader object")
            },
            RenderError::ObjectCreation { kind: ObjectKind::Program } => {
                String::from_str("Unable to create program object")
            },
            RenderError::ShaderCompile { log } => String::from_str(log.as_str()),
            RenderError::ProgramLink { log } => String::from_str(log.as_str()),
            RenderError::BufferAllocation { which: BufferKind::Position } => {
                String::from_str("Error creating position buffer")
            },
            RenderError::BufferAllocation { which: BufferKind::Color } => {
                String::from_str("Error creating color buffer")
            },
            RenderError::AttributeNotFound => {
                String::from_str("Attribute aVertexPosition not found")
            },
        }
    }
}

} // verus!
