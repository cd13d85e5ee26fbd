//! Shader compilation and program linking decisions.
//!
//! The graphics context itself performs object creation, compilation and
//! linking; it reports back three events per step: whether an object was
//! created, whether the status query reported success, and the diagnostic
//! log, if any. The functions here turn those events into the pipeline's
//! result, so the whole decision is verified while the context calls stay
//! in the unverified shell.

use vstd::prelude::*;
use crate::error::{ObjectKind, RenderError};

verus! {

/// The two shader stages of the pipeline.
#[derive(Clone, Copy, PartialEq, Eq, Structural, Debug)]
pub enum ShaderKind {
    Vertex,
    Fragment,
}

/// The vertex stage: positions an input vertex by the model-view and
/// projection transforms.
pub open spec fn spec_vertex_shader_source() -> Seq<char> {
    "
        attribute vec4 aVertexPosition;

        uniform mat4 uModelViewMatrix;
        uniform mat4 uProjectionMatrix;

        void main() {
        gl_Position = uProjectionMatrix * uModelViewMatrix * aVertexPosition;
        }
    "@
}

/// The fragment stage: emits a constant opaque white color.
pub open spec fn spec_fragment_shader_source() -> Seq<char> {
    "
        void main() {
            gl_FragColor = vec4(1.0, 1.0, 1.0, 1.0);
        }
    "@
}

/// The source text of the vertex stage.
pub fn vertex_shader_source() -> (r: &'static str)
    ensures
        r@ == spec_vertex_shader_source(),
{
    "
        attribute vec4 aVertexPosition;

        uniform mat4 uModelViewMatrix;
        uniform mat4 uProjectionMatrix;

        void main() {
        gl_Position = uProjectionMatrix * uModelViewMatrix * aVertexPosition;
        }
    "
}

/// The source text of the fragment stage.
pub fn fragment_shader_source() -> (r: &'static str)
    ensures
        r@ == spec_fragment_shader_source(),
{
    "
        void main() {
            gl_FragColor = vec4(1.0, 1.0, 1.0, 1.0);
        }
    "
}

/// The diagnostic text of a failed compile or link: the log the context
/// offered when there is one, otherwise the given fallback message.
pub open spec fn spec_diagnostic(log: Option<Seq<char>>, fallback: Seq<char>) -> Seq<char> {
    match log {
        Some(l) => l,
        None => fallback,
    }
}

/// The fallback message when a failed compile produced no log.
pub open spec fn spec_compile_fallback() -> Seq<char> {
    "Unknown error creating shader"@
}

/// The fallback message when a failed link produced no log.
pub open spec fn spec_link_fallback() -> Seq<char> {
    "Unknown error creating program object"@
}

/// Turns the events of one shader-compile step into its outcome.
///
/// `shader` is the object the context created (if any), `status` the
/// compile-status it reported, and `log` the diagnostic it offered.
/// Compilation is deterministic for fixed source, so a failure is final:
/// it is surfaced at once, never retried.
pub fn compile_outcome<H>(shader: Option<H>, status: bool, log: Option<String>) -> (r: Result<
    H,
    RenderError,
>)
    ensures
        r is Ok <==> (shader is Some && status),
        shader is Some && status ==> (shader matches Some(h) && r matches Ok(p) && p == h),
        shader is None ==> (r matches Err(e) && e == (RenderError::ObjectCreation {
            kind: ObjectKind::Shader,
        })),
        shader is Some && !status ==> (r matches Err(e) && e matches RenderError::ShaderCompile {
            log: l,
        } && l@ == spec_diagnostic(log.deep_view(), spec_compile_fallback())),
{
    match shader {
        None => Err(RenderError::ObjectCreation { kind: ObjectKind::Shader }),
        Some(h) => {
            if status {
                Ok(h)
            } else {
                let text: String = match log {
                    Some(l) => l,
                    None => String::from_str("Unknown error creating shader"),
                };
                Err(RenderError::ShaderCompile { log: text })
            }
        },
    }
}

/// Turns the events of the program-link step into its outcome.
///
/// Both shaders must already have compiled successfully; this step only
/// judges the link itself from the events the context reported.
pub fn link_outcome<H>(program: Option<H>, status: bool, log: Option<String>) -> (r: Result<
    H,
    RenderError,
>)
    ensures
        r is Ok <==> (program is Some && status),
        program is Some && status ==> (program matches Some(h) && r matches Ok(p) && p == h),
        program is None ==> (r matches Err(e) && e == (RenderError::ObjectCreation {
            kind: ObjectKind::Program,
        })),
        program is Some && !status ==> (r matches Err(e) && e matches RenderError::ProgramLink {
            log: l,
        } && l@ == spec_diagnostic(log.deep_view(), spec_link_fallback())),
{
    match program {
        None => Err(RenderError::ObjectCreation { kind: ObjectKind::Program }),
        Some(h) => {
            if status {
                Ok(h)
            } else {
                let text: String = match log {
                    Some(l) => l,
                    None => String::from_str("Unknown error creating program object"),
                };
                Err(RenderError::ProgramLink { log: text })
            }
        },
    }
}

/// Law: the shader-program build succeeds exactly when the context created
/// each object and reported success for both compiles and for the link; a
/// failure of any one event fails the whole build. The hypotheses are the
/// success conditions that `compile_outcome` and `link_outcome` ensure of
/// their results.
pub proof fn lemma_build_succeeds_iff<H>(
    vertex_result: Result<H, RenderError>,
    fragment_result: Result<H, RenderError>,
    program_result: Result<H, RenderError>,
    vertex_created: bool,
    vertex_status: bool,
    fragment_created: bool,
    fragment_status: bool,
    program_created: bool,
    link_status: bool,
)
    requires
        vertex_result is Ok <==> (vertex_created && vertex_status),
        fragment_result is Ok <==> (fragment_created && fragment_status),
        program_result is Ok <==> (program_created && link_status),
    ensures
        (vertex_result is Ok && fragment_result is Ok && program_result is Ok) <==> (vertex_created
            && vertex_status && fragment_created && fragment_status && program_created
            && link_status),
{
}

/// Law: a failed compile always carries non-empty diagnostic text, provided
/// any log the context handed over was itself non-empty (the fallback text
/// is non-empty on its own).
pub proof fn lemma_compile_diagnostic_nonempty(log: Option<Seq<char>>)
    requires
        log matches Some(l) ==> l.len() > 0,
    ensures
        spec_diagnostic(log, spec_compile_fallback()).len() > 0,
{
    reveal_strlit("Unknown error creating shader");
}

/// Law: a failed link always carries non-empty diagnostic text, provided
/// any log the context handed over was itself non-empty.
pub proof fn lemma_link_diagnostic_nonempty(log: Option<Seq<char>>)
    requires
        log matches Some(l) ==> l.len() > 0,
    ensures
        spec_diagnostic(log, spec_link_fallback()).len() > 0,
{
    reveal_strlit("Unknown error creating program object");
}

} // verus!
