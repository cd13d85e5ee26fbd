//! The per-frame command plan.
//!
//! One frame is a fixed sequence of state-changing calls against the
//! graphics context: clear-state setup, buffer and attribute binding,
//! program activation, uniform uploads and exactly one draw call. The order
//! matters — the attribute pointer captures the buffer bound at description
//! time, not at draw time — so the whole sequence is planned here as data,
//! with its order and its single draw call proved. The unverified shell
//! performs the two lookups (attribute and uniform locations), hands their
//! outcomes in, and then executes the planned commands one by one, in
//! order.

use vstd::prelude::*;
use crate::error::{BufferKind, RenderError};
use crate::geometry::VERTEX_COUNT;
use crate::transform::spec_model_view_entries;

verus! {

/// The depth comparison the pipeline enables.
#[derive(Clone, Copy, PartialEq, Eq, Structural, Debug)]
pub enum DepthCompare {
    LessOrEqual,
}

/// The primitive topology of the one draw call.
#[derive(Clone, Copy, PartialEq, Eq, Structural, Debug)]
pub enum Topology {
    TriangleStrip,
}

/// Which uniform matrix an upload concerns.
#[derive(Clone, Copy, PartialEq, Eq, Structural, Debug)]
pub enum MatrixKind {
    Projection,
    ModelView,
}

/// One state-changing call against the graphics context. Color intensities
/// and the clear depth are exact 0-or-1 values in this pipeline, so they
/// are carried as small integers; the shell converts them one for one.
#[derive(Clone, Copy, PartialEq, Eq, Structural, Debug)]
pub enum GlCommand {
    /// Set the clear color (here: opaque black).
    SetClearColor { red: u8, green: u8, blue: u8, alpha: u8 },
    /// Set the depth-buffer clear value (1 = the far plane).
    SetClearDepth { depth: u8 },
    /// Enable depth testing.
    EnableDepthTest,
    /// Select the depth comparison.
    SetDepthFunc { compare: DepthCompare },
    /// Clear the color buffer.
    ClearColorBuffer,
    /// Clear the depth buffer.
    ClearDepthBuffer,
    /// Bind the named buffer as the active array buffer.
    BindArrayBuffer { which: BufferKind },
    /// Describe the active buffer's layout for the attribute at `location`:
    /// `components` floating-point values per vertex, packed (`stride` 0)
    /// from `offset`.
    SetAttribPointer { location: u32, components: u32, normalized: bool, stride: u32, offset: u32 },
    /// Latch the described layout for the attribute at `location`.
    EnableAttribArray { location: u32 },
    /// Activate the linked program.
    UseProgram,
    /// Upload the named 16-entry matrix, without transposition.
    UploadMatrix { matrix: MatrixKind, transpose: bool },
    /// Draw `count` vertices starting at `first` with the given topology.
    DrawArrays { topology: Topology, first: u32, count: u32 },
}

/// How an unresolved vertex-attribute name is treated.
#[derive(Clone, Copy, PartialEq, Eq, Structural, Debug)]
pub enum AttributePolicy {
    /// Keep the sentinel location: downstream use of it is a silent no-op
    /// in the context, so the frame still renders without the attribute.
    Tolerant,
    /// Fail the frame with `AttributeNotFound`.
    Strict,
}

/// Turns the context's answer to the attribute-name lookup (a location, or
/// a negative sentinel for an unresolved name) into the location the plan
/// uses. Under the tolerant policy a sentinel is kept as its two's
/// complement reinterpretation (the value an unchecked cast to the
/// unsigned location type yields); under the strict policy it fails the
/// frame.
pub fn attribute_location_outcome(location: i32, policy: AttributePolicy) -> (r: Result<
    u32,
    RenderError,
>)
    ensures
        r is Ok <==> (location >= 0 || policy == AttributePolicy::Tolerant),
        location >= 0 ==> (r matches Ok(l) && l as int == location as int),
        location < 0 && policy == AttributePolicy::Tolerant ==> (r matches Ok(l) && l as int
            == location as int + 0x1_0000_0000),
        location < 0 && policy == AttributePolicy::Strict ==> r == Err::<u32, RenderError>(
            RenderError::AttributeNotFound,
        ),
{
    if location >= 0 {
        Ok(location as u32)
    } else {
        match policy {
            AttributePolicy::Tolerant => {
                let wide: i64 = location as i64 + 0x1_0000_0000;
                Ok(wide as u32)
            },
            AttributePolicy::Strict => Err(RenderError::AttributeNotFound),
        }
    }
}

/// The fixed head of the frame: clear state, clears, position-buffer
/// binding, attribute description and latching, program activation. The
/// position buffer must be the one bound when the attribute pointer is
/// described — the binding is captured then, not at draw time.
pub open spec fn spec_frame_setup(location: u32) -> Seq<GlCommand> {
    seq![
        GlCommand::SetClearColor { red: 0u8, green: 0u8, blue: 0u8, alpha: 1u8 },
        GlCommand::SetClearDepth { depth: 1u8 },
        GlCommand::EnableDepthTest,
        GlCommand::SetDepthFunc { compare: DepthCompare::LessOrEqual },
        GlCommand::ClearColorBuffer,
        GlCommand::ClearDepthBuffer,
        GlCommand::BindArrayBuffer { which: BufferKind::Position },
        GlCommand::SetAttribPointer {
            location: location,
            components: 2u32,
            normalized: false,
            stride: 0u32,
            offset: 0u32,
        },
        GlCommand::EnableAttribArray { location: location },
        GlCommand::UseProgram,
    ]
}

/// The uniform uploads: one per matrix whose location the lookup resolved.
/// Uploading to an absent uniform is skipped — a lookup miss for a uniform
/// is tolerated, never fatal.
pub open spec fn spec_matrix_uploads(has_projection: bool, has_model_view: bool) -> Seq<
    GlCommand,
> {
    (if has_projection {
        seq![GlCommand::UploadMatrix { matrix: MatrixKind::Projection, transpose: false }]
    } else {
        Seq::<GlCommand>::empty()
    }) + (if has_model_view {
        seq![GlCommand::UploadMatrix { matrix: MatrixKind::ModelView, transpose: false }]
    } else {
        Seq::<GlCommand>::empty()
    })
}

/// The one draw call: a triangle strip over the quad's 4 vertices from
/// offset 0.
pub open spec fn spec_draw_command() -> GlCommand {
    GlCommand::DrawArrays { topology: Topology::TriangleStrip, first: 0u32, count: VERTEX_COUNT }
}

/// The full plan of one frame, in execution order.
pub open spec fn spec_frame_plan(
    location: u32,
    has_projection: bool,
    has_model_view: bool,
) -> Seq<GlCommand> {
    spec_frame_setup(location) + spec_matrix_uploads(has_projection, has_model_view)
        + seq![spec_draw_command()]
}

/// Plans one frame. `location` is the attribute location the lookup
/// resolved (see `attribute_location_outcome`); `has_projection` and
/// `has_model_view` say whether the uniform lookups resolved — an upload to
/// an absent uniform is skipped rather than failing the frame.
pub fn frame_plan(location: u32, has_projection: bool, has_model_view: bool) -> (r: Vec<
    GlCommand,
>)
    ensures
        r@ == spec_frame_plan(location, has_projection, has_model_view),
{
    let mut v: Vec<GlCommand> = Vec::new();
    v.push(GlCommand::SetClearColor { red: 0, green: 0, blue: 0, alpha: 1 });
    v.push(GlCommand::SetClearDepth { depth: 1 });
    v.push(GlCommand::EnableDepthTest);
    v.push(GlCommand::SetDepthFunc { compare: DepthCompare::LessOrEqual });
    v.push(GlCommand::ClearColorBuffer);
    v.push(GlCommand::ClearDepthBuffer);
    v.push(GlCommand::BindArrayBuffer { which: BufferKind::Position });
    v.push(GlCommand::SetAttribPointer {
        location,
        components: 2,
        normalized: false,
        stride: 0,
        offset: 0,
    });
    v.push(GlCommand::EnableAttribArray { location });
    v.push(GlCommand::UseProgram);
    if has_projection {
        v.push(GlCommand::UploadMatrix { matrix: MatrixKind::Projection, transpose: false });
    }
    if has_model_view {
        v.push(GlCommand::UploadMatrix { matrix: MatrixKind::ModelView, transpose: false });
    }
    v.push(GlCommand::DrawArrays {
        topology: Topology::TriangleStrip,
        first: 0,
        count: 4,
    });
    proof {
        assert(v@ =~= spec_frame_plan(location, has_projection, has_model_view));
    }
    v
}

/// Law: one frame issues exactly one draw call — the final command — and it
/// is a triangle strip over 4 vertices from offset 0, whatever the
/// attribute location and whether either uniform lookup resolved.
pub proof fn lemma_single_draw(location: u32, has_projection: bool, has_model_view: bool)
    ensures
        spec_frame_plan(location, has_projection, has_model_view).last() == (GlCommand::DrawArrays {
            topology: Topology::TriangleStrip,
            first: 0u32,
            count: 4u32,
        }),
        forall|i: int|
            0 <= i < spec_frame_plan(location, has_projection, has_model_view).len() - 1
                ==> !(spec_frame_plan(location, has_projection, has_model_view)[i] is DrawArrays),
{
    let p = spec_frame_plan(location, has_projection, has_model_view);
    assert(p.last() == spec_draw_command());
    assert forall|i: int| 0 <= i < p.len() - 1 implies !(p[i] is DrawArrays) by {
        let setup = spec_frame_setup(location);
        let uploads = spec_matrix_uploads(has_projection, has_model_view);
        if i < setup.len() {
            assert(p[i] == setup[i]);
        } else {
            assert(p[i] == uploads[i - setup.len()]);
        }
    }
}

/// Law: the pipeline is deterministic — two runs over identical inputs
/// plan identical frames and produce identical matrix and buffer entries,
/// bit for bit. (Each run's outputs are pinned exactly by the contracts of
/// `frame_plan`, `model_view_entries`, `quad_positions` and `quad_colors`,
/// so any two runs agree.)
pub proof fn lemma_pipeline_deterministic(
    plan_a: Seq<GlCommand>,
    plan_b: Seq<GlCommand>,
    model_view_a: Seq<i32>,
    model_view_b: Seq<i32>,
    location: u32,
    has_projection: bool,
    has_model_view: bool,
)
    requires
        plan_a == spec_frame_plan(location, has_projection, has_model_view),
        plan_b == spec_frame_plan(location, has_projection, has_model_view),
        model_view_a == spec_model_view_entries(),
        model_view_b == spec_model_view_entries(),
    ensures
        plan_a == plan_b,
        model_view_a == model_view_b,
{
}

} // verus!
