//! The quad's vertex data and the buffer-allocation decisions.
//!
//! The quad is fixed: four vertices in triangle-strip winding and one color
//! per vertex. All values are exact small integers, so the data is kept as
//! `i32`; the unverified shell converts each entry one for one to the
//! context's numeric type before the one-shot static upload.

use vstd::prelude::*;
use crate::error::{BufferKind, RenderError};

verus! {

/// Number of vertices in the quad.
pub const VERTEX_COUNT: u32 = 4;

/// Components per vertex in the position buffer (x, y).
pub const POSITION_COMPONENTS: u32 = 2;

/// Components per vertex in the color buffer (red, green, blue, alpha).
pub const COLOR_COMPONENTS: u32 = 4;

/// The quad's vertex positions, two components per vertex, in the
/// triangle-strip winding order (-1,1), (1,1), (-1,-1), (1,-1): each vertex
/// after the first two forms a triangle with the previous two.
pub open spec fn spec_quad_positions() -> Seq<i32> {
    seq![-1i32, 1i32, 1i32, 1i32, -1i32, -1i32, 1i32, -1i32]
}

/// The quad's per-vertex colors, four components per vertex: white, red,
/// green, blue. The active fragment stage ignores them; the buffer is a
/// deliberate inert payload kept for layout generality.
pub open spec fn spec_quad_colors() -> Seq<i32> {
    seq![
        1i32, 1i32, 1i32, 1i32,
        1i32, 0i32, 0i32, 1i32,
        0i32, 1i32, 0i32, 1i32,
        0i32, 0i32, 1i32, 1i32,
    ]
}

/// The exact values uploaded to the position buffer.
pub fn quad_positions() -> (r: Vec<i32>)
    ensures
        r@ == spec_quad_positions(),
{
    let mut v: Vec<i32> = Vec::new();
    v.push(-1);
    v.push(1);
    v.push(1);
    v.push(1);
    v.push(-1);
    v.push(-1);
    v.push(1);
    v.push(-1);
    proof {
        assert(v@ =~= spec_quad_positions());
    }
    v
}

/// The exact values uploaded to the color buffer.
pub fn quad_colors() -> (r: Vec<i32>)
    ensures
        r@ == spec_quad_colors(),
{
    let mut v: Vec<i32> = Vec::new();
    v.push(1);
    v.push(1);
    v.push(1);
    v.push(1);
    v.push(1);
    v.push(0);
    v.push(0);
    v.push(1);
    v.push(0);
    v.push(1);
    v.push(0);
    v.push(1);
    v.push(0);
    v.push(0);
    v.push(1);
    v.push(1);
    proof {
        assert(v@ =~= spec_quad_colors());
    }
    v
}

/// Turns a buffer-allocation event into its outcome: the handle when the
/// context produced one, and a `BufferAllocation` error naming the buffer
/// when it did not.
pub fn buffer_outcome<H>(buffer: Option<H>, which: BufferKind) -> (r: Result<H, RenderError>)
    ensures
        r is Ok <==> buffer is Some,
        buffer is Some ==> (buffer matches Some(h) && r matches Ok(b) && b == h),
        buffer is None ==> (r matches Err(e) && e == (RenderError::BufferAllocation {
            which: which,
        })),
{
    match buffer {
        Some(h) => Ok(h),
        None => Err(RenderError::BufferAllocation { which }),
    }
}

/// Law: the position buffer holds exactly one pair per vertex and the color
/// buffer exactly one quadruple per vertex — 8 and 16 values for the 4
/// vertices — so the vertex count agrees across the buffers of one draw
/// call.
pub proof fn lemma_upload_sizes()
    ensures
        spec_quad_positions().len() == VERTEX_COUNT * POSITION_COMPONENTS,
        spec_quad_colors().len() == VERTEX_COUNT * COLOR_COMPONENTS,
        spec_quad_positions().len() as int / POSITION_COMPONENTS as int
            == spec_quad_colors().len() as int / COLOR_COMPONENTS as int,
{
}

} // verus!
