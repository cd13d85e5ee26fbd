//! The projection and model-view transforms.
//!
//! Both matrices are produced in column-major 16-entry flat layout. The
//! model-view transform is a pure translation, so its entries are exact
//! small integers and the whole matrix is computed here. The projection
//! depends on four scalar coefficients (trigonometry and clip-plane ratios)
//! that only the unverified shell can evaluate in its numeric type; the
//! layout that places them — which entry of the flat matrix each one
//! occupies — is computed and proved here, generically over the scalar type.

use vstd::prelude::*;

verus! {

/// How the aspect ratio is derived from the canvas size.
#[derive(Clone, Copy, PartialEq, Eq, Structural, Debug)]
pub enum AspectMode {
    /// width / height — the conventional formula, the default.
    Corrected,
    /// height / width, truncated by integer division before conversion —
    /// an inverted convention some deployments expect; kept behind this
    /// flag for bit-for-bit parity with renders made under it (600×600
    /// gives exactly 1 under both formulas).
    Compat,
}

/// The fixed scene parameters of the one rendered frame. The clip planes
/// are kept in thousandths so the configuration stays in exact integers;
/// the shell divides by 1000 when it hands them to its numeric code.
#[derive(Clone, Copy, PartialEq, Eq, Structural, Debug)]
pub struct SceneConfig {
    /// Vertical field of view in degrees.
    pub fov_y_degrees: u32,
    /// Near clip plane distance, in thousandths of a unit.
    pub z_near_milli: u32,
    /// Far clip plane distance, in thousandths of a unit.
    pub z_far_milli: u32,
    /// Which aspect-ratio formula to apply.
    pub aspect_mode: AspectMode,
}

impl SceneConfig {
    /// A usable configuration: the field of view is a proper angle and the
    /// near plane sits strictly between the eye and the far plane.
    pub open spec fn well_formed(self) -> bool {
        &&& 0 < self.fov_y_degrees < 180
        &&& 0 < self.z_near_milli < self.z_far_milli
    }
}

impl Default for SceneConfig {
    /// The reference configuration: 45° field of view, near plane 0.1,
    /// far plane 100.0, corrected aspect formula.
    fn default() -> (r: SceneConfig)
        ensures
            r == (SceneConfig {
                fov_y_degrees: 45u32,
                z_near_milli: 100u32,
                z_far_milli: 100000u32,
                aspect_mode: AspectMode::Corrected,
            }),
            r.well_formed(),
    {
        SceneConfig {
            fov_y_degrees: 45,
            z_near_milli: 100,
            z_far_milli: 100000,
            aspect_mode: AspectMode::Corrected,
        }
    }
}

/// The aspect ratio for a canvas of the given size, as an exact fraction
/// (numerator, denominator). A zero dimension would make the fraction
/// degenerate, so every part is clamped to at least 1.
pub open spec fn spec_aspect_fraction(width: u32, height: u32, mode: AspectMode) -> (int, int) {
    let w = if width == 0 { 1int } else { width as int };
    let h = if height == 0 { 1int } else { height as int };
    match mode {
        AspectMode::Corrected => (w, h),
        AspectMode::Compat => {
            let q = (height as int) / w;
            (if q == 0 { 1int } else { q }, 1int)
        },
    }
}

/// The aspect ratio as an exact fraction (numerator, denominator); the
/// shell performs the one floating-point division.
///
/// Corrected mode yields width / height. Compat mode yields height /
/// width, truncated by integer division before conversion. Both parts are
/// clamped to at least 1, so the fraction is
/// well defined — and the shell's division safe — for any canvas size,
/// including a zero width or height.
pub fn aspect_fraction(width: u32, height: u32, mode: AspectMode) -> (r: (u32, u32))
    ensures
        r.0 >= 1 && r.1 >= 1,
        (r.0 as int, r.1 as int) == spec_aspect_fraction(width, height, mode),
{
    let w: u32 = if width == 0 { 1 } else { width };
    let h: u32 = if height == 0 { 1 } else { height };
    match mode {
        AspectMode::Corrected => (w, h),
        AspectMode::Compat => {
            let q: u32 = height / w;
            (if q == 0 { 1 } else { q }, 1)
        },
    }
}

/// Column-major 16-entry layout of a translation by (tx, ty, tz): the
/// identity with the translation in the last column.
pub open spec fn spec_translation_entries(tx: i32, ty: i32, tz: i32) -> Seq<i32> {
    seq![
        1i32, 0i32, 0i32, 0i32,
        0i32, 1i32, 0i32, 0i32,
        0i32, 0i32, 1i32, 0i32,
        tx, ty, tz, 1i32,
    ]
}

/// The model-view matrix: a pure translation by (0, 0, -6), moving the quad
/// six units away from the viewer along the view axis.
pub open spec fn spec_model_view_entries() -> Seq<i32> {
    spec_translation_entries(0i32, 0i32, -6i32)
}

/// Column-major 16-entry layout of a translation matrix.
pub fn translation_entries(tx: i32, ty: i32, tz: i32) -> (r: Vec<i32>)
    ensures
        r@ == spec_translation_entries(tx, ty, tz),
{
    let mut v: Vec<i32> = Vec::new();
    v.push(1);
    v.push(0);
    v.push(0);
    v.push(0);
    v.push(0);
    v.push(1);
    v.push(0);
    v.push(0);
    v.push(0);
    v.push(0);
    v.push(1);
    v.push(0);
    v.push(tx);
    v.push(ty);
    v.push(tz);
    v.push(1);
    proof {
        assert(v@ =~= spec_translation_entries(tx, ty, tz));
    }
    v
}

/// The exact entries of the model-view matrix, ready for upload after a
/// one-for-one conversion to the context's numeric type.
pub fn model_view_entries() -> (r: Vec<i32>)
    ensures
        r@ == spec_model_view_entries(),
{
    translation_entries(0, 0, -6)
}

/// Column-major 16-entry layout of a perspective projection matrix from
/// its four scalar coefficients: with f = 1/tan(fov/2), `x_scale` is
/// f/aspect, `y_scale` is f, `depth_scale` is (far+near)/(near-far),
/// `depth_offset` is 2·far·near/(near-far), and `w_coeff` (the entry that
/// turns -z into the clip-space w) is -1. Every other entry is zero.
pub open spec fn spec_perspective_entries<T>(
    zero: T,
    x_scale: T,
    y_scale: T,
    depth_scale: T,
    w_coeff: T,
    depth_offset: T,
) -> Seq<T> {
    seq![
        x_scale, zero, zero, zero,
        zero, y_scale, zero, zero,
        zero, zero, depth_scale, w_coeff,
        zero, zero, depth_offset, zero,
    ]
}

/// Places the perspective coefficients into the flat column-major matrix.
/// The scalar type is the shell's own (the coefficients are computed
/// outside); only the placement is decided, and proved, here.
pub fn perspective_entries<T: Copy>(
    zero: T,
    x_scale: T,
    y_scale: T,
    depth_scale: T,
    w_coeff: T,
    depth_offset: T,
) -> (r: Vec<T>)
    ensures
        r@ == spec_perspective_entries(zero, x_scale, y_scale, depth_scale, w_coeff, depth_offset),
{
    let mut v: Vec<T> = Vec::new();
    v.push(x_scale);
    v.push(zero);
    v.push(zero);
    v.push(zero);
    v.push(zero);
    v.push(y_scale);
    v.push(zero);
    v.push(zero);
    v.push(zero);
    v.push(zero);
    v.push(depth_scale);
    v.push(w_coeff);
    v.push(zero);
    v.push(zero);
    v.push(depth_offset);
    v.push(zero);
    proof {
        assert(v@ =~= spec_perspective_entries(
            zero,
            x_scale,
            y_scale,
            depth_scale,
            w_coeff,
            depth_offset,
        ));
    }
    v
}

/// Law: in the column-major layout the matrix has 16 entries; entry [1][1]
/// (flat index 5) is exactly the y scale 1/tan(fov/2); the x scale, depth
/// scale, w coefficient and depth offset sit at flat indices 0, 10, 11 and
/// 14; and the model-view matrix is the identity with translation column
/// (0, 0, -6, 1).
pub proof fn lemma_transform_layout<T>(
    zero: T,
    x_scale: T,
    y_scale: T,
    depth_scale: T,
    w_coeff: T,
    depth_offset: T,
)
    ensures
        spec_perspective_entries(zero, x_scale, y_scale, depth_scale, w_coeff, depth_offset).len()
            == 16,
        spec_perspective_entries(zero, x_scale, y_scale, depth_scale, w_coeff, depth_offset)[5]
            == y_scale,
        spec_perspective_entries(zero, x_scale, y_scale, depth_scale, w_coeff, depth_offset)[0]
            == x_scale,
        spec_perspective_entries(zero, x_scale, y_scale, depth_scale, w_coeff, depth_offset)[10]
            == depth_scale,
        spec_perspective_entries(zero, x_scale, y_scale, depth_scale, w_coeff, depth_offset)[11]
            == w_coeff,
        spec_perspective_entries(zero, x_scale, y_scale, depth_scale, w_coeff, depth_offset)[14]
            == depth_offset,
        spec_model_view_entries().len() == 16,
        spec_model_view_entries() == seq![
            1i32, 0i32, 0i32, 0i32,
            0i32, 1i32, 0i32, 0i32,
            0i32, 0i32, 1i32, 0i32,
            0i32, 0i32, -6i32, 1i32,
        ],
{
}

} // verus!
