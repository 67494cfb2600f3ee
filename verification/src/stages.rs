//! The exact parts of the two shader stages: the covering triangle of the
//! vertex stage, and what the fragment stage hands to the evaluator.
//!
//! Arithmetic that rounds is not done here. The fragment stage takes the
//! few rounded values it needs from its caller, in a `StageArithmetic`, and
//! decides everything else. What colours a pixel is an `Evaluator`, handed
//! to the stage by its caller.

use vstd::prelude::*;
use crate::constants::{lemma_words_injective, ShaderConstants};
use crate::scalar::{Scalar, Vec2, Vec3, Vec4};

verus! {

/// A clip-space position whose coordinates are whole numbers.
#[derive(Clone, Copy, Debug, PartialEq, Eq, Structural)]
pub struct ClipPosition {
    pub x: i32,
    pub y: i32,
    pub z: i32,
    pub w: i32,
}

/// The position of vertex `vert_idx` of the covering triangle: with
/// `u = (vert_idx << 1) & 2` and `v = vert_idx & 2` it is
/// `(2u - 1, 2v - 1, 0, 1)`.
pub open spec fn clip_position(vert_idx: i32) -> ClipPosition {
    ClipPosition {
        x: (2 * ((vert_idx << 1) & 2) - 1) as i32,
        y: (2 * (vert_idx & 2) - 1) as i32,
        z: 0,
        w: 1,
    }
}

/// The pattern of one of the whole numbers -1, 0, 1 and 3, the only ones a
/// clip position of the covering triangle holds.
pub open spec fn whole_scalar(n: int) -> Scalar
    recommends
        n == -1 || n == 0 || n == 1 || n == 3,
{
    if n == -1 {
        Scalar { bits: 0xbf80_0000 }
    } else if n == 1 {
        Scalar { bits: 0x3f80_0000 }
    } else if n == 3 {
        Scalar { bits: 0x4040_0000 }
    } else {
        Scalar { bits: 0 }
    }
}

impl ClipPosition {
    /// The position as four scalars.
    pub open spec fn scalars(self) -> Vec4 {
        Vec4 {
            x: whole_scalar(self.x as int),
            y: whole_scalar(self.y as int),
            z: whole_scalar(self.z as int),
            w: whole_scalar(self.w as int),
        }
    }
}

/// The clip-space position of one vertex of the covering triangle, in whole
/// numbers. Defined for every index; a draw of three vertices asks for 0, 1
/// and 2.
pub fn vertex_position(vert_idx: i32) -> (r: ClipPosition)
    ensures
        r == clip_position(vert_idx),
        r.x == (if vert_idx % 2 != 0 { 3int } else { -1int }),
        r.y == (if (vert_idx / 2) % 2 != 0 { 3int } else { -1int }),
{
    let u: i32 = (vert_idx << 1) & 2;
    let v: i32 = vert_idx & 2;
    assert(u == (if vert_idx % 2 != 0 { 2i32 } else { 0i32 })) by (bit_vector)
        requires
            u == (vert_idx << 1) & 2,
    ;
    assert(v == (if (vert_idx / 2) % 2 != 0 { 2i32 } else { 0i32 })) by (bit_vector)
        requires
            v == vert_idx & 2,
    ;
    ClipPosition { x: 2 * u - 1, y: 2 * v - 1, z: 0, w: 1 }
}

/// The vertex stage: the clip-space position of vertex `vert_idx`, as the
/// four scalars that are stored to the position output.
pub fn main_vs(vert_idx: i32) -> (builtin_pos: Vec4)
    ensures
        builtin_pos == clip_position(vert_idx).scalars(),
{
    let p = vertex_position(vert_idx);
    let x = if p.x == 3 { Scalar { bits: 0x4040_0000 } } else { Scalar { bits: 0xbf80_0000 } };
    let y = if p.y == 3 { Scalar { bits: 0x4040_0000 } } else { Scalar { bits: 0xbf80_0000 } };
    Vec4 { x, y, z: Scalar::zero(), w: Scalar::one() }
}

/// The three vertices of a draw are (-1, -1), (3, -1) and (-1, 3), at depth
/// 0 and weight 1.
pub proof fn lemma_triangle_vertices()
    ensures
        clip_position(0) == (ClipPosition { x: -1i32, y: -1i32, z: 0, w: 1 }),
        clip_position(1) == (ClipPosition { x: 3, y: -1i32, z: 0, w: 1 }),
        clip_position(2) == (ClipPosition { x: -1i32, y: 3, z: 0, w: 1 }),
{
    assert((0i32 << 1) & 2 == 0 && 0i32 & 2 == 0) by (bit_vector);
    assert((1i32 << 1) & 2 == 2 && 1i32 & 2 == 0) by (bit_vector);
    assert((2i32 << 1) & 2 == 0 && 2i32 & 2 == 2) by (bit_vector);
}

/// Twice the signed area of the triangle `a`, `b`, `p`: positive when `p`
/// lies to the left of the directed edge from `a` to `b`.
pub open spec fn edge(ax: int, ay: int, bx: int, by: int, px: int, py: int) -> int {
    (bx - ax) * (py - ay) - (by - ay) * (px - ax)
}

/// Whether the point `(px / d, py / d)` lies in the covering triangle, its
/// edges included. The triangle's vertices are taken in drawing order, which
/// is counter-clockwise.
pub open spec fn triangle_contains(px: int, py: int, d: int) -> bool {
    let a = clip_position(0);
    let b = clip_position(1);
    let c = clip_position(2);
    &&& edge(a.x * d, a.y * d, b.x * d, b.y * d, px, py) >= 0
    &&& edge(b.x * d, b.y * d, c.x * d, c.y * d, px, py) >= 0
    &&& edge(c.x * d, c.y * d, a.x * d, a.y * d, px, py) >= 0
}

/// Whether the point `(px / d, py / d)` lies in the interior of the covering
/// triangle.
pub open spec fn triangle_contains_strictly(px: int, py: int, d: int) -> bool {
    let a = clip_position(0);
    let b = clip_position(1);
    let c = clip_position(2);
    &&& edge(a.x * d, a.y * d, b.x * d, b.y * d, px, py) > 0
    &&& edge(b.x * d, b.y * d, c.x * d, c.y * d, px, py) > 0
    &&& edge(c.x * d, c.y * d, a.x * d, a.y * d, px, py) > 0
}

/// The one triangle covers the whole viewport. Every point of the clip-space
/// square from -1 to 1, written as a fraction `(px / d, py / d)`, lies in
/// the triangle, and every point inside the square lies inside the triangle.
pub proof fn lemma_triangle_covers_viewport(px: int, py: int, d: int)
    requires
        d > 0,
        -d <= px <= d,
        -d <= py <= d,
    ensures
        triangle_contains(px, py, d),
        -d < px < d && -d < py < d ==> triangle_contains_strictly(px, py, d),
{
    lemma_triangle_vertices();
    let a = clip_position(0);
    let b = clip_position(1);
    let c = clip_position(2);
    assert(edge(a.x * d, a.y * d, b.x * d, b.y * d, px, py) == 4 * (d * (py + d)))
        by (nonlinear_arith)
        requires
            a.x == -1,
            a.y == -1,
            b.x == 3,
            b.y == -1,
    ;
    assert(edge(b.x * d, b.y * d, c.x * d, c.y * d, px, py) == 4 * (d * (2 * d - px - py)))
        by (nonlinear_arith)
        requires
            b.x == 3,
            b.y == -1,
            c.x == -1,
            c.y == 3,
    ;
    assert(edge(c.x * d, c.y * d, a.x * d, a.y * d, px, py) == 4 * (d * (px + d)))
        by (nonlinear_arith)
        requires
            c.x == -1,
            c.y == 3,
            a.x == -1,
            a.y == -1,
    ;
    assert(forall|k: int| k >= 0 ==> #[trigger] (d * k) >= 0) by (nonlinear_arith)
        requires
            d > 0,
    ;
    assert(forall|k: int| k > 0 ==> #[trigger] (d * k) > 0) by (nonlinear_arith)
        requires
            d > 0,
    ;
}

/// A point of a window of `width` by `height` pixels, `fx` pixels from the
/// left and `fy` from the top, lands at `((2 fx - width) / width,
/// (height - 2 fy) / height)` in clip space. Every such point lies in the
/// covering triangle, and every point inside the window lies inside it.
pub proof fn lemma_window_point_in_triangle(width: int, height: int, fx: int, fy: int)
    requires
        width > 0,
        height > 0,
        0 <= fx <= width,
        0 <= fy <= height,
    ensures
        triangle_contains((2 * fx - width) * height, (height - 2 * fy) * width, width * height),
        0 < fx < width && 0 < fy < height ==> triangle_contains_strictly(
            (2 * fx - width) * height,
            (height - 2 * fy) * width,
            width * height,
        ),
{
    let d = width * height;
    let px = (2 * fx - width) * height;
    let py = (height - 2 * fy) * width;
    assert(d > 0 && -d <= px <= d && -d <= py <= d) by (nonlinear_arith)
        requires
            d == width * height,
            px == (2 * fx - width) * height,
            py == (height - 2 * fy) * width,
            width > 0,
            height > 0,
            0 <= fx <= width,
            0 <= fy <= height,
    ;
    if 0 < fx < width && 0 < fy < height {
        assert(-d < px < d && -d < py < d) by (nonlinear_arith)
            requires
                d == width * height,
                px == (2 * fx - width) * height,
                py == (height - 2 * fy) * width,
                width > 0,
                height > 0,
                0 < fx < width,
                0 < fy < height,
        ;
    }
    lemma_triangle_covers_viewport(px, py, d);
}

/// What the evaluator is given besides the pixel's coordinate.
///
/// The pointer vector `mouse` carries the two flags in the sign bits of its
/// last two components; the flags themselves are carried beside it, so that
/// an evaluator need not read a sign off a zero.
#[derive(Clone, Copy, Debug, PartialEq, Eq, Structural)]
pub struct Inputs {
    pub resolution: Vec3,
    pub time: Scalar,
    pub mouse: Vec4,
    pub mouse_left_pressed: bool,
    pub mouse_left_clicked: bool,
}

/// The values of one fragment that take rounding arithmetic, computed by the
/// caller from the block and the raw fragment coordinate `(x, y)`.
#[derive(Clone, Copy, Debug, PartialEq, Eq, Structural)]
pub struct StageArithmetic {
    /// `width`, converted to a scalar.
    pub resolution_x: Scalar,
    /// `height`, converted to a scalar.
    pub resolution_y: Scalar,
    /// `resolution_y - drag_end_y`.
    pub flipped_drag_end_y: Scalar,
    /// `resolution_y - drag_start_y`.
    pub flipped_drag_start_y: Scalar,
    /// `x mod resolution_x`.
    pub wrapped_x: Scalar,
    /// `resolution_y - (y mod resolution_y)`.
    pub wrapped_y: Scalar,
}

/// The pointer vector before any flip or change of sign: drag end, then drag
/// start.
pub open spec fn raw_mouse(constants: ShaderConstants) -> Vec4 {
    Vec4 {
        x: constants.drag_end_x,
        y: constants.drag_end_y,
        z: constants.drag_start_x,
        w: constants.drag_start_y,
    }
}

/// The pointer vector that the evaluator is given.
///
/// Unless the raw vector is all zero, the two vertical components are
/// replaced by their flipped values, measured from the bottom edge. Then
/// the third component changes sign if the button is not held, and the
/// fourth if no click is reported in this frame.
pub open spec fn mouse_vector_spec(
    constants: ShaderConstants,
    flipped_drag_end_y: Scalar,
    flipped_drag_start_y: Scalar,
) -> Vec4 {
    let raw = raw_mouse(constants);
    let flip = !raw.is_zero();
    let y = if flip {
        flipped_drag_end_y
    } else {
        raw.y
    };
    let w = if flip {
        flipped_drag_start_y
    } else {
        raw.w
    };
    Vec4 {
        x: raw.x,
        y,
        z: if constants.mouse_left_pressed {
            raw.z
        } else {
            raw.z.negated()
        },
        w: if constants.mouse_left_clicked {
            w
        } else {
            w.negated()
        },
    }
}

/// What the evaluator is given for one fragment.
pub open spec fn inputs_spec(constants: ShaderConstants, arithmetic: StageArithmetic) -> Inputs {
    Inputs {
        resolution: Vec3 {
            x: arithmetic.resolution_x,
            y: arithmetic.resolution_y,
            z: Scalar::zero(),
        },
        time: constants.time,
        mouse: mouse_vector_spec(
            constants,
            arithmetic.flipped_drag_end_y,
            arithmetic.flipped_drag_start_y,
        ),
        mouse_left_pressed: constants.mouse_left_pressed,
        mouse_left_clicked: constants.mouse_left_clicked,
    }
}

/// The colour that `main_image` gives every pixel: opaque red.
pub open spec fn image_color() -> Vec4 {
    Vec4 { x: Scalar::one(), y: Scalar::zero(), z: Scalar::zero(), w: Scalar::one() }
}

/// Builds the pointer vector from the block and the two flipped heights.
#[verifier::when_used_as_spec(mouse_vector_spec)]
pub fn mouse_vector(
    constants: ShaderConstants,
    flipped_drag_end_y: Scalar,
    flipped_drag_start_y: Scalar,
) -> (mouse: Vec4)
    ensures
        mouse == mouse_vector_spec(constants, flipped_drag_end_y, flipped_drag_start_y),
{
    let mut mouse = Vec4 {
        x: constants.drag_end_x,
        y: constants.drag_end_y,
        z: constants.drag_start_x,
        w: constants.drag_start_y,
    };
    if !mouse.is_zero() {
        mouse.y = flipped_drag_end_y;
        mouse.w = flipped_drag_start_y;
    }
    if !constants.mouse_left_pressed {
        mouse.z = mouse.z.negated();
    }
    if !constants.mouse_left_clicked {
        mouse.w = mouse.w.negated();
    }
    mouse
}

/// Builds what the evaluator is given for one fragment.
#[verifier::when_used_as_spec(inputs_spec)]
pub fn inputs(constants: ShaderConstants, arithmetic: StageArithmetic) -> (r: Inputs)
    ensures
        r == inputs_spec(constants, arithmetic),
{
    Inputs {
        resolution: Vec3 {
            x: arithmetic.resolution_x,
            y: arithmetic.resolution_y,
            z: Scalar::zero(),
        },
        time: constants.time,
        mouse: mouse_vector(
            constants,
            arithmetic.flipped_drag_end_y,
            arithmetic.flipped_drag_start_y,
        ),
        mouse_left_pressed: constants.mouse_left_pressed,
        mouse_left_clicked: constants.mouse_left_clicked,
    }
}

/// The pluggable part of the fragment stage: what gives one pixel its
/// colour, from the pixel's coordinate and the inputs of the frame.
///
/// `color_spec` does not take the colour that was there before, so an
/// evaluator can overwrite that colour but cannot let it show in the result.
pub trait Evaluator {
    /// The colour of the pixel at `frag_coord` under `inputs`.
    spec fn color_spec(&self, frag_coord: Vec2, inputs: Inputs) -> Vec4;

    /// Writes the colour of the pixel at `frag_coord` into `frag_color`.
    fn evaluate(&self, frag_color: &mut Vec4, frag_coord: Vec2, inputs: Inputs)
        ensures
            *final(frag_color) == self.color_spec(frag_coord, inputs),
    ;
}

/// The evaluator that paints with `main_image`.
#[derive(Clone, Copy, Debug, PartialEq, Eq, Structural)]
pub struct MainImage;

/// Paints every pixel opaque red, whatever it is given, and does not read
/// the colour it overwrites.
pub fn main_image(frag_color: &mut Vec4, _frag_coord: Vec2, _inputs: Inputs)
    ensures
        *final(frag_color) == image_color(),
{
    *frag_color = Vec4 {
        x: Scalar::one(),
        y: Scalar::zero(),
        z: Scalar::zero(),
        w: Scalar::one(),
    };
}

impl Evaluator for MainImage {
    open spec fn color_spec(&self, frag_coord: Vec2, inputs: Inputs) -> Vec4 {
        image_color()
    }

    fn evaluate(&self, frag_color: &mut Vec4, frag_coord: Vec2, inputs: Inputs) {
        main_image(frag_color, frag_coord, inputs);
    }
}

/// The coordinate at which the evaluator is run: the wrapped one.
pub open spec fn frag_coord_spec(arithmetic: StageArithmetic) -> Vec2 {
    Vec2 { x: arithmetic.wrapped_x, y: arithmetic.wrapped_y }
}

/// The fragment stage up to the output curve: starts from the colour of
/// four zeros, runs the evaluator once, at the wrapped coordinate and with
/// the inputs of this fragment, and returns what the evaluator left. The
/// caller raises the three colour channels to the power 2.2 and keeps alpha.
pub fn fs<E: Evaluator>(
    evaluator: &E,
    constants: &ShaderConstants,
    arithmetic: &StageArithmetic,
) -> (color: Vec4)
    ensures
        color == evaluator.color_spec(
            frag_coord_spec(*arithmetic),
            inputs_spec(*constants, *arithmetic),
        ),
{
    let frag_coord = Vec2 { x: arithmetic.wrapped_x, y: arithmetic.wrapped_y };
    let mut color = Vec4::zero();
    evaluator.evaluate(&mut color, frag_coord, inputs(*constants, *arithmetic));
    color
}

/// The fragment entry point: reads the block from the words that were
/// uploaded and runs the stage on it. `None` exactly when the words are not
/// a packed block.
pub fn main_fs<E: Evaluator>(
    evaluator: &E,
    push_constants: &[u32],
    arithmetic: &StageArithmetic,
) -> (output: Option<Vec4>)
    ensures
        output is Some <==> exists|c: ShaderConstants| c.words() == push_constants@,
        forall|c: ShaderConstants|
            c.words() == push_constants@ ==> output == Some(
                evaluator.color_spec(frag_coord_spec(*arithmetic), inputs_spec(c, *arithmetic)),
            ),
{
    match ShaderConstants::from_words(push_constants) {
        Some(constants) => {
            assert forall|c: ShaderConstants| c.words() == push_constants@ implies c
                == constants by {
                lemma_words_injective(c, constants);
            }
            Some(fs(evaluator, &constants, arithmetic))
        },
        None => None,
    }
}

/// Something that gives a colour for every point of a cube.
pub trait SampleCube: Copy {
    fn sample_cube(self, p: Vec3) -> Vec4;
}

/// The cube that has one colour everywhere.
#[derive(Clone, Copy, Debug, PartialEq, Eq, Structural)]
pub struct ConstantColor {
    pub color: Vec4,
}

impl SampleCube for ConstantColor {
    fn sample_cube(self, _p: Vec3) -> (r: Vec4)
        ensures
            r == self.color,
    {
        self.color
    }
}

/// The sign bits of the pointer vector give the two flags back, even where
/// a coordinate is zero: as long as the component stood without a sign
/// before, it is negative exactly when its flag is down.
pub proof fn lemma_mouse_signs_carry_flags(
    constants: ShaderConstants,
    flipped_drag_end_y: Scalar,
    flipped_drag_start_y: Scalar,
)
    ensures
        ({
            let m = mouse_vector(constants, flipped_drag_end_y, flipped_drag_start_y);
            let w = if raw_mouse(constants).is_zero() {
                constants.drag_start_y
            } else {
                flipped_drag_start_y
            };
            &&& m.x == constants.drag_end_x
            &&& !constants.drag_start_x.is_sign_negative() ==> (m.z.is_sign_negative()
                <==> !constants.mouse_left_pressed)
            &&& !w.is_sign_negative() ==> (m.w.is_sign_negative()
                <==> !constants.mouse_left_clicked)
        }),
{
}

} // verus!
