//! The camera and the uniform that carries its matrix to the vertex shader.
//!
//! Numbers are bit patterns of 32-bit floats. The matrix product itself is floating
//! point arithmetic and is computed by the host; this module fixes the camera's
//! parameters, the depth correction that the product starts with, and the uniform's
//! contents and bytes.
use vstd::prelude::*;
use crate::bytes::{cast_words, words_bytes, Endian};
use crate::vertex::{HALF, ONE, ZERO};

verus! {

/// Bit pattern of 2.0.
pub const TWO: u32 = 0x4000_0000;

/// Bit pattern of 45.0.
pub const FORTY_FIVE: u32 = 0x4234_0000;

/// Bit pattern of 0.1.
pub const ONE_TENTH: u32 = 0x3DCC_CCCD;

/// Bit pattern of 100.0.
pub const HUNDRED: u32 = 0x42C8_0000;

/// A 4x4 matrix, column by column: `m[c][r]` is row `r` of column `c`.
pub type Matrix = [[u32; 4]; 4];

/// Width over height of the surface, kept as the two sizes it is the ratio of.
#[derive(Clone, Copy, Debug, PartialEq, Eq, Structural)]
pub struct Aspect {
    pub width: u32,
    pub height: u32,
}

/// A perspective camera that looks from `eye` at the point `target`.
///
/// `target` is a point, not a direction: the view matrix is the right-handed
/// look-at matrix. `fovy` is the vertical field of view in degrees.
#[derive(Clone, Copy, Debug, PartialEq, Eq)]
pub struct Camera {
    pub eye: [u32; 3],
    pub target: [u32; 3],
    pub up: [u32; 3],
    pub aspect: Aspect,
    pub fovy: u32,
    pub znear: u32,
    pub zfar: u32,
}

impl Camera {
    /// The session's camera for a given aspect ratio: at (0, 2, 2), looking at the
    /// origin, y up, 45 degrees of vertical field of view, clipping at 0.1 and 100.
    pub open spec fn with_aspect(aspect: Aspect) -> Camera {
        Camera {
            eye: [ZERO, TWO, TWO],
            target: [ZERO, ZERO, ZERO],
            up: [ZERO, ONE, ZERO],
            aspect,
            fovy: FORTY_FIVE,
            znear: ONE_TENTH,
            zfar: HUNDRED,
        }
    }

    /// The session's camera for a given aspect ratio.
    pub fn new(aspect: Aspect) -> (r: Camera)
        ensures
            r == Camera::with_aspect(aspect),
    {
        Camera {
            eye: [ZERO, TWO, TWO],
            target: [ZERO, ZERO, ZERO],
            up: [ZERO, ONE, ZERO],
            aspect,
            fovy: FORTY_FIVE,
            znear: ONE_TENTH,
            zfar: HUNDRED,
        }
    }
}

/// The identity matrix.
pub open spec fn identity() -> Matrix {
    [[ONE, ZERO, ZERO, ZERO], [ZERO, ONE, ZERO, ZERO], [ZERO, ZERO, ONE, ZERO], [
        ZERO,
        ZERO,
        ZERO,
        ONE,
    ]]
}

/// The depth correction: it leaves x, y and w alone and replaces z by
/// `0.5 * z + 0.5 * w`.
pub open spec fn depth_correction() -> Matrix {
    [[ONE, ZERO, ZERO, ZERO], [ZERO, ONE, ZERO, ZERO], [ZERO, ZERO, HALF, ZERO], [
        ZERO,
        ZERO,
        HALF,
        ONE,
    ]]
}

/// The matrix that a view-projection product starts with, so that depth runs from 0
/// at the near plane to 1 at the far plane.
pub fn opengl_to_wgpu_matrix() -> (r: Matrix)
    ensures
        r == depth_correction(),
{
    [[ONE, ZERO, ZERO, ZERO], [ZERO, ONE, ZERO, ZERO], [ZERO, ZERO, HALF, ZERO], [
        ZERO,
        ZERO,
        HALF,
        ONE,
    ]]
}

/// Twice the number that an entry of the depth correction stands for.
pub open spec fn doubled(bits: u32) -> int {
    if bits == ONE {
        2
    } else if bits == HALF {
        1
    } else {
        0
    }
}

/// Twice row `row` of `m` applied to the point `(x, y, z, w)`, for a matrix whose
/// entries are all 0, 0.5 or 1.
pub open spec fn doubled_row(m: Matrix, row: int, x: int, y: int, z: int, w: int) -> int {
    doubled(m[0][row]) * x + doubled(m[1][row]) * y + doubled(m[2][row]) * z + doubled(
        m[3][row],
    ) * w
}

/// In exact arithmetic the depth correction keeps x, y and w and sends z to
/// `(z + w) / 2`. A point on the near plane of a projection with depth from -1 to 1
/// has `z == -w` and gets depth 0; one on the far plane has `z == w` and gets a z
/// equal to its w, which is depth 1.
pub proof fn lemma_depth_correction_range(x: int, y: int, z: int, w: int)
    ensures
        doubled_row(depth_correction(), 0, x, y, z, w) == 2 * x,
        doubled_row(depth_correction(), 1, x, y, z, w) == 2 * y,
        doubled_row(depth_correction(), 2, x, y, z, w) == z + w,
        doubled_row(depth_correction(), 3, x, y, z, w) == 2 * w,
        z == -w ==> doubled_row(depth_correction(), 2, x, y, z, w) == 0,
        z == w ==> doubled_row(depth_correction(), 2, x, y, z, w) == doubled_row(
            depth_correction(),
            3,
            x,
            y,
            z,
            w,
        ),
{
    let m = depth_correction();
    assert(m[0] == [ONE, ZERO, ZERO, ZERO]);
    assert(m[1] == [ZERO, ONE, ZERO, ZERO]);
    assert(m[2] == [ZERO, ZERO, HALF, ZERO]);
    assert(m[3] == [ZERO, ZERO, HALF, ONE]);
    assert(m[0][0] == ONE && m[1][0] == ZERO && m[2][0] == ZERO && m[3][0] == ZERO);
    assert(m[0][1] == ZERO && m[1][1] == ONE && m[2][1] == ZERO && m[3][1] == ZERO);
    assert(m[0][2] == ZERO && m[1][2] == ZERO && m[2][2] == HALF && m[3][2] == HALF);
    assert(m[0][3] == ZERO && m[1][3] == ZERO && m[2][3] == ZERO && m[3][3] == ONE);
}

/// The sixteen words of a matrix, column after column.
pub open spec fn matrix_words(m: Matrix) -> Seq<u32> {
    Seq::new(16, |i: int| m[i / 4][i % 4])
}

/// The matrix as the vertex shader reads it.
#[derive(Clone, Copy, Debug, PartialEq, Eq)]
pub struct CameraUniform {
    pub vp_mat: Matrix,
}

impl CameraUniform {
    /// A uniform that holds the identity.
    pub fn new() -> (r: CameraUniform)
        ensures
            r.vp_mat == identity(),
    {
        CameraUniform {
            vp_mat: [[ONE, ZERO, ZERO, ZERO], [ZERO, ONE, ZERO, ZERO], [ZERO, ZERO, ONE, ZERO], [
                ZERO,
                ZERO,
                ZERO,
                ONE,
            ]],
        }
    }

    /// Stores the view-projection matrix computed for the camera.
    pub fn update(&mut self, vp_mat: Matrix)
        ensures
            final(self).vp_mat == vp_mat,
    {
        self.vp_mat = vp_mat;
    }

    /// The contents of the uniform buffer: the sixteen words of the matrix, column
    /// after column, as bytes in the machine's byte order.
    pub fn bytes(&self) -> (r: Vec<u8>)
        ensures
            r@ == words_bytes(matrix_words(self.vp_mat), Endian::Little) || r@ == words_bytes(
                matrix_words(self.vp_mat),
                Endian::Big,
            ),
            r@.len() == 64,
    {
        let m = &self.vp_mat;
        let words = vec![
            m[0][0],
            m[0][1],
            m[0][2],
            m[0][3],
            m[1][0],
            m[1][1],
            m[1][2],
            m[1][3],
            m[2][0],
            m[2][1],
            m[2][2],
            m[2][3],
            m[3][0],
            m[3][1],
            m[3][2],
            m[3][3],
        ];
        assert(words@ =~= matrix_words(self.vp_mat));
        cast_words(words.as_slice())
    }
}

} // verus!
