//! Camera records and the uniform record that carries a view-projection
//! matrix to the GPU.
//!
//! Every scalar is an IEEE-754 binary32 value held by its bit pattern, a
//! `u32`: the records keep and hand on such values and never compute with
//! them.

use vstd::prelude::*;

verus! {

/// Bit pattern of `0.0`.
pub const ZERO: u32 = 0x0000_0000;

/// Bit pattern of `0.5`.
pub const HALF: u32 = 0x3F00_0000;

/// Bit pattern of `1.0`.
pub const ONE: u32 = 0x3F80_0000;

/// Bit pattern of `2.0`.
pub const TWO: u32 = 0x4000_0000;

/// Bit pattern of positive infinity; every positive finite value lies below it.
pub const INFINITY: u32 = 0x7F80_0000;

/// Vertical field of view of a default camera: 45 degrees.
pub const DEFAULT_FOVY: u32 = 0x4234_0000;

/// Near clip distance of a default camera: the binary32 value nearest to 0.1.
pub const DEFAULT_ZNEAR: u32 = 0x3DCC_CCCD;

/// Far clip distance of a default camera: 100.
pub const DEFAULT_ZFAR: u32 = 0x42C8_0000;

/// `bits` is the pattern of a finite value above zero. Among such patterns
/// the order of the patterns is the order of the values.
pub open spec fn is_positive_finite(bits: u32) -> bool {
    ZERO < bits < INFINITY
}

/// A 4x4 matrix, column-major: `m[c][r]` is the entry in column `c`, row `r`.
pub type Matrix4 = [[u32; 4]; 4];

/// The entry of the identity matrix in column `c`, row `r`.
pub open spec fn identity_entry(c: int, r: int) -> u32 {
    if c == r {
        ONE
    } else {
        ZERO
    }
}

/// `m` is the identity matrix.
pub open spec fn is_identity(m: Matrix4) -> bool {
    forall|c: int, r: int| 0 <= c < 4 && 0 <= r < 4 ==> #[trigger] m[c][r] == identity_entry(c, r)
}

/// `m` halves the third coordinate of a vector and leaves the others as they
/// are: the identity matrix but for `0.5` in column 2, row 2.
pub open spec fn is_depth_correction(m: Matrix4) -> bool {
    forall|c: int, r: int|
        0 <= c < 4 && 0 <= r < 4 ==> #[trigger] m[c][r] == if c == 2 && r == 2 {
            HALF
        } else {
            identity_entry(c, r)
        }
}

/// The matrix applied after the projection, on the way from the depth
/// convention of the projection to that of the graphics API: it halves the
/// depth and leaves the other coordinates as they are.
pub const OPENGL_TO_WGPU_MATRIX: Matrix4 = [
    [ONE, ZERO, ZERO, ZERO],
    [ZERO, ONE, ZERO, ZERO],
    [ZERO, ZERO, HALF, ZERO],
    [ZERO, ZERO, ZERO, ONE],
];

/// `OPENGL_TO_WGPU_MATRIX` scales the third coordinate by one half and leaves
/// the other three untouched.
pub proof fn lemma_opengl_to_wgpu_matrix_halves_depth()
    ensures
        is_depth_correction(OPENGL_TO_WGPU_MATRIX),
{
}

/// The record that carries the view-projection matrix to the GPU.
#[derive(Clone, Copy, Debug, PartialEq, Eq)]
pub struct CameraUniform {
    view_proj: Matrix4,
}

impl CameraUniform {
    /// The matrix that the record holds.
    pub closed spec fn spec_view_proj(&self) -> Matrix4 {
        self.view_proj
    }

    /// A record that holds the identity matrix.
    pub fn new() -> (uniform: Self)
        ensures
            is_identity(uniform.spec_view_proj()),
    {
        CameraUniform {
            view_proj: [
                [ONE, ZERO, ZERO, ZERO],
                [ZERO, ONE, ZERO, ZERO],
                [ZERO, ZERO, ONE, ZERO],
                [ZERO, ZERO, ZERO, ONE],
            ],
        }
    }

    /// Replaces the whole matrix by `view_proj`, the view-projection matrix
    /// computed for the active camera.
    pub fn update_view_proj(&mut self, view_proj: Matrix4)
        ensures
            final(self).spec_view_proj() == view_proj,
    {
        self.view_proj = view_proj;
    }

    #[verifier::when_used_as_spec(spec_view_proj)]
    pub fn view_proj(&self) -> (m: Matrix4)
        ensures
            m == self.spec_view_proj(),
    {
        self.view_proj
    }
}

/// A record holds its matrix and nothing else: two records with the same
/// matrix are the same record, so storing a matrix that is already there
/// changes nothing.
pub proof fn lemma_uniform_is_its_matrix(a: CameraUniform, b: CameraUniform)
    requires
        a.spec_view_proj() == b.spec_view_proj(),
    ensures
        a == b,
{
}

/// The aspect ratio `aspect_width / aspect_height` is positive and finite, and
/// the clip distances are positive, finite and in order: `0 < znear < zfar`.
pub open spec fn valid_projection(aspect_width: u32, aspect_height: u32, znear: u32, zfar: u32) -> bool {
    &&& aspect_width > 0
    &&& aspect_height > 0
    &&& is_positive_finite(znear)
    &&& is_positive_finite(zfar)
    &&& znear < zfar
}

/// A camera that looks from `eye` at a fixed `target`.
#[derive(Clone, Copy, Debug, PartialEq, Eq)]
pub struct OrbitalCamera {
    pub eye: [u32; 3],
    pub target: [u32; 3],
    pub up: [u32; 3],
    /// The aspect ratio is `aspect_width / aspect_height`.
    pub aspect_width: u32,
    pub aspect_height: u32,
    /// Vertical field of view, in degrees.
    pub fovy: u32,
    /// Distance of the near clip plane.
    pub znear: u32,
    /// Distance of the far clip plane.
    pub zfar: u32,
}

/// A first-person camera: it looks from `eye` along the direction that
/// turning the +Z axis by `yaw` radians about the +Y axis gives.
#[derive(Clone, Copy, Debug, PartialEq, Eq)]
pub struct FPSCamera {
    pub eye: [u32; 3],
    pub up: [u32; 3],
    pub yaw: u32,
    /// The aspect ratio is `aspect_width / aspect_height`.
    pub aspect_width: u32,
    pub aspect_height: u32,
    /// Vertical field of view, in degrees.
    pub fovy: u32,
    /// Distance of the near clip plane.
    pub znear: u32,
    /// Distance of the far clip plane.
    pub zfar: u32,
}

/// The camera in use: one of the two kinds.
#[derive(Clone, Copy, Debug, PartialEq, Eq)]
pub enum Camera {
    FPS(FPSCamera),
    Orbital(OrbitalCamera),
}

impl Camera {
    /// The camera of either kind is well formed.
    pub open spec fn well_formed(&self) -> bool {
        match self {
            Camera::FPS(camera) => camera.well_formed(),
            Camera::Orbital(camera) => camera.well_formed(),
        }
    }
}

impl FPSCamera {
    /// The projection parameters are valid. That `up` is not parallel to the
    /// view direction is left to the caller.
    pub open spec fn well_formed(&self) -> bool {
        valid_projection(self.aspect_width, self.aspect_height, self.znear, self.zfar)
    }

    /// A camera at `(0, 1, 2)` with +Y up, looking along +Z, for a surface of
    /// the given size: 45 degrees of vertical field of view, clip planes at
    /// 0.1 and 100.
    pub fn default(aspect_width: u32, aspect_height: u32) -> (camera: Self)
        ensures
            camera.eye@ == seq![ZERO, ONE, TWO],
            camera.up@ == seq![ZERO, ONE, ZERO],
            camera.yaw == ZERO,
            camera.aspect_width == aspect_width,
            camera.aspect_height == aspect_height,
            camera.fovy == DEFAULT_FOVY,
            camera.znear == DEFAULT_ZNEAR,
            camera.zfar == DEFAULT_ZFAR,
            camera.well_formed() <==> aspect_width > 0 && aspect_height > 0,
    {
        FPSCamera {
            eye: [ZERO, ONE, TWO],
            up: [ZERO, ONE, ZERO],
            yaw: ZERO,
            aspect_width,
            aspect_height,
            fovy: DEFAULT_FOVY,
            znear: DEFAULT_ZNEAR,
            zfar: DEFAULT_ZFAR,
        }
    }
}

impl OrbitalCamera {
    /// The projection parameters are valid. That `up` is not parallel to the
    /// view direction is left to the caller.
    pub open spec fn well_formed(&self) -> bool {
        valid_projection(self.aspect_width, self.aspect_height, self.znear, self.zfar)
    }

    /// A camera at `(0, 1, 2)` with +Y up, looking at the origin, for a
    /// surface of the given size: 45 degrees of vertical field of view, clip
    /// planes at 0.1 and 100.
    pub fn default(aspect_width: u32, aspect_height: u32) -> (camera: Self)
        ensures
            camera.eye@ == seq![ZERO, ONE, TWO],
            camera.target@ == seq![ZERO, ZERO, ZERO],
            camera.up@ == seq![ZERO, ONE, ZERO],
            camera.aspect_width == aspect_width,
            camera.aspect_height == aspect_height,
            camera.fovy == DEFAULT_FOVY,
            camera.znear == DEFAULT_ZNEAR,
            camera.zfar == DEFAULT_ZFAR,
            camera.well_formed() <==> aspect_width > 0 && aspect_height > 0,
    {
        OrbitalCamera {
            eye: [ZERO, ONE, TWO],
            target: [ZERO, ZERO, ZERO],
            up: [ZERO, ONE, ZERO],
            aspect_width,
            aspect_height,
            fovy: DEFAULT_FOVY,
            znear: DEFAULT_ZNEAR,
            zfar: DEFAULT_ZFAR,
        }
    }
}

} // verus!
