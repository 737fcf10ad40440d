//! The view: the camera pose with its pitch limit, the projection
//! parameters, and the record of both that is uploaded each frame.

use crate::controller::Controller;
use crate::layout::{packed, push_row, words_to_bytes};
use crate::scalar::{key, less_than, lt, nan, neg, negate, HALF, ONE, ZERO};
use vstd::prelude::*;
use vstd::view::View as _;

verus! {

/// The matrix that takes clip space with depth in -1..1 to clip space with
/// depth in 0..1, by columns.
pub const OPENGL_TO_WGPU_MATRIX: [[u32; 4]; 4] = [
    [ONE, ZERO, ZERO, ZERO],
    [ZERO, ONE, ZERO, ZERO],
    [ZERO, ZERO, HALF, ZERO],
    [ZERO, ZERO, HALF, ONE],
];

/// The pattern of the largest pitch: a quarter turn less a ten-thousandth of
/// a radian.
pub const SAFE_FRAC_PI_2: u32 = 0x3fc9_0c94;

/// The pitch brought back into the limits: below the negated limit it
/// becomes the negated limit, above the limit the limit, and otherwise (a
/// NaN too) it stays.
pub open spec fn limited(pitch: u32) -> u32 {
    if lt(pitch, neg(SAFE_FRAC_PI_2)) {
        neg(SAFE_FRAC_PI_2)
    } else if lt(SAFE_FRAC_PI_2, pitch) {
        SAFE_FRAC_PI_2
    } else {
        pitch
    }
}

/// The pitch lies between the negated limit and the limit, both included.
pub open spec fn within_limits(pitch: u32) -> bool {
    !nan(pitch) && -key(SAFE_FRAC_PI_2) <= key(pitch) <= key(SAFE_FRAC_PI_2)
}

/// Brings a pitch back into the limits.
pub fn limit_pitch(pitch: u32) -> (r: u32)
    ensures
        r == limited(pitch),
        !nan(pitch) ==> within_limits(r),
        nan(pitch) ==> r == pitch,
        within_limits(pitch) ==> r == pitch,
{
    let lowest = negate(SAFE_FRAC_PI_2);
    if less_than(pitch, lowest) {
        lowest
    } else if less_than(SAFE_FRAC_PI_2, pitch) {
        SAFE_FRAC_PI_2
    } else {
        pitch
    }
}

/// Limiting leaves a pitch within the limits as it is, so limiting twice is
/// limiting once; and whatever is limited and is not a NaN lies within the
/// limits.
pub proof fn lemma_limited(pitch: u32)
    ensures
        within_limits(pitch) ==> limited(pitch) == pitch,
        limited(limited(pitch)) == limited(pitch),
        !nan(pitch) ==> within_limits(limited(pitch)),
        nan(pitch) ==> limited(pitch) == pitch,
{
}

/// Where the camera is and where it looks: a position, and yaw and pitch in
/// radians, all as single-precision bit patterns. The yaw is kept as it
/// comes, however many turns it has made; the pitch is limited by each
/// update.
#[derive(Clone, Copy, Debug)]
pub struct Camera {
    position: [u32; 3],
    yaw: u32,
    pitch: u32,
}

impl Camera {
    /// The position: x, y, z.
    pub closed spec fn spec_position(&self) -> [u32; 3] {
        self.position
    }

    /// The horizontal angle.
    pub closed spec fn spec_yaw(&self) -> u32 {
        self.yaw
    }

    /// The vertical angle.
    pub closed spec fn spec_pitch(&self) -> u32 {
        self.pitch
    }

    /// The camera with the pose given.
    pub closed spec fn posed(position: [u32; 3], yaw: u32, pitch: u32) -> Camera {
        Camera { position, yaw, pitch }
    }

    /// A camera is its pose: the camera with a pose has that pose, and the
    /// camera with the pose of another is that other.
    pub proof fn lemma_posed(self, position: [u32; 3], yaw: u32, pitch: u32)
        ensures
            Camera::posed(position, yaw, pitch).position() == position,
            Camera::posed(position, yaw, pitch).yaw() == yaw,
            Camera::posed(position, yaw, pitch).pitch() == pitch,
            Camera::posed(self.position(), self.yaw(), self.pitch()) == self,
    {
    }

    /// A camera with the pose given. The pitch is taken as it is; it is
    /// limited when the camera is updated.
    pub fn new(position: [u32; 3], yaw: u32, pitch: u32) -> (r: Self)
        ensures
            r == Camera::posed(position, yaw, pitch),
            r.position() == position,
            r.yaw() == yaw,
            r.pitch() == pitch,
    {
        Camera { position, yaw, pitch }
    }

    /// The position: x, y, z.
    #[verifier::when_used_as_spec(spec_position)]
    pub fn position(&self) -> (r: [u32; 3])
        ensures
            r == self.position(),
    {
        self.position
    }

    /// The horizontal angle.
    #[verifier::when_used_as_spec(spec_yaw)]
    pub fn yaw(&self) -> (r: u32)
        ensures
            r == self.yaw(),
    {
        self.yaw
    }

    /// The vertical angle.
    #[verifier::when_used_as_spec(spec_pitch)]
    pub fn pitch(&self) -> (r: u32)
        ensures
            r == self.pitch(),
    {
        self.pitch
    }

    /// Ends a frame's movement. The camera takes the position and yaw that
    /// the movement led to, and the pitch brought back into the limits; the
    /// controller's rotation and scroll are used up.
    pub fn update(&mut self, controller: &mut Controller, position: [u32; 3], yaw: u32, pitch: u32)
        ensures
            *final(self) == Camera::posed(position, yaw, limited(pitch)),
            final(self).position() == position,
            final(self).yaw() == yaw,
            final(self).pitch() == limited(pitch),
            !nan(pitch) ==> within_limits(final(self).pitch()),
            *final(controller) == old(controller).consumed(),
    {
        self.position = position;
        self.yaw = yaw;
        self.pitch = limit_pitch(pitch);
        controller.reset();
    }
}

/// The near plane lies beyond zero and the far plane beyond the near one.
pub open spec fn planes_ordered(znear: u32, zfar: u32) -> bool {
    lt(ZERO, znear) && lt(znear, zfar)
}

/// The shape of the viewing volume: the size of the surface in pixels, whose
/// quotient is the aspect ratio, the vertical field of view in radians, and
/// the near and far planes. The height is never zero, and the planes are
/// ordered.
#[derive(Clone, Copy, Debug)]
pub struct Projection {
    width: u32,
    height: u32,
    fovy: u32,
    znear: u32,
    zfar: u32,
}

impl Projection {
    #[verifier::type_invariant]
    spec fn inv(&self) -> bool {
        self.height >= 1 && planes_ordered(self.znear, self.zfar)
    }

    /// The numerator of the aspect ratio.
    pub closed spec fn spec_width(&self) -> u32 {
        self.width
    }

    /// The denominator of the aspect ratio.
    pub closed spec fn spec_height(&self) -> u32 {
        self.height
    }

    /// The vertical field of view.
    pub closed spec fn spec_fovy(&self) -> u32 {
        self.fovy
    }

    /// The near plane.
    pub closed spec fn spec_znear(&self) -> u32 {
        self.znear
    }

    /// The far plane.
    pub closed spec fn spec_zfar(&self) -> u32 {
        self.zfar
    }

    /// The projection of the values given.
    pub closed spec fn made(width: u32, height: u32, fovy: u32, znear: u32, zfar: u32) -> Projection {
        Projection { width, height, fovy, znear, zfar }
    }

    /// The projection after the surface took a new size: with the new size
    /// where the height is not zero, and as it was otherwise.
    pub closed spec fn resized(self, width: u32, height: u32) -> Projection {
        if height >= 1 {
            Projection { width, height, ..self }
        } else {
            self
        }
    }

    /// What resizing changes: the size, unless the new height is zero, and
    /// nothing else.
    pub proof fn lemma_resized(self, width: u32, height: u32)
        ensures
            height >= 1 ==> self.resized(width, height).width() == width,
            height >= 1 ==> self.resized(width, height).height() == height,
            height == 0 ==> self.resized(width, height) == self,
            self.resized(width, height).fovy() == self.fovy(),
            self.resized(width, height).znear() == self.znear(),
            self.resized(width, height).zfar() == self.zfar(),
    {
    }

    /// Tells whether [`Projection::new`] takes these values.
    pub fn accepts(height: u32, znear: u32, zfar: u32) -> (r: bool)
        ensures
            r == (height >= 1 && planes_ordered(znear, zfar)),
    {
        height >= 1 && less_than(ZERO, znear) && less_than(znear, zfar)
    }

    /// A projection for a surface of `width` by `height` pixels.
    pub fn new(width: u32, height: u32, fovy: u32, znear: u32, zfar: u32) -> (r: Self)
        requires
            height >= 1,
            planes_ordered(znear, zfar),
        ensures
            r == Projection::made(width, height, fovy, znear, zfar),
            r.width() == width,
            r.height() == height,
            r.fovy() == fovy,
            r.znear() == znear,
            r.zfar() == zfar,
    {
        Projection { width, height, fovy, znear, zfar }
    }

    /// Takes the new size of the surface. A height of zero has no aspect
    /// ratio: the projection then stays as it was.
    pub fn resize(&mut self, width: u32, height: u32)
        ensures
            *final(self) == old(self).resized(width, height),
            height >= 1 ==> final(self).width() == width && final(self).height() == height,
            height == 0 ==> *final(self) == *old(self),
            final(self).fovy() == old(self).fovy(),
            final(self).znear() == old(self).znear(),
            final(self).zfar() == old(self).zfar(),
    {
        proof {
            use_type_invariant(&*self);
        }
        if height >= 1 {
            self.width = width;
            self.height = height;
        }
    }

    /// The numerator of the aspect ratio.
    #[verifier::when_used_as_spec(spec_width)]
    pub fn width(&self) -> (r: u32)
        ensures
            r == self.width(),
    {
        self.width
    }

    /// The denominator of the aspect ratio, which is not zero.
    #[verifier::when_used_as_spec(spec_height)]
    pub fn height(&self) -> (r: u32)
        ensures
            r == self.height(),
            r >= 1,
    {
        proof {
            use_type_invariant(self);
        }
        self.height
    }

    /// The vertical field of view.
    #[verifier::when_used_as_spec(spec_fovy)]
    pub fn fovy(&self) -> (r: u32)
        ensures
            r == self.fovy(),
    {
        self.fovy
    }

    /// The near plane, which lies beyond zero and before the far plane.
    #[verifier::when_used_as_spec(spec_znear)]
    pub fn znear(&self) -> (r: u32)
        ensures
            r == self.znear(),
            planes_ordered(self.znear(), self.zfar()),
    {
        proof {
            use_type_invariant(self);
        }
        self.znear
    }

    /// The far plane.
    #[verifier::when_used_as_spec(spec_zfar)]
    pub fn zfar(&self) -> (r: u32)
        ensures
            r == self.zfar(),
            planes_ordered(self.znear(), self.zfar()),
    {
        proof {
            use_type_invariant(self);
        }
        self.zfar
    }
}

/// The words of a matrix in storage order: its four rows of four words, one
/// after the other.
pub open spec fn matrix_words(matrix: [[u32; 4]; 4]) -> Seq<u32> {
    matrix[0]@ + matrix[1]@ + matrix[2]@ + matrix[3]@
}

/// The point with a fourth coordinate of one.
pub open spec fn homogeneous(point: Seq<u32>) -> Seq<u32> {
    seq![point[0], point[1], point[2], ONE]
}

/// The record of the view that a shader reads: where the camera is, as a
/// homogeneous point, and the matrix that takes the world to clip space.
/// Each row of the record is four words, 16 bytes; the record is 80 bytes
/// long.
#[derive(Clone, Copy, Debug)]
pub struct ViewUniform {
    pub view_position: [u32; 4],
    pub view_proj: [[u32; 4]; 4],
}

impl ViewUniform {
    /// The 20 words of the record in the order in which they are stored: the
    /// position, then the matrix row by row.
    pub open spec fn words(&self) -> Seq<u32> {
        self.view_position@ + matrix_words(self.view_proj)
    }

    /// The record of a camera, with the matrix that was computed for it.
    pub fn new(camera: &Camera, view_proj: [[u32; 4]; 4]) -> (r: Self)
        ensures
            r.view_position@ == homogeneous(camera.position()@),
            r.view_proj == view_proj,
    {
        let position = camera.position();
        let r = ViewUniform {
            view_position: [position[0], position[1], position[2], ONE],
            view_proj,
        };
        assert(r.view_position@ =~= homogeneous(camera.position()@));
        r
    }

    /// The words of the record in storage order.
    pub fn to_words(&self) -> (r: Vec<u32>)
        ensures
            r@ == self.words(),
            r@.len() == 20,
    {
        let mut words: Vec<u32> = Vec::new();
        push_row(&mut words, &self.view_position);
        push_row(&mut words, &self.view_proj[0]);
        push_row(&mut words, &self.view_proj[1]);
        push_row(&mut words, &self.view_proj[2]);
        push_row(&mut words, &self.view_proj[3]);
        assert(words@ =~= self.words());
        words
    }

    /// The bytes of the record as they are written to the buffer: a whole
    /// number of rows of 16 bytes.
    pub fn to_bytes(&self) -> (r: Vec<u8>)
        ensures
            packed(self.words(), r@),
            r@.len() == 80,
            r@.len() % 16 == 0,
    {
        let words = self.to_words();
        words_to_bytes(&words)
    }
}

/// The camera, the projection and the controller that moves the camera.
#[derive(Clone, Copy, Debug)]
pub struct View {
    pub camera: Camera,
    pub projection: Projection,
    pub controller: Controller,
}

impl View {
    /// Starts a view of which nothing is set yet.
    pub fn build() -> (r: ViewBuilder<Option<Camera>, Option<Projection>, Option<Controller>>)
        ensures
            r.camera is None,
            r.projection is None,
            r.controller is None,
    {
        ViewBuilder { camera: None, projection: None, controller: None }
    }

    /// The view after a frame's movement that led to the pose given.
    pub open spec fn updated(self, position: [u32; 3], yaw: u32, pitch: u32) -> View {
        View {
            camera: Camera::posed(position, yaw, limited(pitch)),
            controller: self.controller.consumed(),
            projection: self.projection,
        }
    }

    /// Ends a frame's movement: the camera takes the pose that the movement
    /// led to, with the pitch limited, and the pending rotation and scroll
    /// are used up. The projection stays.
    pub fn update(&mut self, position: [u32; 3], yaw: u32, pitch: u32)
        ensures
            *final(self) == old(self).updated(position, yaw, pitch),
            final(self).camera.position() == position,
            final(self).camera.yaw() == yaw,
            final(self).camera.pitch() == limited(pitch),
            !nan(pitch) ==> within_limits(final(self).camera.pitch()),
    {
        self.camera.update(&mut self.controller, position, yaw, pitch);
    }

    /// Takes the new size of the surface, as [`Projection::resize`] does.
    /// The camera and the controller stay.
    pub fn resize(&mut self, width: u32, height: u32)
        ensures
            *final(self) == (View {
                projection: old(self).projection.resized(width, height),
                ..*old(self)
            }),
    {
        self.projection.resize(width, height);
    }

    /// The record of the view, with the view-projection matrix that was
    /// computed for its camera and projection.
    pub fn as_uniform(&self, view_proj: [[u32; 4]; 4]) -> (r: ViewUniform)
        ensures
            r.view_position@ == homogeneous(self.camera.position()@),
            r.view_proj == view_proj,
    {
        ViewUniform::new(&self.camera, view_proj)
    }

    /// The 80 bytes of the record of the view, as they are written to the
    /// buffer at offset 0.
    pub fn uniform_bytes(&self, view_proj: [[u32; 4]; 4]) -> (r: Vec<u8>)
        ensures
            packed(homogeneous(self.camera.position()@) + matrix_words(view_proj), r@),
            r@.len() == 80,
    {
        let uniform = self.as_uniform(view_proj);
        uniform.to_bytes()
    }
}

/// After an update nothing is pending, and a second update that finds the
/// camera where the first one left it changes nothing: the pitch was limited
/// then and stays, and the controller has nothing left to use up.
pub proof fn lemma_update_at_rest(view: View, position: [u32; 3], yaw: u32, pitch: u32)
    ensures
        ({
            let first = view.updated(position, yaw, pitch);
            &&& first.controller.idle()
            &&& first.updated(first.camera.position(), first.camera.yaw(), first.camera.pitch())
                == first
        }),
{
    lemma_limited(pitch);
}

/// A view in the making. Each of the three parts has the type of what was
/// set for it, so that only a builder with all three set can be finished.
pub struct ViewBuilder<C, P, L> {
    pub camera: C,
    pub projection: P,
    pub controller: L,
}

impl<C, P, L> ViewBuilder<C, P, L> {
    /// Sets the camera.
    pub fn camera(self, position: [u32; 3], yaw: u32, pitch: u32) -> (r: ViewBuilder<Camera, P, L>)
        ensures
            r.camera == Camera::posed(position, yaw, pitch),
            r.camera.position() == position,
            r.camera.yaw() == yaw,
            r.camera.pitch() == pitch,
            r.projection == self.projection,
            r.controller == self.controller,
    {
        ViewBuilder {
            camera: Camera::new(position, yaw, pitch),
            projection: self.projection,
            controller: self.controller,
        }
    }

    /// Sets the projection.
    pub fn projection(self, width: u32, height: u32, fovy: u32, znear: u32, zfar: u32) -> (r:
        ViewBuilder<C, Projection, L>)
        requires
            height >= 1,
            planes_ordered(znear, zfar),
        ensures
            r.projection == Projection::made(width, height, fovy, znear, zfar),
            r.projection.width() == width,
            r.projection.height() == height,
            r.projection.fovy() == fovy,
            r.projection.znear() == znear,
            r.projection.zfar() == zfar,
            r.camera == self.camera,
            r.controller == self.controller,
    {
        ViewBuilder {
            projection: Projection::new(width, height, fovy, znear, zfar),
            camera: self.camera,
            controller: self.controller,
        }
    }

    /// Sets the controller.
    pub fn controller(self, controller: Controller) -> (r: ViewBuilder<C, P, Controller>)
        ensures
            r.controller == controller,
            r.camera == self.camera,
            r.projection == self.projection,
    {
        ViewBuilder { controller, camera: self.camera, projection: self.projection }
    }
}

impl ViewBuilder<Camera, Projection, Controller> {
    /// The view of the three parts.
    pub fn finalize(self) -> (r: View)
        ensures
            r.camera == self.camera,
            r.projection == self.projection,
            r.controller == self.controller,
    {
        View { camera: self.camera, projection: self.projection, controller: self.controller }
    }
}

} // verus!
