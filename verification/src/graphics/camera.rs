//! The camera: maps pixel coordinates to primary rays and drives the
//! per-pixel render loop.

use vstd::prelude::*;

use crate::constants::FX_SCALE;
use crate::constants::MAX_REFLECTION_RECRUSTION;
use crate::fx::Fx;
use crate::fx::fx_add;
use crate::fx::fx_clip;
use crate::fx::fx_div;
use crate::fx::fx_divi;
use crate::fx::fx_mul;
use crate::fx::fx_sub;
use crate::graphics::canvas::Canvas;
use crate::graphics::color::Color;
use crate::math::matrix::m_det;
use crate::math::matrix::m_inverse;
use crate::math::matrix::m_mul_point;
use crate::math::point::Point;
use crate::math::ray::Ray;
use crate::math::ray::RayV;
use crate::math::transformations::Transformation;
use crate::constants::EPSILON_RAW;
use crate::fx::s_abs;
use crate::math::vector::V3;
use crate::math::vector::Vector;
use crate::math::vector::normalizable;
use crate::math::vector::v_magnitude;
use crate::math::vector::v_normalize;
use crate::math::vector::v_sub;
use crate::objects::world::World;
use crate::objects::world::spec_color_at;
use crate::trig::fx_tan;

verus! {

/// A camera with the canvas always one unit away.
#[derive(Clone, Copy, Debug, PartialEq)]
pub struct Camera {
    /// horizontal pixel count
    pub hsize: usize,
    /// vertical pixel count
    pub vsize: usize,
    /// field of view (angle in radians)
    pub fov: Fx,
    /// defaults to identity
    pub transform: Transformation,
    /// pixel size in world units
    pub pixel_size: Fx,
    /// half the width of the canvas, in world units
    pub half_width: Fx,
    /// half the height of the canvas, in world units
    pub half_height: Fx,
}

/// Half the extent of the canvas along the narrower dimension:
/// `tan(fov / 2)`.
pub open spec fn spec_half_view(fov: int) -> int {
    fx_tan(fx_divi(fov, 2))
}

/// Half the canvas width: the full half view when the canvas is at least
/// as wide as tall, else scaled down by the aspect ratio, so that the
/// field of view always spans the narrower dimension.
pub open spec fn spec_half_width(hsize: int, vsize: int, fov: int) -> int {
    let half_view = spec_half_view(fov);
    let aspect = fx_div(fx_clip(hsize * FX_SCALE), fx_clip(vsize * FX_SCALE));
    if aspect < FX_SCALE as int {
        fx_mul(half_view, aspect)
    } else {
        half_view
    }
}

/// Half the canvas height; see `spec_half_width`.
pub open spec fn spec_half_height(hsize: int, vsize: int, fov: int) -> int {
    let half_view = spec_half_view(fov);
    let aspect = fx_div(fx_clip(hsize * FX_SCALE), fx_clip(vsize * FX_SCALE));
    if aspect < FX_SCALE as int {
        half_view
    } else {
        fx_div(half_view, aspect)
    }
}

/// The size of one pixel in world units: the full extent of the narrower
/// dimension, `2 * tan(fov / 2)`, divided by the larger pixel count.
pub open spec fn spec_pixel_size(hsize: int, vsize: int, fov: int) -> int {
    let half_view = spec_half_view(fov);
    let denom = if hsize >= vsize {
        hsize
    } else {
        vsize
    };
    fx_div(fx_add(half_view, half_view), fx_clip(denom * FX_SCALE))
}

/// The pixel size does not depend on which dimension is the wider one:
/// swapping the pixel counts leaves it unchanged, for every field of
/// view.
pub proof fn lemma_pixel_size_symmetric(hsize: int, vsize: int, fov: int)
    ensures
        spec_pixel_size(hsize, vsize, fov) == spec_pixel_size(vsize, hsize, fov),
{
}

/// The center of pixel `(x, y)` carried to world space through the
/// inverse view transform.
pub open spec fn spec_pixel_point(cam: Camera, x: int, y: int) -> V3 {
    let half = (FX_SCALE as int) / 2;
    let xoffset = fx_mul(fx_add(fx_clip(x * FX_SCALE), half), cam.pixel_size@);
    let yoffset = fx_mul(fx_add(fx_clip(y * FX_SCALE), half), cam.pixel_size@);
    let world_x = fx_sub(cam.half_width@, xoffset);
    let world_y = fx_sub(cam.half_height@, yoffset);
    m_mul_point(m_inverse(cam.transform@), V3 { x: world_x, y: world_y, z: -(FX_SCALE as int) })
}

/// The camera's position in world space.
pub open spec fn spec_camera_origin(cam: Camera) -> V3 {
    m_mul_point(m_inverse(cam.transform@), V3 { x: 0, y: 0, z: 0 })
}

/// The unnormalized direction from the camera to the pixel's center.
pub open spec fn spec_pixel_delta(cam: Camera, x: int, y: int) -> V3 {
    v_sub(spec_pixel_point(cam, x, y), spec_camera_origin(cam))
}

/// The primary ray through the center of pixel `(x, y)`: from the camera
/// origin along the normalized direction to the pixel.
pub open spec fn spec_ray_for_pixel(cam: Camera, x: int, y: int) -> RayV {
    RayV {
        origin: spec_camera_origin(cam),
        direction: v_normalize(spec_pixel_delta(cam, x, y)),
    }
}

impl Camera {
    /// A new camera with the identity view transform and the derived
    /// pixel geometry.
    pub fn new(hsize: usize, vsize: usize, fov: Fx) -> (r: Camera)
        ensures
            r.hsize == hsize,
            r.vsize == vsize,
            r.fov == fov,
            r.transform@ =~= crate::math::matrix::m_identity(),
            r.pixel_size@ == spec_pixel_size(hsize as int, vsize as int, fov@),
            r.half_width@ == spec_half_width(hsize as int, vsize as int, fov@),
            r.half_height@ == spec_half_height(hsize as int, vsize as int, fov@),
    {
        let transform: Transformation = Transformation::identity();

        // half the extent of the narrower dimension
        let half_view: Fx = fov.divi(2).tan();
        let hf: Fx = Fx::from_usize(hsize);
        let vf: Fx = Fx::from_usize(vsize);
        let aspect: Fx = hf.div(vf);

        let half_width: Fx;
        let half_height: Fx;
        if aspect.raw < FX_SCALE {
            // taller than wide
            half_width = half_view.mul(aspect);
            half_height = half_view;
        } else {
            half_width = half_view;
            half_height = half_view.div(aspect);
        }
        let denom: usize = if hsize >= vsize {
            hsize
        } else {
            vsize
        };
        let pixel_size: Fx = half_view.add(half_view).div(Fx::from_usize(denom));

        Camera { hsize, vsize, fov, transform, pixel_size, half_width, half_height }
    }

    /// Returns the ray from the camera through the center of the pixel at
    /// `(x, y)` on the canvas.  The camera's view transform must be
    /// invertible.  For a well-conditioned camera-to-pixel offset the
    /// direction's magnitude is within the geometric epsilon of exactly
    /// one.
    pub fn ray_for_pixel(&self, x: usize, y: usize) -> (r: Ray)
        requires
            m_det(self.transform@) != 0,
        ensures
            r@ == spec_ray_for_pixel(*self, x as int, y as int),
            normalizable(spec_pixel_delta(*self, x as int, y as int)) ==> s_abs(
                v_magnitude(r.direction@) - FX_SCALE as int,
            ) < EPSILON_RAW as int,
    {
        let half: Fx = Fx { raw: 2147483648 };
        // offset from the edge of the canvas to the pixel's center
        let xoffset: Fx = Fx::from_usize(x).add(half).mul(self.pixel_size);
        let yoffset: Fx = Fx::from_usize(y).add(half).mul(self.pixel_size);

        // untransformed coordinates of the pixel in world space
        let world_x: Fx = self.half_width.sub(xoffset);
        let world_y: Fx = self.half_height.sub(yoffset);

        let transformation: Transformation = match self.transform.inverse() {
            Some(t) => t,
            None => {
                // unreachable: the transform is invertible by requires
                proof {
                    assert(false);
                }
                Transformation::identity()
            },
        };

        // transform the canvas point and the origin with the camera
        // matrix
        let pixel: Point = transformation.mul_point(
            &Point::new(world_x, world_y, Fx::one().neg()),
        );
        let origin: Point = transformation.mul_point(&crate::math::point::origin());
        let direction: Vector = pixel.subtract(&origin).normalize();

        Ray::new(origin, direction)
    }

    /// Same as `ray_for_pixel`, but converts a flat row-major index to
    /// `(x, y)` first.
    fn ray_for_pixel_i(&self, i: usize) -> (r: Ray)
        requires
            m_det(self.transform@) != 0,
            self.hsize > 0,
        ensures
            r@ == spec_ray_for_pixel(
                *self,
                (i as int) % (self.hsize as int),
                (i as int) / (self.hsize as int),
            ),
    {
        let y: usize = i / self.hsize;
        let x: usize = i % self.hsize;
        self.ray_for_pixel(x, y)
    }

    /// Renders the world: every pixel of the canvas holds the color seen
    /// along its primary ray, computed with the standard bounce budget.
    /// Each pixel is independent of every other.
    pub fn render(&self, world: World) -> (r: Canvas)
        requires
            m_det(self.transform@) != 0,
            self.hsize * self.vsize <= usize::MAX,
        ensures
            r.wf(),
            r.width == self.hsize,
            r.height == self.vsize,
            forall|i: int|
                0 <= i < r.grid@.len() ==> #[trigger] r.grid@[i]@ == spec_color_at(
                    world,
                    spec_ray_for_pixel(
                        *self,
                        i % (self.hsize as int),
                        i / (self.hsize as int),
                    ),
                    MAX_REFLECTION_RECRUSTION as nat,
                ),
    {
        proof {
            assert(0 <= (self.hsize as int) * (self.vsize as int)) by (nonlinear_arith)
                requires
                    0 <= self.hsize as int,
                    0 <= self.vsize as int,
            ;
        }
        let total: usize = self.hsize * self.vsize;
        let mut grid: Vec<Color> = Vec::new();
        let mut i: usize = 0;
        while i < total
            invariant
                0 <= i <= total,
                total == self.hsize * self.vsize,
                m_det(self.transform@) != 0,
                grid@.len() == i,
                forall|k: int|
                    0 <= k < i ==> #[trigger] grid@[k]@ == spec_color_at(
                        world,
                        spec_ray_for_pixel(
                            *self,
                            k % (self.hsize as int),
                            k / (self.hsize as int),
                        ),
                        MAX_REFLECTION_RECRUSTION as nat,
                    ),
            decreases total - i,
        {
            proof {
                assert(self.hsize > 0) by (nonlinear_arith)
                    requires
                        0 <= i as int,
                        (i as int) < (self.hsize as int) * (self.vsize as int),
                        0 <= self.hsize as int,
                ;
            }
            let ray: Ray = self.ray_for_pixel_i(i);
            let color: Color = world.color_at(ray, MAX_REFLECTION_RECRUSTION);
            grid.push(color);
            i = i + 1;
        }
        Canvas { width: self.hsize, height: self.vsize, grid }
    }
}

} // verus!
