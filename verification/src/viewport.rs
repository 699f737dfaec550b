//! The zoom-and-pan state of the image viewer, kept as plain values, and
//! rasteroid's `ZoomPanViewport`, which updates it.

use rasteroid::image_extended::ZoomPanViewport;
use vstd::prelude::*;

verus! {

/// Zoom and pan state for an image shown in a fixed container, with the
/// fields of rasteroid's `ZoomPanViewport`.
#[derive(Clone, Copy, PartialEq, Eq, Structural, Debug)]
pub struct ZoomPan {
    pub container_width: u32,
    pub container_height: u32,
    pub image_width: u32,
    pub image_height: u32,
    pub zoom: usize,
    pub pan_x: i32,
    pub pan_y: i32,
}

/// `(min_pan_x, max_pan_x, min_pan_y, max_pan_y)` that rasteroid's
/// `ZoomPanViewport::get_pan_limits` gives for a container, an image and a zoom
/// level. It computes them in floating point.
pub uninterp spec fn spec_pan_limits(
    container_width: u32,
    container_height: u32,
    image_width: u32,
    image_height: u32,
    zoom: usize,
) -> (i32, i32, i32, i32);

/// The shape of pan limits that rasteroid's source shows: symmetric around
/// zero, and on each axis no more than the image size, and no more than half
/// of it plus the rounding of that half in `f32` (at most 64).
pub open spec fn limits_shape(l: (i32, i32, i32, i32), image_width: u32, image_height: u32) -> bool {
    &&& l.0 == -l.1
    &&& l.2 == -l.3
    &&& 0 <= l.1 <= image_width
    &&& 0 <= l.3 <= image_height
    &&& 2 * l.1 <= image_width + 128
    &&& 2 * l.3 <= image_height + 128
}

/// `v` clamped into `[lo, hi]`, as `i32::clamp` gives it.
pub open spec fn clamp(v: int, lo: int, hi: int) -> int {
    if v < lo {
        lo
    } else if v > hi {
        hi
    } else {
        v
    }
}

impl ZoomPan {
    /// The pan limits at the current zoom.
    pub open spec fn limits(self) -> (i32, i32, i32, i32) {
        spec_pan_limits(
            self.container_width,
            self.container_height,
            self.image_width,
            self.image_height,
            self.zoom,
        )
    }

    /// Zoom is at least one and the pan lies within the limits.
    pub open spec fn wf(self) -> bool {
        &&& self.zoom >= 1
        &&& limits_shape(self.limits(), self.image_width, self.image_height)
        &&& self.limits().0 <= self.pan_x <= self.limits().1
        &&& self.limits().2 <= self.pan_y <= self.limits().3
    }

    /// The same state with the pan clamped into the limits.
    pub open spec fn clamped(self) -> ZoomPan {
        ZoomPan {
            pan_x: clamp(self.pan_x as int, self.limits().0 as int, self.limits().1 as int) as i32,
            pan_y: clamp(self.pan_y as int, self.limits().2 as int, self.limits().3 as int) as i32,
            ..self
        }
    }

    /// `set_zoom`: the zoom becomes `zoom` (at least one), then the pan is clamped.
    pub open spec fn spec_set_zoom(self, zoom: usize) -> ZoomPan {
        ZoomPan {
            zoom: if zoom >= 1 {
                zoom
            } else {
                1
            },
            ..self
        }.clamped()
    }

    /// `set_pan`: the pan becomes `(x, y)`, clamped into the limits.
    pub open spec fn spec_set_pan(self, x: i32, y: i32) -> ZoomPan {
        ZoomPan { pan_x: x, pan_y: y, ..self }.clamped()
    }

    /// Whether `adjust_pan` moves the horizontal pan by `dx`.
    pub open spec fn moves_x(self, dx: i32) -> bool {
        dx != 0 && self.limits().0 <= self.pan_x + dx <= self.limits().1
    }

    /// Whether `adjust_pan` moves the vertical pan by `dy`.
    pub open spec fn moves_y(self, dy: i32) -> bool {
        dy != 0 && self.limits().2 <= self.pan_y + dy <= self.limits().3
    }

    /// `adjust_pan`: each axis moves by its delta when the delta is not zero and
    /// the new pan stays within the limits; reports whether either axis moved.
    pub open spec fn spec_adjust_pan(self, dx: i32, dy: i32) -> (bool, ZoomPan) {
        (
            self.moves_x(dx) || self.moves_y(dy),
            ZoomPan {
                pan_x: if self.moves_x(dx) {
                    (self.pan_x + dx) as i32
                } else {
                    self.pan_x
                },
                pan_y: if self.moves_y(dy) {
                    (self.pan_y + dy) as i32
                } else {
                    self.pan_y
                },
                ..self
            },
        )
    }

    /// `update_image_size`: new image dimensions, then the pan is clamped.
    pub open spec fn spec_update_image_size(self, width: u32, height: u32) -> ZoomPan {
        ZoomPan { image_width: width, image_height: height, ..self }.clamped()
    }

    /// rasteroid's `ZoomPanViewport::new`: zoom one, no pan. The limits of the
    /// new state have the shape its source shows.
    #[verifier::external_body]
    pub(crate) fn new(
        container_width: u32,
        container_height: u32,
        image_width: u32,
        image_height: u32,
    ) -> (r: ZoomPan)
        ensures
            r == (ZoomPan {
                container_width,
                container_height,
                image_width,
                image_height,
                zoom: 1,
                pan_x: 0,
                pan_y: 0,
            }),
            limits_shape(r.limits(), image_width, image_height),
    {
        let vp = ZoomPanViewport::new(container_width, container_height, image_width, image_height);
        let (cw, ch) = vp.container_size();
        let (iw, ih) = vp.image_size();
        ZoomPan {
            container_width: cw,
            container_height: ch,
            image_width: iw,
            image_height: ih,
            zoom: vp.zoom(),
            pan_x: vp.pan_x(),
            pan_y: vp.pan_y(),
        }
    }

    /// rasteroid's `ZoomPanViewport::get_pan_limits`, on a viewport built from
    /// this state (for a well-formed state `set_zoom` and `set_pan` keep the
    /// values they are given).
    #[verifier::external_body]
    pub(crate) fn pan_limits(&self) -> (r: (i32, i32, i32, i32))
        requires
            self.wf(),
        ensures
            r == spec_pan_limits(
                self.container_width,
                self.container_height,
                self.image_width,
                self.image_height,
                self.zoom,
            ),
    {
        let mut vp = ZoomPanViewport::new(
            self.container_width,
            self.container_height,
            self.image_width,
            self.image_height,
        );
        vp.set_zoom(self.zoom);
        vp.set_pan(self.pan_x, self.pan_y);
        vp.get_pan_limits()
    }

    /// rasteroid's `ZoomPanViewport::set_zoom`: zoom at least one, pan clamped
    /// into the limits at the new zoom.
    #[verifier::external_body]
    pub(crate) fn set_zoom(&mut self, zoom: usize)
        requires
            old(self).wf(),
        ensures
            *final(self) == old(self).spec_set_zoom(zoom),
            limits_shape(final(self).limits(), final(self).image_width, final(self).image_height),
    {
        let mut vp = ZoomPanViewport::new(
            self.container_width,
            self.container_height,
            self.image_width,
            self.image_height,
        );
        vp.set_zoom(self.zoom);
        vp.set_pan(self.pan_x, self.pan_y);
        vp.set_zoom(zoom);
        self.zoom = vp.zoom();
        self.pan_x = vp.pan_x();
        self.pan_y = vp.pan_y();
    }

    /// rasteroid's `ZoomPanViewport::set_pan`: the pan, clamped into the limits.
    #[verifier::external_body]
    pub(crate) fn set_pan(&mut self, pan_x: i32, pan_y: i32)
        requires
            old(self).wf(),
        ensures
            *final(self) == old(self).spec_set_pan(pan_x, pan_y),
    {
        let mut vp = ZoomPanViewport::new(
            self.container_width,
            self.container_height,
            self.image_width,
            self.image_height,
        );
        vp.set_zoom(self.zoom);
        vp.set_pan(self.pan_x, self.pan_y);
        vp.set_pan(pan_x, pan_y);
        self.pan_x = vp.pan_x();
        self.pan_y = vp.pan_y();
    }

    /// rasteroid's `ZoomPanViewport::adjust_pan`. It adds each delta to the pan
    /// in `i32`, which must not overflow.
    #[verifier::external_body]
    pub(crate) fn adjust_pan(&mut self, delta_x: i32, delta_y: i32) -> (r: bool)
        requires
            old(self).wf(),
            i32::MIN <= old(self).pan_x + delta_x <= i32::MAX,
            i32::MIN <= old(self).pan_y + delta_y <= i32::MAX,
        ensures
            (r, *final(self)) == old(self).spec_adjust_pan(delta_x, delta_y),
    {
        let mut vp = ZoomPanViewport::new(
            self.container_width,
            self.container_height,
            self.image_width,
            self.image_height,
        );
        vp.set_zoom(self.zoom);
        vp.set_pan(self.pan_x, self.pan_y);
        let moved = vp.adjust_pan(delta_x, delta_y);
        self.pan_x = vp.pan_x();
        self.pan_y = vp.pan_y();
        moved
    }

    /// rasteroid's `ZoomPanViewport::update_image_size`: new image dimensions,
    /// pan clamped into the new limits, which have the shape its source shows.
    #[verifier::external_body]
    pub(crate) fn update_image_size(&mut self, width: u32, height: u32)
        requires
            old(self).wf(),
        ensures
            *final(self) == old(self).spec_update_image_size(width, height),
            limits_shape(final(self).limits(), width, height),
    {
        let mut vp = ZoomPanViewport::new(
            self.container_width,
            self.container_height,
            self.image_width,
            self.image_height,
        );
        vp.set_zoom(self.zoom);
        vp.set_pan(self.pan_x, self.pan_y);
        vp.update_image_size(width, height);
        let (iw, ih) = vp.image_size();
        self.image_width = iw;
        self.image_height = ih;
        self.pan_x = vp.pan_x();
        self.pan_y = vp.pan_y();
    }
}

} // verus!
