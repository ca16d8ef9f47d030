//! 2D camera that defines what region is shown on screen.
//!
//! Every mutator and accessor routes to the matching engine call with no
//! caching and no extra validation; the numeric semantics are the engine's
//! documented ones — angles in degrees, zoom as a multiplicative factor, the
//! viewport as a rectangle of factors of the target size (1.0, stored as
//! 1000 thousandths, is the whole target).

use vstd::prelude::*;
use crate::geometry::{Fixed, Rect, Vector2};

verus! {

/// 2D camera: you can scroll, rotate or zoom the whole scene without
/// altering how the drawable objects themselves are defined.
#[derive(Clone, Copy, PartialEq, Eq, Structural, Debug)]
pub struct View {
    pub center: Vector2,
    pub size: Vector2,
    /// Orientation in degrees; the engine keeps it in [0, 360).
    pub rotation: Fixed,
    /// The part of the render target the view is shown in, as factors of
    /// the target's size.
    pub viewport: Rect,
}

/// A view's orientation as the engine keeps it: reduced into the range
/// [0, 360) degrees — 0 to 360 000 thousandths of a degree.
pub open spec fn norm_degrees(a: int) -> int {
    a % 360_000
}

/// The viewport a fresh view starts with: the whole render target.
pub open spec fn spec_full_viewport() -> Rect {
    Rect {
        left: Fixed { milli: 0 },
        top: Fixed { milli: 0 },
        width: Fixed { milli: 1000 },
        height: Fixed { milli: 1000 },
    }
}

/// The view showing the region from (0, 0) to (1000, 1000), the engine's
/// default.
pub open spec fn spec_default_view() -> View {
    View {
        center: Vector2 { x: Fixed { milli: 500_000 }, y: Fixed { milli: 500_000 } },
        size: Vector2 { x: Fixed { milli: 1_000_000 }, y: Fixed { milli: 1_000_000 } },
        rotation: Fixed { milli: 0 },
        viewport: spec_full_viewport(),
    }
}

impl View {
    /// Creates the default view: the region (0, 0, 1000, 1000), so center
    /// (500, 500) and size (1000, 1000), no rotation, full viewport.
    pub fn new() -> (r: View)
        ensures
            r == spec_default_view(),
    {
        View {
            center: Vector2::new(Fixed::from_int(500), Fixed::from_int(500)),
            size: Vector2::new(Fixed::from_int(1000), Fixed::from_int(1000)),
            rotation: Fixed::from_milli(0),
            viewport: Rect::new(
                Fixed::from_milli(0),
                Fixed::from_milli(0),
                Fixed::from_milli(1000),
                Fixed::from_milli(1000),
            ),
        }
    }

    /// Creates a view with the given center and size, otherwise as fresh.
    pub fn with_center_and_size(center: Vector2, size: Vector2) -> (r: View)
        ensures
            r == (View {
                center,
                size,
                rotation: Fixed { milli: 0 },
                viewport: spec_full_viewport(),
            }),
    {
        let mut view = View::new();
        view.set_center(center);
        view.set_size(size);
        view
    }

    /// Construct a view from the rectangle defining the zone to display.
    pub fn from_rect(rectangle: Rect) -> (r: View)
        requires
            i64::MIN <= rectangle.left.milli + rectangle.width.milli / 2 <= i64::MAX,
            i64::MIN <= rectangle.top.milli + rectangle.height.milli / 2 <= i64::MAX,
        ensures
            r.center.x.milli == rectangle.left.milli + rectangle.width.milli / 2,
            r.center.y.milli == rectangle.top.milli + rectangle.height.milli / 2,
            r.size == (Vector2 { x: rectangle.width, y: rectangle.height }),
            r.rotation.milli == 0,
            r.viewport == spec_full_viewport(),
    {
        let mut view = View::new();
        view.reset(rectangle);
        view
    }

    /// Get the current orientation of the view, in degrees.
    pub fn rotation(&self) -> (r: Fixed)
        ensures
            r == self.rotation,
    {
        self.rotation
    }

    /// Get the center of the view.
    pub fn center(&self) -> (r: Vector2)
        ensures
            r == self.center,
    {
        self.center
    }

    /// Get the size of the view.
    pub fn size(&self) -> (r: Vector2)
        ensures
            r == self.size,
    {
        self.size
    }

    /// Get the target viewport rectangle, as factors of the target size.
    pub fn viewport(&self) -> (r: Rect)
        ensures
            r == self.viewport,
    {
        self.viewport
    }

    /// Set the orientation of the view, in degrees. The engine stores the
    /// angle reduced into [0, 360): setting 400 degrees reads back as 40,
    /// setting -90 as 270.
    pub fn set_rotation(&mut self, angle: Fixed)
        ensures
            final(self).rotation.milli == norm_degrees(angle.milli as int),
            0 <= final(self).rotation.milli < 360_000,
            final(self).center == old(self).center,
            final(self).size == old(self).size,
            final(self).viewport == old(self).viewport,
    {
        self.rotation = Fixed::from_milli(wrap_degrees(angle.milli as i128));
    }

    /// Rotate the view relative to its current orientation; the sum is
    /// reduced into [0, 360) degrees as for [`View::set_rotation`].
    pub fn rotate(&mut self, angle: Fixed)
        ensures
            final(self).rotation.milli == norm_degrees(old(self).rotation.milli + angle.milli),
            0 <= final(self).rotation.milli < 360_000,
            final(self).center == old(self).center,
            final(self).size == old(self).size,
            final(self).viewport == old(self).viewport,
    {
        let sum: i128 = (self.rotation.milli as i128) + (angle.milli as i128);
        self.rotation = Fixed::from_milli(wrap_degrees(sum));
    }

    /// Resize the view relative to its current size, simulating a zoom.
    ///
    /// The factor is a multiplier: 1 keeps the size unchanged, more than 1
    /// makes the view bigger (objects appear smaller), less than 1 makes the
    /// view smaller (objects appear bigger).
    pub fn zoom(&mut self, factor: Fixed)
        requires
            i64::MIN <= (old(self).size.x.milli * factor.milli) / 1000 <= i64::MAX,
            i64::MIN <= (old(self).size.y.milli * factor.milli) / 1000 <= i64::MAX,
        ensures
            final(self).size.x.milli == (old(self).size.x.milli * factor.milli) / 1000,
            final(self).size.y.milli == (old(self).size.y.milli * factor.milli) / 1000,
            final(self).center == old(self).center,
            final(self).rotation == old(self).rotation,
            final(self).viewport == old(self).viewport,
    {
        self.size = Vector2::new(self.size.x.scale(factor), self.size.y.scale(factor));
    }

    /// Set the center of the view.
    pub fn set_center(&mut self, center: Vector2)
        ensures
            *final(self) == (View { center, ..*old(self) }),
    {
        self.center = center;
    }

    /// Set the size of the view.
    pub fn set_size(&mut self, size: Vector2)
        ensures
            *final(self) == (View { size, ..*old(self) }),
    {
        self.size = size;
    }

    /// Move the view relative to its current position.
    pub fn move_(&mut self, offset: Vector2)
        requires
            i64::MIN <= old(self).center.x.milli + offset.x.milli <= i64::MAX,
            i64::MIN <= old(self).center.y.milli + offset.y.milli <= i64::MAX,
        ensures
            final(self).center.x.milli == old(self).center.x.milli + offset.x.milli,
            final(self).center.y.milli == old(self).center.y.milli + offset.y.milli,
            final(self).size == old(self).size,
            final(self).rotation == old(self).rotation,
            final(self).viewport == old(self).viewport,
    {
        self.center = Vector2::new(self.center.x.add(offset.x), self.center.y.add(offset.y));
    }

    /// Set the target viewport of the view.
    ///
    /// The viewport is the rectangle the view's contents are shown in,
    /// expressed as factors of the render target's size: a view taking the
    /// left half of the target has viewport (0, 0, 0.5, 1). A fresh view
    /// covers the whole target.
    pub fn set_viewport(&mut self, viewport: Rect)
        ensures
            *final(self) == (View { viewport, ..*old(self) }),
    {
        self.viewport = viewport;
    }

    /// Reset the view to the given rectangle; the rotation goes back to 0
    /// and the viewport is left alone.
    pub fn reset(&mut self, rectangle: Rect)
        requires
            i64::MIN <= rectangle.left.milli + rectangle.width.milli / 2 <= i64::MAX,
            i64::MIN <= rectangle.top.milli + rectangle.height.milli / 2 <= i64::MAX,
        ensures
            final(self).center.x.milli == rectangle.left.milli + rectangle.width.milli / 2,
            final(self).center.y.milli == rectangle.top.milli + rectangle.height.milli / 2,
            final(self).size == (Vector2 { x: rectangle.width, y: rectangle.height }),
            final(self).rotation.milli == 0,
            final(self).viewport == old(self).viewport,
    {
        self.center = Vector2::new(
            rectangle.left.add(rectangle.width.half()),
            rectangle.top.add(rectangle.height.half()),
        );
        self.size = Vector2::new(rectangle.width, rectangle.height);
        self.rotation = Fixed::from_milli(0);
    }

    /// An independent copy, as the engine's copy constructor would make.
    pub fn to_owned(&self) -> (r: View)
        ensures
            r == *self,
    {
        *self
    }
}

impl Default for View {
    /// The same view as [`View::new`].
    fn default() -> (r: View)
        ensures
            r == spec_default_view(),
    {
        View::new()
    }
}

/// Reduces an angle in thousandths of a degree into [0, 360 000).
fn wrap_degrees(milli: i128) -> (r: i64)
    ensures
        r == norm_degrees(milli as int),
        0 <= r < 360_000,
{
    let rem: u128 = crate::geometry::euclid_mod(milli, 360_000);
    rem as i64
}

} // verus!
