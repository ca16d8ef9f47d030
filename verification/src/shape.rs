//! Drawable shape wrappers and the texture borrow rule.
//!
//! A shape may bind a texture it does not own. The engine would happily keep
//! using a freed texture; on this side the binding is a borrow with a
//! lifetime, so a shape can never outlive the texture bound to it — the
//! borrow checker refuses the program instead.
//!
//! [`CustomShape`] also carries a host capability (a [`CustomShapePoints`]
//! implementation) that the engine consults through callbacks; see the
//! `trampoline` module for the boundary crossing itself.

use vstd::prelude::*;
use crate::geometry::{Color, Fixed, IntRect, Vector2};

verus! {

/// A texture the engine owns, by the part of it this side reads: its size
/// in pixels.
#[derive(Debug, PartialEq, Eq, Structural)]
pub struct Texture {
    pub width: u32,
    pub height: u32,
}

impl Texture {
    /// A texture of the given size.
    pub fn new(width: u32, height: u32) -> (r: Texture)
        ensures
            r.width == width,
            r.height == height,
    {
        Texture { width, height }
    }
}

/// The points of a custom shape: the capability a host type implements so
/// the engine can pull the shape's outline through callbacks.
///
/// Implementations are host code outside the verified core, so the methods
/// carry no contract: whatever the capability answers, the pull loops state
/// only how they consume it.
pub trait CustomShapePoints {
    /// Gets the total count of points.
    fn point_count(&self) -> usize;

    /// Gets the point with the given index.
    fn point(&self, point: usize) -> Vector2;
}

/// Specialized shape representing a circle.
#[derive(Clone, Debug)]
pub struct CircleShape<'s> {
    /// The texture the shape borrows, if any. The lifetime ties the shape to
    /// it: the texture must outlive the shape.
    pub texture: Option<&'s Texture>,
    /// The sub-area of the texture that is drawn.
    pub texture_rect: IntRect,
    pub radius: Fixed,
    pub point_count: usize,
    pub fill_color: Color,
    pub outline_color: Color,
    pub outline_thickness: Fixed,
}

/// What the engine resets a shape's texture area to when asked: the whole
/// texture.
pub open spec fn full_texture_rect(texture: Texture) -> IntRect {
    IntRect { left: 0, top: 0, width: texture.width as i32, height: texture.height as i32 }
}

/// The engine's rule for binding a texture: the texture area is reset to the
/// whole texture when the caller asks, and also when no texture was bound
/// and no area had ever been chosen.
pub open spec fn texture_rect_after_bind<'s>(
    before: TextureBindState<'s>,
    texture: Texture,
    reset_rect: bool,
) -> IntRect {
    if reset_rect || (before.texture is None && before.texture_rect == (IntRect {
        left: 0,
        top: 0,
        width: 0,
        height: 0,
    })) {
        full_texture_rect(texture)
    } else {
        before.texture_rect
    }
}

/// The bindable fields a texture bind looks at, shared by the shape kinds.
pub struct TextureBindState<'s> {
    pub texture: Option<&'s Texture>,
    pub texture_rect: IntRect,
}

impl<'s> CircleShape<'s> {
    /// The texture-binding part of the shape's state.
    pub open spec fn bind_state(self) -> TextureBindState<'s> {
        TextureBindState { texture: self.texture, texture_rect: self.texture_rect }
    }

    /// Create a new circle shape initialized with a texture.
    pub fn with_texture(texture: &'s Texture) -> (r: CircleShape<'s>)
        requires
            texture.width <= i32::MAX,
            texture.height <= i32::MAX,
        ensures
            r.texture == Some(texture),
            r.texture_rect == full_texture_rect(*texture),
            r.radius.milli == 0,
            r.point_count == 30,
            r.fill_color == Color::spec_white(),
            r.outline_color == Color::spec_white(),
            r.outline_thickness.milli == 0,
    {
        let mut shape = CircleShape::default();
        shape.set_texture(texture, true);
        shape
    }

    /// Create a new `CircleShape` with the given radius and point count.
    pub fn new(radius: Fixed, point_count: usize) -> (r: CircleShape<'s>)
        ensures
            r.texture is None,
            r.radius == radius,
            r.point_count == point_count,
            r.fill_color == Color::spec_white(),
    {
        let mut shape = CircleShape::default();
        shape.set_radius(radius);
        shape.set_point_count(point_count);
        shape
    }

    /// Set the radius of the circle.
    pub fn set_radius(&mut self, radius: Fixed)
        ensures
            *final(self) == (CircleShape { radius, ..*old(self) }),
    {
        self.radius = radius;
    }

    /// The radius of the circle.
    pub fn radius(&self) -> (r: Fixed)
        ensures
            r == self.radius,
    {
        self.radius
    }

    /// Set the number of points tracing the circle.
    pub fn set_point_count(&mut self, count: usize)
        ensures
            *final(self) == (CircleShape { point_count: count, ..*old(self) }),
    {
        self.point_count = count;
    }

    /// The number of points tracing the circle.
    pub fn point_count(&self) -> (r: usize)
        ensures
            r == self.point_count,
    {
        self.point_count
    }

    /// Bind a texture the shape will draw with. The shape borrows the
    /// texture for its own lifetime; it does not own it.
    pub fn set_texture(&mut self, texture: &'s Texture, reset_rect: bool)
        requires
            texture.width <= i32::MAX,
            texture.height <= i32::MAX,
        ensures
            *final(self) == (CircleShape {
                texture: Some(texture),
                texture_rect: texture_rect_after_bind(old(self).bind_state(), *texture, reset_rect),
                ..*old(self)
            }),
    {
        let zero_rect = self.texture_rect.left == 0 && self.texture_rect.top == 0
            && self.texture_rect.width == 0 && self.texture_rect.height == 0;
        if reset_rect || (self.texture.is_none() && zero_rect) {
            self.texture_rect = IntRect::new(0, 0, texture.width as i32, texture.height as i32);
        }
        self.texture = Some(texture);
    }

    /// Unbind the texture. The texture area is left as it was, matching the
    /// engine's behavior when handed no texture.
    pub fn disable_texture(&mut self)
        ensures
            *final(self) == (CircleShape { texture: None, ..*old(self) }),
    {
        self.texture = None;
    }

    /// The texture bound to the shape, if any.
    pub fn texture(&self) -> (r: Option<&'s Texture>)
        ensures
            r == self.texture,
    {
        self.texture
    }

    /// The sub-area of the texture that is drawn.
    pub fn texture_rect(&self) -> (r: IntRect)
        ensures
            r == self.texture_rect,
    {
        self.texture_rect
    }

    /// Set the fill color of the shape.
    pub fn set_fill_color(&mut self, color: Color)
        ensures
            *final(self) == (CircleShape { fill_color: color, ..*old(self) }),
    {
        self.fill_color = color;
    }

    /// The fill color of the shape.
    pub fn fill_color(&self) -> (r: Color)
        ensures
            r == self.fill_color,
    {
        self.fill_color
    }
}

impl<'s> Default for CircleShape<'s> {
    /// A fresh circle, as the engine constructs one: no texture, radius 0,
    /// 30 points, white fill and outline, no outline thickness.
    fn default() -> (r: CircleShape<'s>)
        ensures
            r.texture is None,
            r.texture_rect == (IntRect { left: 0, top: 0, width: 0, height: 0 }),
            r.radius.milli == 0,
            r.point_count == 30,
            r.fill_color == Color::spec_white(),
            r.outline_color == Color::spec_white(),
            r.outline_thickness.milli == 0,
    {
        CircleShape {
            texture: None,
            texture_rect: IntRect::new(0, 0, 0, 0),
            radius: Fixed::from_milli(0),
            point_count: 30,
            fill_color: Color::white(),
            outline_color: Color::white(),
            outline_thickness: Fixed::from_milli(0),
        }
    }
}

/// A custom textured shape with outline: the outline comes from a host
/// capability that the engine pulls through callbacks.
#[derive(Debug)]
pub struct CustomShape<'s, T: CustomShapePoints> {
    /// The capability box: owned by the wrapper for exactly as long as the
    /// paired foreign object lives, as the trampoline contract demands.
    pub points: T,
    /// The outline as of the last [`CustomShape::update`] pull.
    pub cached_points: Vec<Vector2>,
    /// The texture the shape borrows, if any; the shape cannot outlive it.
    pub texture: Option<&'s Texture>,
    pub texture_rect: IntRect,
    pub fill_color: Color,
}

impl<'s, T: CustomShapePoints> CustomShape<'s, T> {
    /// The texture-binding part of the shape's state.
    pub open spec fn bind_state(self) -> TextureBindState<'s> {
        TextureBindState { texture: self.texture, texture_rect: self.texture_rect }
    }

    /// Create a new `CustomShape`, taking ownership of the capability that
    /// will serve the engine's point queries.
    pub fn new(points: T) -> (r: CustomShape<'s, T>)
        ensures
            r.points == points,
            r.cached_points@ == Seq::<Vector2>::empty(),
            r.texture is None,
            r.texture_rect == (IntRect { left: 0, top: 0, width: 0, height: 0 }),
            r.fill_color == Color::spec_white(),
    {
        CustomShape {
            points,
            cached_points: Vec::new(),
            texture: None,
            texture_rect: IntRect::new(0, 0, 0, 0),
            fill_color: Color::white(),
        }
    }

    /// Create a new `CustomShape` with a texture.
    pub fn with_texture(points: T, texture: &'s Texture) -> (r: CustomShape<'s, T>)
        requires
            texture.width <= i32::MAX,
            texture.height <= i32::MAX,
        ensures
            r.points == points,
            r.cached_points@ == Seq::<Vector2>::empty(),
            r.texture == Some(texture),
            r.texture_rect == full_texture_rect(*texture),
            r.fill_color == Color::spec_white(),
    {
        let mut shape = Self::new(points);
        shape.set_texture(texture, true);
        shape
    }

    /// Recompute the internal geometry of the shape: pull the point count,
    /// then each point in index order, from the capability — exactly what
    /// the engine does through the trampolines when told the points changed.
    /// Everything but the cached outline is left as it was.
    pub fn update(&mut self)
        ensures
            final(self).points == old(self).points,
            final(self).texture == old(self).texture,
            final(self).texture_rect == old(self).texture_rect,
            final(self).fill_color == old(self).fill_color,
    {
        let n = self.points.point_count();
        let mut pulled: Vec<Vector2> = Vec::new();
        let mut i: usize = 0;
        while i < n
            invariant
                pulled@.len() == i,
                i <= n,
            decreases n - i,
        {
            pulled.push(self.points.point(i));
            i = i + 1;
        }
        self.cached_points = pulled;
    }

    /// Gets the total count of points, straight from the capability.
    pub fn point_count(&self) -> usize {
        self.points.point_count()
    }

    /// Gets a given point, straight from the capability.
    pub fn point(&self, index: usize) -> Vector2 {
        self.points.point(index)
    }

    /// The outline as of the last [`CustomShape::update`].
    pub fn cached_points(&self) -> (r: &Vec<Vector2>)
        ensures
            r@ == self.cached_points@,
    {
        &self.cached_points
    }

    /// Bind a texture the shape will draw with; same engine rule as for
    /// [`CircleShape::set_texture`].
    pub fn set_texture(&mut self, texture: &'s Texture, reset_rect: bool)
        requires
            texture.width <= i32::MAX,
            texture.height <= i32::MAX,
        ensures
            final(self).texture == Some(texture),
            final(self).texture_rect == texture_rect_after_bind(
                old(self).bind_state(),
                *texture,
                reset_rect,
            ),
            final(self).points == old(self).points,
            final(self).cached_points == old(self).cached_points,
            final(self).fill_color == old(self).fill_color,
    {
        let zero_rect = self.texture_rect.left == 0 && self.texture_rect.top == 0
            && self.texture_rect.width == 0 && self.texture_rect.height == 0;
        if reset_rect || (self.texture.is_none() && zero_rect) {
            self.texture_rect = IntRect::new(0, 0, texture.width as i32, texture.height as i32);
        }
        self.texture = Some(texture);
    }

    /// Unbind the texture.
    pub fn disable_texture(&mut self)
        ensures
            final(self).texture is None,
            final(self).texture_rect == old(self).texture_rect,
            final(self).points == old(self).points,
            final(self).cached_points == old(self).cached_points,
            final(self).fill_color == old(self).fill_color,
    {
        self.texture = None;
    }

    /// The texture bound to the shape, if any.
    pub fn texture(&self) -> (r: Option<&'s Texture>)
        ensures
            r == self.texture,
    {
        self.texture
    }
}

} // verus!
