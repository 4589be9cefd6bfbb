//! Game objects: an image, a position and a velocity.

use vstd::prelude::*;
use crate::rectangle::Rectangle;
use crate::render::DrawCommand;
use crate::units::{pixel_units, pixels};
use crate::vector::Vec2;

verus! {

/// What the game knows of an image: a handle by which the driving program
/// finds it again, and its dimensions in whole pixels.
#[derive(Clone, Copy, Debug, PartialEq, Eq, Structural)]
pub struct Visual {
    pub id: u32,
    pub width: u32,
    pub height: u32,
}

/// A drawable game object. `position` is the top-left corner of its image, and
/// `velocity` is the displacement of one tick.
#[derive(Clone, Copy, Debug, PartialEq, Eq, Structural)]
pub struct Entity {
    pub visual: Visual,
    pub position: Vec2,
    pub velocity: Vec2,
}

impl Entity {
    /// An entity at rest.
    pub fn new(visual: Visual, position: Vec2) -> (e: Entity)
        ensures
            e.visual == visual,
            e.position == position,
            e.velocity.x == 0,
            e.velocity.y == 0,
    {
        Entity::with_velocity(visual, position, Vec2::zero())
    }

    /// An entity that moves by `velocity` at each tick.
    pub fn with_velocity(visual: Visual, position: Vec2, velocity: Vec2) -> (e: Entity)
        ensures
            e.visual == visual,
            e.position == position,
            e.velocity == velocity,
    {
        Entity { visual, position, velocity }
    }

    pub open spec fn spec_width(&self) -> i64 {
        pixel_units(self.visual.width as int) as i64
    }

    /// The width of the image, in units.
    #[verifier::when_used_as_spec(spec_width)]
    pub fn width(&self) -> (w: i64)
        ensures
            w == self.width(),
            w == pixel_units(self.visual.width as int),
    {
        pixels(self.visual.width)
    }

    pub open spec fn spec_height(&self) -> i64 {
        pixel_units(self.visual.height as int) as i64
    }

    /// The height of the image, in units.
    #[verifier::when_used_as_spec(spec_height)]
    pub fn height(&self) -> (h: i64)
        ensures
            h == self.height(),
            h == pixel_units(self.visual.height as int),
    {
        pixels(self.visual.height)
    }

    /// The x coordinate of the middle of the image.
    pub open spec fn center_x(self) -> int {
        self.position.x + self.width() / 2
    }

    /// The y coordinate of the middle of the image.
    pub open spec fn center_y(self) -> int {
        self.position.y + self.height() / 2
    }

    /// The middle of the image can be held in a `Vec2`.
    pub open spec fn center_fits(self) -> bool {
        &&& self.center_x() <= i64::MAX
        &&& self.center_y() <= i64::MAX
    }

    /// The middle of the image: the position plus half the extent.
    pub fn center(&self) -> (c: Vec2)
        requires
            self.center_fits(),
        ensures
            c.x == self.center_x(),
            c.y == self.center_y(),
    {
        Vec2::new(self.position.x + self.width() / 2, self.position.y + self.height() / 2)
    }

    /// The sum of position and velocity can be held in a `Vec2`.
    pub open spec fn can_advance(self) -> bool {
        &&& i64::MIN <= self.position.x + self.velocity.x <= i64::MAX
        &&& i64::MIN <= self.position.y + self.velocity.y <= i64::MAX
    }

    /// The entity one tick later: moved by its velocity, otherwise the same.
    pub open spec fn advanced(self) -> Entity {
        Entity {
            position: Vec2 {
                x: (self.position.x + self.velocity.x) as i64,
                y: (self.position.y + self.velocity.y) as i64,
            },
            ..self
        }
    }

    /// Moves the entity by its velocity. Nothing else changes.
    pub fn update(&mut self)
        requires
            old(self).can_advance(),
        ensures
            final(self).position.x == old(self).position.x + old(self).velocity.x,
            final(self).position.y == old(self).position.y + old(self).velocity.y,
            final(self).velocity == old(self).velocity,
            final(self).visual == old(self).visual,
            *final(self) == old(self).advanced(),
    {
        self.position = Vec2::new(
            self.position.x + self.velocity.x,
            self.position.y + self.velocity.y,
        );
    }

    pub open spec fn spec_bounds(&self) -> Rectangle {
        Rectangle {
            x: self.position.x,
            y: self.position.y,
            width: self.width(),
            height: self.height(),
        }
    }

    /// The rectangle that the image covers: its corner is the position, its
    /// extent that of the image.
    #[verifier::when_used_as_spec(spec_bounds)]
    pub fn bounds(&self) -> (r: Rectangle)
        ensures
            r == self.bounds(),
            r.x == self.position.x,
            r.y == self.position.y,
            r.width == pixel_units(self.visual.width as int),
            r.height == pixel_units(self.visual.height as int),
    {
        Rectangle::new(self.position.x, self.position.y, self.width(), self.height())
    }

    /// The command that puts the image on the screen at the entity's position.
    pub fn draw(&self) -> (command: DrawCommand)
        ensures
            command == (DrawCommand::Sprite { visual: self.visual, position: self.position }),
    {
        DrawCommand::Sprite { visual: self.visual, position: self.position }
    }

    /// Position and velocity both lie within `limit` of the origin on each
    /// axis.
    pub open spec fn within(self, limit: int) -> bool {
        &&& self.position.within(limit)
        &&& self.velocity.within(limit)
    }

    /// Tells whether position and velocity lie within `limit` of the origin.
    pub fn is_within(&self, limit: i64) -> (inside: bool)
        requires
            limit >= 0,
        ensures
            inside == self.within(limit as int),
    {
        self.position.is_within(limit) && self.velocity.is_within(limit)
    }
}

} // verus!
