//! A sprite: its costumes, where it is, where it points, and what it says.
use vstd::prelude::*;
use crate::angle::RotationStyle;
use crate::costume::{outcome_of, Costume, CostumeDrawing, TextureError};
use crate::font::FontMetrics;
use crate::looks::{Boundary, Bubble, Shape};
use crate::position::Position;

verus! {

/// An actor on the stage.
#[derive(Debug)]
pub struct Sprite {
    pub costumes: Vec<Costume>,
    pub current_costume: usize,
    pub position: Position,
    /// The direction in which the sprite points: 0 is up, 90 is right.
    /// Turning never wraps it.
    pub direction: i32,
    pub rotation_style: RotationStyle,
    pub bubble: Option<Bubble>,
}

/// All that is drawn of a sprite.
#[derive(Debug)]
pub struct SpriteDrawing {
    /// The number of the costume among those of the sprite.
    pub costume: usize,
    /// How the costume is drawn.
    pub image: CostumeDrawing,
    /// What is drawn of the bubble, where the sprite has one.
    pub bubble: Option<Vec<Shape>>,
}

/// A length in pixels as a length on the stage.
pub open spec fn stage_length(pixels: int) -> int {
    1000 * pixels
}

/// The angle, counted from the axis that points right towards the axis
/// that points up, of an offset that lies along one of the axes, and of no
/// offset at all.
pub open spec fn axis_bearing(dx: int, dy: int) -> Option<int> {
    if dy == 0 && dx >= 0 {
        Some(0int)
    } else if dy == 0 {
        Some(180000int)
    } else if dx == 0 && dy > 0 {
        Some(90000int)
    } else if dx == 0 {
        Some(-90000int)
    } else {
        None
    }
}

/// The direction that points along an offset whose angle is `bearing`,
/// see [`axis_bearing`]. Along the axes the angle is known and `bearing` is
/// not read.
pub open spec fn direction_along(dx: int, dy: int, bearing: int) -> int {
    match axis_bearing(dx, dy) {
        Some(exact) => 90000 - exact,
        None => crate::saturate(90000 - bearing),
    }
}

impl Sprite {
    /// A sprite without costumes at `(x, y)`.
    pub fn new(
        current_costume: usize,
        x: i32,
        y: i32,
        direction: i32,
        rotation_style: RotationStyle,
    ) -> (sprite: Sprite)
        ensures
            sprite.costumes@.len() == 0,
            sprite.current_costume == current_costume,
            sprite.position == Position::Constant(x, y),
            sprite.direction == direction,
            sprite.rotation_style == rotation_style,
            sprite.bubble is None,
    {
        Sprite {
            costumes: Vec::new(),
            current_costume,
            position: Position::Constant(x, y),
            direction,
            rotation_style,
            bubble: None,
        }
    }

    /// Whether the current costume is one of the costumes.
    pub open spec fn has_costume(&self) -> bool {
        self.current_costume < self.costumes@.len()
    }

    /// Where the top left corner of the image of the costume is at `now`,
    /// in screen coordinates: the image lies with its rotation centre on the
    /// place of the sprite, which the stage counts from its middle and upwards.
    pub open spec fn image_corner(&self, now: int) -> (int, int) {
        let costume = self.costumes@[self.current_costume as int];
        (
            240000 - costume.rotation_center_x + self.position.at(now).0,
            180000 - costume.rotation_center_y - self.position.at(now).1,
        )
    }

    /// The box beside which the bubble is placed at `now`, for a costume
    /// whose image is `width` by `height` pixels.
    pub open spec fn boundary(&self, now: int, width: int, height: int) -> Boundary {
        let costume = self.costumes@[self.current_costume as int];
        Boundary {
            x: (self.image_corner(now).0 - costume.rotation_center_x) as i64,
            y: (self.image_corner(now).1 - costume.rotation_center_y) as i64,
            width: stage_length(width) as i64,
            height: stage_length(height) as i64,
        }
    }

    /// The numbers of [`Sprite::boundary`], written out: none of them
    /// leaves the range of its type.
    pub proof fn lemma_boundary_exact(&self, now: int, width: u32, height: u32)
        requires
            self.has_costume(),
        ensures
            ({
                let costume = self.costumes@[self.current_costume as int];
                let (px, py) = self.position.at(now);
                let around = self.boundary(now, width as int, height as int);
                &&& around.x == 240000 - 2 * costume.rotation_center_x + px
                &&& around.y == 180000 - 2 * costume.rotation_center_y - py
                &&& around.width == 1000 * width
                &&& around.height == 1000 * height
            }),
    {
        crate::position::lemma_at_in_range(self.position, now);
    }

    /// What drawing does to a sprite, and what it gives. Place, direction,
    /// style and the other costumes stay. The image of the current costume
    /// is made if it is not there, see [`LazyTexture::loaded`]; with it
    /// there, the drawing succeeds. With it made, `drawing` holds
    /// how the costume is drawn and, where the sprite has a bubble, what
    /// is drawn of that, laid out beside the image. Failing, it leaves the
    /// costumes and the bubble as they were.
    pub open spec fn drawn(
        &self,
        after: Sprite,
        now: int,
        font: FontMetrics,
        drawing: Result<SpriteDrawing, TextureError>,
    ) -> bool {
        let before_costume = self.costumes@[self.current_costume as int];
        let after_costume = after.costumes@[self.current_costume as int];
        &&& before_costume.svg.loaded(after_costume.svg, outcome_of(drawing))
        &&& drawing is Err ==> after.costumes@ == self.costumes@ && after.bubble == self.bubble
        &&& after.position == self.position
        &&& after.direction == self.direction
        &&& after.rotation_style == self.rotation_style
        &&& after.current_costume == self.current_costume
        &&& after.costumes@.len() == self.costumes@.len()
        &&& forall|k: int|
            0 <= k < self.costumes@.len() && k != self.current_costume ==> after.costumes@[k]
                == self.costumes@[k]
        &&& drawing is Ok ==> {
            &&& after_costume.svg is Loaded
            &&& before_costume.svg is Loaded ==> after_costume == before_costume
            &&& after_costume.rotation_center_x == before_costume.rotation_center_x
            &&& after_costume.rotation_center_y == before_costume.rotation_center_y
            &&& drawing->Ok_0.costume == self.current_costume
            &&& before_costume.drawing_at(
                self.image_corner(now).0,
                self.image_corner(now).1,
                self.direction as int,
                self.rotation_style,
                drawing->Ok_0.image,
            )
            &&& self.bubble is None ==> after.bubble is None && drawing->Ok_0.bubble is None
            &&& self.bubble is Some ==> after.bubble is Some && drawing->Ok_0.bubble is Some
                && self.bubble->0.drawn(
                after.bubble->0,
                self.boundary(
                    now,
                    after_costume.svg->Loaded_0.width as int,
                    after_costume.svg->Loaded_0.height as int,
                ),
                font,
                drawing->Ok_0.bubble->0@,
            )
        }
    }

    /// Lists what is to be drawn of the sprite at `now`. The image of the
    /// costume is made if it is not there yet; if it cannot be made, nothing
    /// changes. The bubble is laid out beside the image.
    pub fn draw(&mut self, now: u64, font: &FontMetrics) -> (drawing: Result<
        SpriteDrawing,
        TextureError,
    >)
        requires
            old(self).has_costume(),
        ensures
            old(self).drawn(*final(self), now as int, *font, drawing),
    {
        let index = self.current_costume;
        let (px, py) = self.position.get_position(now);
        let cx = self.costumes[index].rotation_center_x as i64;
        let cy = self.costumes[index].rotation_center_y as i64;
        let x: i64 = 240000i64 - cx + px as i64;
        let y: i64 = 180000i64 - cy - py as i64;
        let direction = self.direction;
        let rotation_style = self.rotation_style;
        let image = match self.costumes[index].draw(x, y, direction, rotation_style) {
            Ok(image) => image,
            Err(e) => {
                assert(self.costumes@ =~= old(self).costumes@);
                return Err(e);
            },
        };
        let (width, height): (u32, u32) = match self.costumes[index].svg.get_texture() {
            Some(texture) => (texture.width, texture.height),
            None => (0, 0),
        };
        let boundary = Boundary {
            x: x - cx,
            y: y - cy,
            width: 1000i64 * (width as i64),
            height: 1000i64 * (height as i64),
        };
        let bubble = match &mut self.bubble {
            Some(bubble) => Some(bubble.draw(boundary, font)),
            None => None,
        };
        Ok(SpriteDrawing { costume: index, image, bubble })
    }

    /// The costume that the sprite wears.
    pub fn costume(&self) -> (costume: &Costume)
        requires
            self.has_costume(),
        ensures
            *costume == self.costumes@[self.current_costume as int],
    {
        &self.costumes[self.current_costume]
    }

    /// The offset from the sprite to `(x, y)` at `now`.
    pub open spec fn offset_to(&self, x: int, y: int, now: int) -> (int, int) {
        (x - self.position.at(now).0, y - self.position.at(now).1)
    }

    /// Turns the sprite towards `(x, y)`. `bearing` is the angle of the
    /// offset from the sprite to that point, as the arctangent gives it;
    /// towards a point on one of the axes through the sprite, and towards
    /// its own place, the direction does not depend on it.
    pub fn point_towards(&mut self, x: i32, y: i32, now: u64, bearing: i32)
        ensures
            final(self).direction == direction_along(
                old(self).offset_to(x as int, y as int, now as int).0,
                old(self).offset_to(x as int, y as int, now as int).1,
                bearing as int,
            ),
            final(self).costumes == old(self).costumes,
            final(self).current_costume == old(self).current_costume,
            final(self).position == old(self).position,
            final(self).rotation_style == old(self).rotation_style,
            final(self).bubble == old(self).bubble,
    {
        let (current_x, current_y) = self.position.get_position(now);
        let dx: i64 = x as i64 - current_x as i64;
        let dy: i64 = y as i64 - current_y as i64;
        self.direction = if dy == 0 && dx >= 0 {
            90000
        } else if dy == 0 {
            -90000
        } else if dx == 0 && dy > 0 {
            0
        } else if dx == 0 {
            180000
        } else {
            crate::saturate_i64(90000i64 - bearing as i64)
        };
    }
}

/// Makes a sprite without costumes at `(x, y)`. `rotation_style` is the code
/// of its rotation style: `0`, `1` or `2`.
pub fn new_sprite(current_costume: usize, x: i32, y: i32, direction: i32, rotation_style: i32) -> (sprite:
    Sprite)
    requires
        0 <= rotation_style <= 2,
    ensures
        sprite.costumes@.len() == 0,
        sprite.current_costume == current_costume,
        sprite.position == Position::Constant(x, y),
        sprite.direction == direction,
        sprite.rotation_style == RotationStyle::of_code(rotation_style as int),
        sprite.bubble is None,
{
    Sprite::new(current_costume, x, y, direction, RotationStyle::from_i32(rotation_style))
}

} // verus!
