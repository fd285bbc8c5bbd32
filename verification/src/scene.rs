//! The scene: the sprites in the order in which they are drawn, and where
//! the pointer was when they were last drawn.
use vstd::prelude::*;
use crate::costume::TextureError;
use crate::font::FontMetrics;
use crate::sprite::{Sprite, SpriteDrawing};

verus! {

/// A scene of sprites. `S` is how a sprite is held: a [`Sprite`] itself,
/// or a handle that is shared with others.
#[derive(Debug)]
pub struct Scene<S> {
    /// The sprites; the first was added first and is drawn first.
    pub sprites: Vec<S>,
    /// The place of the pointer on the stage.
    pub cursor: (i32, i32),
}

/// The place on the stage of a point of the window. The window counts from
/// its top left corner and downwards, the stage from its middle and upwards.
pub open spec fn stage_point(raw_x: int, raw_y: int) -> (int, int) {
    (crate::saturate(raw_x - 240000), crate::saturate(180000 - raw_y))
}

/// Converts a point of the window into one of the stage.
pub fn to_stage(raw_x: i32, raw_y: i32) -> (p: (i32, i32))
    ensures
        (p.0 as int, p.1 as int) == stage_point(raw_x as int, raw_y as int),
{
    (crate::saturate_i64(raw_x as i64 - 240000i64), crate::saturate_i64(180000i64 - raw_y as i64))
}

impl<S> Scene<S> {
    /// A scene without sprites, the pointer in the middle of the stage.
    pub fn new() -> (scene: Scene<S>)
        ensures
            scene.sprites@.len() == 0,
            scene.cursor == (0i32, 0i32),
    {
        Scene { sprites: Vec::new(), cursor: (0, 0) }
    }

    /// Adds a sprite behind those that are there.
    pub fn add_sprite(&mut self, sprite: S)
        ensures
            final(self).sprites@ == old(self).sprites@.push(sprite),
            final(self).cursor == old(self).cursor,
    {
        self.sprites.push(sprite);
    }

    /// Stores where the pointer is, given as a point of the window.
    pub fn update_cursor(&mut self, raw_x: i32, raw_y: i32)
        ensures
            final(self).sprites == old(self).sprites,
            (final(self).cursor.0 as int, final(self).cursor.1 as int) == stage_point(
                raw_x as int,
                raw_y as int,
            ),
    {
        self.cursor = to_stage(raw_x, raw_y);
    }
}

/// Makes a scene without sprites.
pub fn new_scene<S>() -> (scene: Scene<S>)
    ensures
        scene.sprites@.len() == 0,
        scene.cursor == (0i32, 0i32),
{
    Scene::new()
}

/// Adds a sprite to a scene, behind those that are there.
pub fn scene_add_sprite<S>(scene: &mut Scene<S>, sprite: S)
    ensures
        final(scene).sprites@ == old(scene).sprites@.push(sprite),
        final(scene).cursor == old(scene).cursor,
{
    scene.add_sprite(sprite);
}

impl Scene<Sprite> {
    /// Draws the scene at `now`: lists what is to be drawn of each sprite,
    /// in their order, and then stores where the pointer is, given as a
    /// point of the window.
    pub fn draw(&mut self, now: u64, font: &FontMetrics, raw_x: i32, raw_y: i32) -> (drawings: Vec<
        Result<SpriteDrawing, TextureError>,
    >)
        requires
            forall|k: int| 0 <= k < old(self).sprites@.len() ==> old(self).sprites@[k].has_costume(),
        ensures
            drawings@.len() == old(self).sprites@.len(),
            final(self).sprites@.len() == old(self).sprites@.len(),
            forall|k: int|
                0 <= k < old(self).sprites@.len() ==> old(self).sprites@[k].drawn(
                    final(self).sprites@[k],
                    now as int,
                    *font,
                    #[trigger] drawings@[k],
                ),
            (final(self).cursor.0 as int, final(self).cursor.1 as int) == stage_point(
                raw_x as int,
                raw_y as int,
            ),
    {
        let mut drawings: Vec<Result<SpriteDrawing, TextureError>> = Vec::new();
        let mut i: usize = 0;
        while i < self.sprites.len()
            invariant
                i <= self.sprites@.len(),
                self.sprites@.len() == old(self).sprites@.len(),
                drawings@.len() == i,
                forall|k: int| i <= k < self.sprites@.len() ==> self.sprites@[k] == old(self).sprites@[k],
                forall|k: int| 0 <= k < old(self).sprites@.len() ==> old(self).sprites@[k].has_costume(),
                forall|k: int|
                    0 <= k < i ==> old(self).sprites@[k].drawn(
                        self.sprites@[k],
                        now as int,
                        *font,
                        #[trigger] drawings@[k],
                    ),
            decreases self.sprites@.len() - i,
        {
            let drawing = self.sprites[i].draw(now, font);
            drawings.push(drawing);
            i += 1;
        }
        self.cursor = to_stage(raw_x, raw_y);
        drawings
    }
}

} // verus!
