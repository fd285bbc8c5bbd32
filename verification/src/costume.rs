//! Costumes: what a sprite looks like. A costume starts as the text of a
//! vector image and becomes a raster the first time it is needed.
use vstd::prelude::*;
use crate::angle::{render_angle_of, resolve_render_angle, RenderAngle, RotationStyle};

verus! {

/// `usvg::Tree`, a vector image as it has been read. Nothing of it is
/// looked into here.
#[verifier::external_type_specification]
#[verifier::external_body]
pub struct ExSvgTree(resvg::usvg::Tree);

/// `usvg::Error`, why a text could not be read as a vector image. Nothing
/// of it is looked into here.
#[verifier::external_type_specification]
#[verifier::external_body]
pub struct ExSvgError(resvg::usvg::Error);

/// `tiny_skia::Pixmap`, a raster that is drawn onto. Nothing of it is
/// looked into here.
#[verifier::external_type_specification]
#[verifier::external_body]
pub struct ExPixmap(resvg::tiny_skia::Pixmap);

/// Why a costume could not be turned into a raster.
#[derive(Copy, Clone, Debug, PartialEq, Eq, Structural)]
pub enum TextureError {
    /// The text is not a vector image.
    Malformed,
    /// No raster of the size of the image can be made.
    Size,
    /// The raster could not be encoded.
    Encoding,
}

/// A raster image: its size in pixels and its content as a PNG file.
#[derive(Debug)]
pub struct Texture {
    pub width: u32,
    pub height: u32,
    pub png: Vec<u8>,
}

/// Calls `usvg::Tree::from_str` with the default options. Whether it accepts
/// a text depends on the text alone; no more is claimed of the outcome.
#[verifier::external_body]
fn parse_svg(svg: &str) -> (tree: Result<resvg::usvg::Tree, resvg::usvg::Error>)
    ensures
        tree is Ok <==> svg_parses(svg@),
{
    resvg::usvg::Tree::from_str(svg, &resvg::usvg::Options::default())
}

/// Calls `usvg::Tree::size` and `Size::to_int_size`, which gives each side a pixel at least.
#[verifier::external_body]
fn pixel_size(tree: &resvg::usvg::Tree) -> (size: (u32, u32))
    ensures
        size.0 >= 1,
        size.1 >= 1,
{
    let size = tree.size().to_int_size();
    (size.width(), size.height())
}

/// Calls `tiny_skia::Pixmap::new`, which makes a raster exactly of the sizes that fit.
#[verifier::external_body]
fn new_pixmap(width: u32, height: u32) -> (pixmap: Option<resvg::tiny_skia::Pixmap>)
    ensures
        pixmap is Some <==> raster_fits(width as int, height as int),
{
    resvg::tiny_skia::Pixmap::new(width, height)
}

/// Calls `resvg::render` without a transform. Nothing is claimed of the pixels it leaves.
#[verifier::external_body]
fn render_tree(tree: &resvg::usvg::Tree, pixmap: &mut resvg::tiny_skia::Pixmap) {
    resvg::render(tree, resvg::tiny_skia::Transform::default(), &mut pixmap.as_mut());
}

/// Calls `tiny_skia::Pixmap::encode_png`; `None` stands for its error.
#[verifier::external_body]
fn encode_png(pixmap: &resvg::tiny_skia::Pixmap) -> (png: Option<Vec<u8>>) {
    pixmap.encode_png().ok()
}

/// Turns the text of a vector image into a raster of the size of the image.
/// A text that is no vector image is refused as malformed, and no other
/// text is. An image of a size that no raster can have is refused for its
/// size; what can still fail after that is the encoding.
pub fn svg_to_texture(svg: &str) -> (texture: Result<Texture, TextureError>)
    ensures
        !svg_parses(svg@) <==> texture is Err && texture->Err_0 == TextureError::Malformed,
        texture is Ok ==> raster_fits(texture->Ok_0.width as int, texture->Ok_0.height as int),
        texture is Ok ==> texture->Ok_0.width >= 1 && texture->Ok_0.height >= 1,
{
    let tree = match parse_svg(svg) {
        Ok(tree) => tree,
        Err(_) => {
            return Err(TextureError::Malformed);
        },
    };
    let (width, height) = pixel_size(&tree);
    let mut pixmap = match new_pixmap(width, height) {
        Some(pixmap) => pixmap,
        None => {
            return Err(TextureError::Size);
        },
    };
    render_tree(&tree, &mut pixmap);
    texture_of(width, height, encode_png(&pixmap))
}

/// The raster of the given size with the given content; without content
/// there is none.
pub fn texture_of(width: u32, height: u32, png: Option<Vec<u8>>) -> (texture: Result<
    Texture,
    TextureError,
>)
    ensures
        png is Some ==> texture == Ok::<Texture, TextureError>(Texture { width, height, png: png->0 }),
        png is None ==> texture == Err::<Texture, TextureError>(TextureError::Encoding),
{
    match png {
        Some(png) => Ok(Texture { width, height, png }),
        None => Err(TextureError::Encoding),
    }
}

/// Whether a text is a vector image: whether `usvg::Tree::from_str` accepts
/// it with the default options.
pub uninterp spec fn svg_parses(text: Seq<char>) -> bool;

/// The sizes of which a raster can be made: no side is empty, a row takes no
/// more bytes than the largest `i32`, four to a pixel, and all rows together
/// no more than the largest `usize`.
pub open spec fn raster_fits(width: int, height: int) -> bool {
    &&& width >= 1
    &&& height >= 1
    &&& 4 * width <= i32::MAX
    &&& 4 * width * height <= usize::MAX
}

/// How something ended that needed the raster: well, or with the error
/// that making the raster gave.
pub open spec fn outcome_of<T>(result: Result<T, TextureError>) -> Result<(), TextureError> {
    match result {
        Ok(_) => Ok(()),
        Err(e) => Err(e),
    }
}

/// The image of a costume: the raster, or the vector image it is made from.
#[derive(Debug)]
pub enum LazyTexture {
    Loaded(Texture),
    Unloaded(String),
}

impl LazyTexture {
    /// What making the raster does, and how it ends. A raster that is there
    /// stays as it is. A text is refused as malformed exactly where it is
    /// no vector image; a raster that is made is of a size that fits; where
    /// none is made the text stays.
    pub open spec fn loaded(&self, after: LazyTexture, outcome: Result<(), TextureError>) -> bool {
        &&& *self is Loaded ==> outcome is Ok && after == *self
        &&& outcome is Ok ==> after is Loaded
        &&& outcome is Err ==> after == *self
        &&& *self is Unloaded && !svg_parses(self->Unloaded_0@) ==> outcome == Err::<
            (),
            TextureError,
        >(TextureError::Malformed)
        &&& outcome is Err && outcome->Err_0 == TextureError::Malformed ==> *self is Unloaded
            && !svg_parses(self->Unloaded_0@)
        &&& outcome is Ok && *self is Unloaded ==> svg_parses(self->Unloaded_0@) && raster_fits(
            after->Loaded_0.width as int,
            after->Loaded_0.height as int,
        )
    }

    /// Makes the raster, unless it is there already, see [`LazyTexture::loaded`].
    pub fn load(&mut self) -> (outcome: Result<(), TextureError>)
        ensures
            old(self).loaded(*final(self), outcome),
    {
        let made = match self {
            LazyTexture::Loaded(_) => {
                return Ok(());
            },
            LazyTexture::Unloaded(svg) => svg_to_texture(svg.as_str()),
        };
        match made {
            Ok(texture) => {
                *self = LazyTexture::Loaded(texture);
                Ok(())
            },
            Err(e) => Err(e),
        }
    }

    /// The raster, where it has been made.
    pub fn get_texture(&self) -> (texture: Option<&Texture>)
        ensures
            self is Loaded <==> texture is Some,
            self is Loaded ==> *texture->0 == self->Loaded_0,
    {
        match self {
            LazyTexture::Loaded(texture) => Some(texture),
            LazyTexture::Unloaded(_) => None,
        }
    }
}

/// One look of a sprite: an image, and the point of it, counted from its
/// top left corner, that lies on the position of the sprite and round which
/// it turns.
#[derive(Debug)]
pub struct Costume {
    pub svg: LazyTexture,
    pub rotation_center_x: i32,
    pub rotation_center_y: i32,
}

/// How a costume is drawn, in screen coordinates: the origin is the top
/// left corner and `y` grows downwards.
#[derive(Copy, Clone, Debug, PartialEq, Eq, Structural)]
pub struct CostumeDrawing {
    /// The top left corner of the image.
    pub x: i64,
    pub y: i64,
    /// Rotation and mirroring.
    pub angle: RenderAngle,
    /// The point round which the image is turned.
    pub pivot_x: i64,
    pub pivot_y: i64,
}

impl Costume {
    /// How the costume is drawn with its top left corner at `(x, y)` by a
    /// sprite of the given direction and style.
    pub open spec fn drawing_at(
        &self,
        x: int,
        y: int,
        direction: int,
        rotation_style: RotationStyle,
        shown: CostumeDrawing,
    ) -> bool {
        &&& shown.x == x
        &&& shown.y == y
        &&& shown.angle == render_angle_of(direction, rotation_style)
        &&& shown.pivot_x == self.rotation_center_x + x
        &&& shown.pivot_y == self.rotation_center_y + y
    }

    /// Makes the image if it is not there yet, and says how it is drawn
    /// with its top left corner at `(x, y)`. Where the image cannot be made
    /// the costume stays as it is.
    pub fn draw(&mut self, x: i64, y: i64, direction: i32, rotation_style: RotationStyle) -> (shown:
        Result<CostumeDrawing, TextureError>)
        requires
            i64::MIN <= old(self).rotation_center_x + x <= i64::MAX,
            i64::MIN <= old(self).rotation_center_y + y <= i64::MAX,
        ensures
            old(self).svg.loaded(final(self).svg, outcome_of(shown)),
            final(self).rotation_center_x == old(self).rotation_center_x,
            final(self).rotation_center_y == old(self).rotation_center_y,
            shown is Ok ==> old(self).drawing_at(
                x as int,
                y as int,
                direction as int,
                rotation_style,
                shown->Ok_0,
            ),
    {
        match self.svg.load() {
            Ok(()) => {},
            Err(e) => {
                return Err(e);
            },
        }
        Ok(
            CostumeDrawing {
                x,
                y,
                angle: resolve_render_angle(direction, rotation_style),
                pivot_x: self.rotation_center_x as i64 + x,
                pivot_y: self.rotation_center_y as i64 + y,
            },
        )
    }

    /// A costume from the text of a vector image.
    pub fn new(svg: String, rotation_center_x: i32, rotation_center_y: i32) -> (costume: Costume)
        ensures
            costume.svg == LazyTexture::Unloaded(svg),
            costume.rotation_center_x == rotation_center_x,
            costume.rotation_center_y == rotation_center_y,
    {
        Costume { svg: LazyTexture::Unloaded(svg), rotation_center_x, rotation_center_y }
    }
}

/// Makes a costume from the text of a vector image and its rotation centre.
pub fn new_costume(svg: String, x: i32, y: i32) -> (costume: Costume)
    ensures
        costume.svg == LazyTexture::Unloaded(svg),
        costume.rotation_center_x == x,
        costume.rotation_center_y == y,
{
    Costume::new(svg, x, y)
}

} // verus!
