//! Speech and thought bubbles: where one is placed beside its sprite, and
//! the strokes that make up its outline.
use vstd::prelude::*;
use crate::font::{measure_width, FontMetrics};
use crate::wrap::{line_breaks, lines_are, usable_breaks, wrap_text, wrapped_lines};
use crate::wrap_laws::wraps;

verus! {

/// The width to which the text of a bubble is wrapped.
pub const WRAP_WIDTH: u32 = 170000;

/// The width of the outline.
pub const STROKE_WIDTH: i128 = 2000;

/// On which side of its sprite a bubble stands.
#[derive(Copy, Clone, Debug, PartialEq, Eq, Structural)]
pub enum Direction {
    Left,
    Right,
}

/// Whether the sprite says or thinks the text.
#[derive(Copy, Clone, Debug, PartialEq, Eq, Structural)]
pub enum BubbleType {
    Speech,
    Thought,
}

/// The box that a sprite takes on the screen, in screen coordinates: the
/// origin is the top left corner, and `y` grows downwards.
#[derive(Copy, Clone, Debug, PartialEq, Eq, Structural)]
pub struct Boundary {
    pub x: i64,
    pub y: i64,
    pub width: i64,
    pub height: i64,
}

/// A text beside a sprite. The wrapped lines are worked out when the bubble
/// is first drawn, and kept.
#[derive(Debug)]
pub struct Bubble {
    pub text: String,
    pub bubble_type: BubbleType,
    pub lines: Option<Vec<String>>,
}

/// Where a bubble stands and how large it is, in screen coordinates.
#[derive(Copy, Clone, Debug, PartialEq, Eq, Structural)]
pub struct Placement {
    pub side: Direction,
    pub x: i128,
    pub y: i128,
    pub width: i128,
    pub height: i128,
}

/// The width of the widest line, as it is measured.
pub open spec fn widest(lines: Seq<String>, font: FontMetrics) -> nat
    decreases lines.len(),
{
    if lines.len() == 0 {
        0
    } else {
        let before = widest(lines.drop_last(), font);
        let last = font.width_of(lines.last()@);
        if last > before {
            last
        } else {
            before
        }
    }
}

/// The width of a bubble around lines of the given width.
pub open spec fn padded_width(line_width: int) -> int {
    line_width + 20000
}

/// The height of a bubble around so many lines.
pub open spec fn padded_height(rows: int) -> int {
    16000 * rows + 20000
}

/// The side on which the bubble stands: the right, unless it would then
/// reach beyond the stage.
pub open spec fn side_of(line_width: int, boundary: Boundary) -> Direction {
    if padded_width(line_width) + boundary.x + boundary.width > 480000 {
        Direction::Left
    } else {
        Direction::Right
    }
}

/// The left edge of the bubble: against the sprite on the chosen side, but
/// not left of the stage, and above all not beyond it on the right.
pub open spec fn anchor_x(line_width: int, boundary: Boundary) -> int {
    let beside = match side_of(line_width, boundary) {
        Direction::Left => boundary.x - padded_width(line_width),
        Direction::Right => boundary.x + boundary.width,
    };
    let kept_right = if beside < -240000 {
        -240000
    } else {
        beside
    };
    if kept_right > 240000 - padded_width(line_width) {
        240000 - padded_width(line_width)
    } else {
        kept_right
    }
}

/// The top edge of the bubble: that of the sprite, but not below 180.
pub open spec fn anchor_y(boundary: Boundary) -> int {
    if boundary.y > 180000 {
        180000
    } else {
        boundary.y as int
    }
}

/// The placement of a bubble around `rows` lines, the widest of them
/// `line_width` wide, beside a sprite with the given boundary.
pub open spec fn placement_of(line_width: int, rows: int, boundary: Boundary) -> Placement {
    Placement {
        side: side_of(line_width, boundary),
        x: anchor_x(line_width, boundary) as i128,
        y: anchor_y(boundary) as i128,
        width: padded_width(line_width) as i128,
        height: padded_height(rows) as i128,
    }
}

/// Measures the widest of the lines.
pub fn max_line_width(lines: &Vec<String>, font: &FontMetrics) -> (width: u32)
    ensures
        width == widest(lines@, *font),
{
    let mut width: u32 = 0;
    let mut i: usize = 0;
    assert(lines@.take(0) == Seq::<String>::empty());
    while i < lines.len()
        invariant
            i <= lines.len(),
            width == widest(lines@.take(i as int), *font),
        decreases lines.len() - i,
    {
        assert(lines@.take(i + 1).drop_last() == lines@.take(i as int));
        let w = measure_width(lines[i].as_str(), font);
        if w > width {
            width = w;
        }
        i += 1;
    }
    assert(lines@.take(i as int) == lines@);
    width
}

/// Places a bubble, see [`placement_of`].
pub fn place_bubble(line_width: u32, rows: usize, boundary: Boundary) -> (p: Placement)
    ensures
        p == placement_of(line_width as int, rows as int, boundary),
        p.x == anchor_x(line_width as int, boundary),
        p.y == anchor_y(boundary),
        p.width == padded_width(line_width as int),
        p.height == padded_height(rows as int),
        p.x <= 240000 - p.width,
        p.width <= 480000 ==> -240000 <= p.x,
        p.y <= 180000,
{
    let width: i128 = line_width as i128 + 20000;
    let height: i128 = 16000 * (rows as i128) + 20000;
    let reach: i128 = width + boundary.x as i128 + boundary.width as i128;
    let side = if reach > 480000 {
        Direction::Left
    } else {
        Direction::Right
    };
    let beside: i128 = match side {
        Direction::Left => boundary.x as i128 - width,
        Direction::Right => boundary.x as i128 + boundary.width as i128,
    };
    let kept_right: i128 = if beside < -240000 {
        -240000
    } else {
        beside
    };
    let x: i128 = if kept_right > 240000 - width {
        240000 - width
    } else {
        kept_right
    };
    let y: i128 = if boundary.y > 180000 {
        180000
    } else {
        boundary.y as i128
    };
    Placement { side, x, y, width, height }
}

/// One stroke of a bubble, or one line of its text, in screen coordinates.
/// Angles are clockwise from the axis that points right.
#[derive(Copy, Clone, Debug, PartialEq, Eq, Structural)]
pub enum Shape {
    /// The line of text with the given number, its baseline starting at `(x, y)`.
    Text { row: usize, x: i128, y: i128 },
    /// A straight stroke.
    Line { x1: i128, y1: i128, x2: i128, y2: i128 },
    /// A stroke along a circle round `(x, y)`, from the angle `rotation` over `arc`.
    Arc { x: i128, y: i128, radius: i128, rotation: i128, arc: i128 },
    /// A whole circle.
    Circle { x: i128, y: i128, radius: i128 },
}

/// The straight stroke between two points.
pub open spec fn line(x1: int, y1: int, x2: int, y2: int) -> Shape {
    Shape::Line { x1: x1 as i128, y1: y1 as i128, x2: x2 as i128, y2: y2 as i128 }
}

/// The stroke along a circle.
pub open spec fn arc(x: int, y: int, radius: int, rotation: int, arc: int) -> Shape {
    Shape::Arc {
        x: x as i128,
        y: y as i128,
        radius: radius as i128,
        rotation: rotation as i128,
        arc: arc as i128,
    }
}

/// The whole circle.
pub open spec fn circle(x: int, y: int, radius: int) -> Shape {
    Shape::Circle { x: x as i128, y: y as i128, radius: radius as i128 }
}

/// The rounded box without its lower edge: from the lower left corner over
/// the top to the lower right corner.
pub open spec fn box_of(x: int, y: int, width: int, height: int) -> Seq<Shape> {
    seq![
        arc(x + 16000, y + height - 16000, 15000, 90000, 90000),
        line(x, y + height - 16000, x, y + 16000),
        arc(x + 16000, y + 16000, 15000, 180000, 90000),
        line(x + 16000, y, x + width - 16000, y),
        arc(x + width - 16000, y + 16000, 15000, 270000, 90000),
        line(x + width, y + 16000, x + width, y + height - 16000),
        arc(x + width - 16000, y + height - 16000, 15000, 0, 90000),
    ]
}

/// The lower edge with the tail. `corner` is the end of the lower edge next
/// to the sprite, `far` its other end, `base` its height, and `toward` is `1`
/// where the edge runs to the right from `corner`, `-1` where it runs to the
/// left. A speech bubble has a pointed tail, a thought bubble a dent and two
/// small circles.
pub open spec fn tail_of(kind: BubbleType, corner: int, far: int, toward: int, base: int) -> Seq<Shape> {
    match kind {
        BubbleType::Speech => seq![
            line(corner, base, corner - 3000 * toward, base + 14000),
            line(corner - 3000 * toward, base + 14000, corner + 16000 * toward, base),
            line(corner + 16000 * toward, base, far, base),
        ],
        BubbleType::Thought => seq![
            line(corner, base, corner + 12000 * toward, base),
            arc(corner + 17000 * toward, base - 1000, 3000, 0, 180000),
            circle(corner + 9250 * toward, base + 7250, 2250),
            circle(corner + 1500 * toward, base + 9500, 1500),
            line(corner + 20000 * toward, base, far, base),
        ],
    }
}

/// The strokes of the lower edge of a bubble at a placement: the tail is at
/// the end next to the sprite.
pub open spec fn tail_at(kind: BubbleType, p: Placement) -> Seq<Shape> {
    match p.side {
        Direction::Left => tail_of(kind, p.x + p.width - 16000, p.x + 16000, -1, p.y + p.height),
        Direction::Right => tail_of(kind, p.x + 16000, p.x + p.width - 16000, 1, p.y + p.height),
    }
}

/// The places of the lines of text: ten from the left edge, the first
/// baseline twenty below the top, each one a line height below the one before.
pub open spec fn text_rows(rows: int, x: int, y: int) -> Seq<Shape> {
    Seq::new(
        rows as nat,
        |i: int| Shape::Text { row: i as usize, x: (x + 10000) as i128, y: (y + 20000 + 16000 * i) as i128 },
    )
}

/// All that is drawn of a bubble with `rows` lines: the text, the box, the tail.
pub open spec fn bubble_shapes(kind: BubbleType, rows: int, p: Placement) -> Seq<Shape> {
    text_rows(rows, p.x as int, p.y as int) + box_of(
        p.x as int,
        p.y as int,
        p.width as int,
        p.height as int,
    ) + tail_at(kind, p)
}

/// The mirror image of a shape in the vertical axis at half of `twice_axis`.
pub open spec fn mirrored(shape: Shape, twice_axis: int) -> Shape {
    match shape {
        Shape::Text { row, x, y } => Shape::Text { row, x: (twice_axis - x) as i128, y },
        Shape::Line { x1, y1, x2, y2 } => line(twice_axis - x1, y1 as int, twice_axis - x2, y2 as int),
        Shape::Arc { x, y, radius, rotation, arc: sweep } => arc(
            twice_axis - x,
            y as int,
            radius as int,
            180000 - rotation - sweep,
            sweep as int,
        ),
        Shape::Circle { x, y, radius } => circle(twice_axis - x, y as int, radius as int),
    }
}

impl Placement {
    /// A placement whose strokes can be worked out without overflow.
    pub open spec fn drawable(self) -> bool {
        &&& -0x1_0000_0000_0000_0000_0000 <= self.x <= 0x1_0000_0000_0000_0000_0000
        &&& -0x1_0000_0000_0000_0000_0000 <= self.y <= 0x1_0000_0000_0000_0000_0000
        &&& 0 <= self.width <= 0x1_0000_0000_0000_0000_0000
        &&& 0 <= self.height <= 0x1_0000_0000_0000_0000_0000
    }

    /// The same placement on the other side of the sprite.
    pub open spec fn on_side(self, side: Direction) -> Placement {
        Placement { side, ..self }
    }
}

/// The tail on the left is the mirror image of the tail on the right, in the
/// vertical axis through the middle of the bubble.
pub proof fn lemma_tail_mirrored(kind: BubbleType, p: Placement)
    requires
        p.drawable(),
    ensures
        tail_at(kind, p.on_side(Direction::Left)).len() == tail_at(
            kind,
            p.on_side(Direction::Right),
        ).len(),
        forall|k: int|
            0 <= k < tail_at(kind, p.on_side(Direction::Left)).len() ==> tail_at(
                kind,
                p.on_side(Direction::Left),
            )[k] == mirrored(
                #[trigger] tail_at(kind, p.on_side(Direction::Right))[k],
                2 * p.x + p.width,
            ),
{
}

/// Appends the strokes of the lower edge, see [`tail_of`].
fn push_tail(
    shapes: &mut Vec<Shape>,
    kind: BubbleType,
    corner: i128,
    far: i128,
    toward: i128,
    base: i128,
)
    requires
        toward == 1 || toward == -1,
        -0x4_0000_0000_0000_0000_0000 <= corner <= 0x4_0000_0000_0000_0000_0000,
        -0x4_0000_0000_0000_0000_0000 <= base <= 0x4_0000_0000_0000_0000_0000,
    ensures
        final(shapes)@ == old(shapes)@ + tail_of(kind, corner as int, far as int, toward as int, base as int),
{
    let ghost before = shapes@;
    match kind {
        BubbleType::Speech => {
            shapes.push(
                Shape::Line { x1: corner, y1: base, x2: corner - 3000 * toward, y2: base + 14000 },
            );
            shapes.push(
                Shape::Line {
                    x1: corner - 3000 * toward,
                    y1: base + 14000,
                    x2: corner + 16000 * toward,
                    y2: base,
                },
            );
            shapes.push(Shape::Line { x1: corner + 16000 * toward, y1: base, x2: far, y2: base });
        },
        BubbleType::Thought => {
            shapes.push(Shape::Line { x1: corner, y1: base, x2: corner + 12000 * toward, y2: base });
            shapes.push(
                Shape::Arc {
                    x: corner + 17000 * toward,
                    y: base - 1000,
                    radius: 3000,
                    rotation: 0,
                    arc: 180000,
                },
            );
            shapes.push(
                Shape::Circle { x: corner + 9250 * toward, y: base + 7250, radius: 2250 },
            );
            shapes.push(
                Shape::Circle { x: corner + 1500 * toward, y: base + 9500, radius: 1500 },
            );
            shapes.push(Shape::Line { x1: corner + 20000 * toward, y1: base, x2: far, y2: base });
        },
    }
    assert(shapes@ =~= before + tail_of(
        kind,
        corner as int,
        far as int,
        toward as int,
        base as int,
    ));
}

/// Appends the rounded box, see [`box_of`].
fn push_box(shapes: &mut Vec<Shape>, p: Placement)
    requires
        p.drawable(),
    ensures
        final(shapes)@ == old(shapes)@ + box_of(
            p.x as int,
            p.y as int,
            p.width as int,
            p.height as int,
        ),
{
    let ghost before = shapes@;
    let left = p.x;
    let right = p.x + p.width;
    let top = p.y;
    let bottom = p.y + p.height;
    shapes.push(
        Shape::Arc { x: left + 16000, y: bottom - 16000, radius: 15000, rotation: 90000, arc: 90000 },
    );
    shapes.push(Shape::Line { x1: left, y1: bottom - 16000, x2: left, y2: top + 16000 });
    shapes.push(
        Shape::Arc { x: left + 16000, y: top + 16000, radius: 15000, rotation: 180000, arc: 90000 },
    );
    shapes.push(Shape::Line { x1: left + 16000, y1: top, x2: right - 16000, y2: top });
    shapes.push(
        Shape::Arc { x: right - 16000, y: top + 16000, radius: 15000, rotation: 270000, arc: 90000 },
    );
    shapes.push(Shape::Line { x1: right, y1: top + 16000, x2: right, y2: bottom - 16000 });
    shapes.push(
        Shape::Arc { x: right - 16000, y: bottom - 16000, radius: 15000, rotation: 0, arc: 90000 },
    );
    assert(shapes@ =~= before + box_of(p.x as int, p.y as int, p.width as int, p.height as int));
}

/// Lists all that is drawn of a bubble with `rows` lines at a placement:
/// first the lines of text, then the box, then the lower edge with the tail.
pub fn outline(kind: BubbleType, rows: usize, p: Placement) -> (shapes: Vec<Shape>)
    requires
        p.drawable(),
    ensures
        shapes@ == bubble_shapes(kind, rows as int, p),
{
    let mut shapes: Vec<Shape> = Vec::new();
    let mut i: usize = 0;
    while i < rows
        invariant
            i <= rows,
            p.drawable(),
            shapes@ == text_rows(i as int, p.x as int, p.y as int),
        decreases rows - i,
    {
        shapes.push(
            Shape::Text { row: i, x: p.x + 10000, y: p.y + 20000 + 16000 * (i as i128) },
        );
        i += 1;
        assert(shapes@ =~= text_rows(i as int, p.x as int, p.y as int));
    }
    push_box(&mut shapes, p);
    match p.side {
        Direction::Left => push_tail(
            &mut shapes,
            kind,
            p.x + p.width - 16000,
            p.x + 16000,
            -1,
            p.y + p.height,
        ),
        Direction::Right => push_tail(
            &mut shapes,
            kind,
            p.x + 16000,
            p.x + p.width - 16000,
            1,
            p.y + p.height,
        ),
    }
    shapes
}

impl Bubble {
    /// A speech bubble with the given text, not yet wrapped.
    pub fn new(text: String, bubble_type: BubbleType) -> (bubble: Bubble)
        ensures
            bubble.text == text,
            bubble.bubble_type == bubble_type,
            bubble.lines is None,
    {
        Bubble { text, bubble_type, lines: None }
    }

    /// The lines are those into which the text wraps.
    pub open spec fn wrapped(&self, font: FontMetrics) -> bool {
        &&& self.lines is Some
        &&& lines_are(
            self.lines->0@,
            self.text@,
            wrapped_lines(
                self.text@,
                font,
                WRAP_WIDTH,
                usable_breaks(self.text@, line_breaks(self.text@), 0),
                0,
                0,
            ),
        )
        &&& wraps(self.lines->0@, self.text@, font, WRAP_WIDTH)
    }

    /// What drawing does to a bubble: text and kind stay; lines that are
    /// there stay, and otherwise the text is wrapped; `shapes` is what is
    /// drawn of the bubble, placed by its widest line and the number of its
    /// lines.
    pub open spec fn drawn(
        &self,
        after: Bubble,
        boundary: Boundary,
        font: FontMetrics,
        shapes: Seq<Shape>,
    ) -> bool {
        &&& after.text == self.text
        &&& after.bubble_type == self.bubble_type
        &&& after.lines is Some
        &&& self.lines is Some ==> after.lines == self.lines
        &&& self.lines is None ==> after.wrapped(font)
        &&& shapes == bubble_shapes(
            self.bubble_type,
            after.lines->0@.len() as int,
            placement_of(
                widest(after.lines->0@, font) as int,
                after.lines->0@.len() as int,
                boundary,
            ),
        )
    }

    /// Lays the bubble out beside a sprite and lists what is to be drawn.
    /// The text is wrapped the first time; after that the lines are kept as
    /// they are.
    pub fn draw(&mut self, boundary: Boundary, font: &FontMetrics) -> (shapes: Vec<Shape>)
        ensures
            old(self).drawn(*final(self), boundary, *font, shapes@),
    {
        if self.lines.is_none() {
            let lines = wrap_text(self.text.as_str(), WRAP_WIDTH, font);
            self.lines = Some(lines);
        }
        let (width, rows) = match &self.lines {
            Some(lines) => (max_line_width(lines, font), lines.len()),
            None => (0, 0),
        };
        let p = place_bubble(width, rows, boundary);
        outline(self.bubble_type, rows, p)
    }
}

} // verus!
