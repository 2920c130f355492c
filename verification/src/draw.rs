//! The shapes that a frame is made of. The library computes where each one
//! goes; putting them on a display is left to the caller.

use vstd::prelude::*;

verus! {

/// A pixel position on the display, `x` to the right and `y` downwards.
#[derive(Clone, Copy, Debug, PartialEq, Eq, Structural)]
pub struct Point {
    pub x: i32,
    pub y: i32,
}

/// How an outline shape is painted: as a one-pixel line, or filled.
#[derive(Clone, Copy, Debug, PartialEq, Eq, Structural)]
pub enum Style {
    Stroke,
    Fill,
}

/// Which of the two background images a tile shows.
#[derive(Clone, Copy, Debug, PartialEq, Eq, Structural)]
pub enum Layer {
    Far,
    Near,
}

/// One thing to draw.
#[derive(Clone, Copy, Debug, PartialEq, Eq, Structural)]
pub enum Shape {
    /// One copy of a background image.
    Tile { layer: Layer, top_left: Point },
    /// A circle, given by the corner of its bounding box.
    Circle { top_left: Point, diameter: u32, style: Style },
    /// A one-pixel line.
    Line { start: Point, end: Point },
    /// A triangle.
    Triangle { first: Point, second: Point, third: Point, style: Style },
    /// The score, as a number to print at `position`.
    Score { position: Point, value: i32 },
}

/// The point `dx` to the right of and `dy` below `origin`.
pub open spec fn offset_point(origin: Point, dx: int, dy: int) -> Point {
    Point { x: (origin.x + dx) as i32, y: (origin.y + dy) as i32 }
}

/// Whether every point within `reach` pixels of `origin` has coordinates
/// that fit the machine's integers.
pub open spec fn has_room(origin: Point, reach: int) -> bool {
    &&& i32::MIN <= origin.x - reach
    &&& origin.x + reach <= i32::MAX
    &&& i32::MIN <= origin.y - reach
    &&& origin.y + reach <= i32::MAX
}

/// The point `dx` to the right of and `dy` below `origin`.
pub fn shifted(origin: Point, dx: i32, dy: i32) -> (moved: Point)
    requires
        i32::MIN <= origin.x + dx <= i32::MAX,
        i32::MIN <= origin.y + dy <= i32::MAX,
    ensures
        moved == offset_point(origin, dx as int, dy as int),
{
    Point { x: origin.x + dx, y: origin.y + dy }
}

/// A rider on a bicycle around `midpoint`: two wheels, the frame's two
/// triangles, the fork, and the rider's body, head and arm. Only the front
/// triangle of the frame is painted in `style`; all else is stroked.
pub open spec fn rider(style: Style, midpoint: Point) -> Seq<Shape> {
    seq![
        Shape::Circle { top_left: offset_point(midpoint, 3, 0), diameter: 8, style: Style::Stroke },
        Shape::Circle {
            top_left: offset_point(midpoint, -10, 0),
            diameter: 8,
            style: Style::Stroke,
        },
        Shape::Triangle {
            first: offset_point(midpoint, -3, -2),
            second: offset_point(midpoint, 3, -2),
            third: offset_point(midpoint, 0, 4),
            style,
        },
        Shape::Triangle {
            first: offset_point(midpoint, -3, -2),
            second: offset_point(midpoint, -7, 4),
            third: offset_point(midpoint, 0, 4),
            style: Style::Stroke,
        },
        Shape::Line { start: offset_point(midpoint, 3, -2), end: offset_point(midpoint, 7, 4) },
        Shape::Line { start: offset_point(midpoint, -3, -2), end: offset_point(midpoint, 0, -6) },
        Shape::Circle {
            top_left: offset_point(midpoint, -2, -8),
            diameter: 3,
            style: Style::Stroke,
        },
        Shape::Line { start: offset_point(midpoint, 0, -6), end: offset_point(midpoint, 2, -2) },
    ]
}

/// The shapes of one rider around `midpoint`, back to front.
pub fn draw_character(style: Style, midpoint: Point) -> (shapes: Vec<Shape>)
    requires
        has_room(midpoint, 10),
    ensures
        shapes@ == rider(style, midpoint),
{
    let mut shapes: Vec<Shape> = Vec::new();
    // Front wheel
    shapes.push(
        Shape::Circle { top_left: shifted(midpoint, 3, 0), diameter: 8, style: Style::Stroke },
    );
    // Back wheel
    shapes.push(
        Shape::Circle { top_left: shifted(midpoint, -10, 0), diameter: 8, style: Style::Stroke },
    );
    // Frame
    shapes.push(
        Shape::Triangle {
            first: shifted(midpoint, -3, -2),
            second: shifted(midpoint, 3, -2),
            third: shifted(midpoint, 0, 4),
            style,
        },
    );
    // Frame back
    shapes.push(
        Shape::Triangle {
            first: shifted(midpoint, -3, -2),
            second: shifted(midpoint, -7, 4),
            third: shifted(midpoint, 0, 4),
            style: Style::Stroke,
        },
    );
    // Fork
    shapes.push(Shape::Line { start: shifted(midpoint, 3, -2), end: shifted(midpoint, 7, 4) });
    // Person
    shapes.push(Shape::Line { start: shifted(midpoint, -3, -2), end: shifted(midpoint, 0, -6) });
    // Person head
    shapes.push(
        Shape::Circle { top_left: shifted(midpoint, -2, -8), diameter: 3, style: Style::Stroke },
    );
    // Person arms
    shapes.push(Shape::Line { start: shifted(midpoint, 0, -6), end: shifted(midpoint, 2, -2) });
    assert(shapes@ =~= rider(style, midpoint));
    shapes
}

} // verus!
