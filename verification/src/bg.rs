//! The two scrolling background layers: a far one that creeps and a near one
//! that follows the player.

use crate::draw::{Layer, Point, Shape, Style};
use vstd::prelude::*;

verus! {

/// Width in pixels of one background tile.
pub const BACKGROUND_WIDTH: i32 = 256;

/// Where a layer stands after it moved by `shift` from `pos`: a layer that has
/// scrolled a whole tile out of view first jumps one tile to the right.
pub open spec fn wrap_shift(pos: int, shift: int) -> int {
    if pos <= -256 {
        pos + 256 + shift
    } else {
        pos + shift
    }
}

/// Moves a layer position by a non-positive `shift`, wrapping by one tile
/// width.
pub fn wrap_shift_background(pos: i32, shift: i32) -> (moved: i32)
    requires
        shift <= 0,
        i32::MIN <= wrap_shift(pos as int, shift as int),
    ensures
        moved == wrap_shift(pos as int, shift as int),
{
    if pos <= -BACKGROUND_WIDTH {
        pos + BACKGROUND_WIDTH + shift
    } else {
        pos + shift
    }
}

/// The background as a mathematical value.
pub struct ScrollState {
    /// Horizontal position of the far layer.
    pub far_bg_shift: int,
    /// Horizontal position of the near layer.
    pub near_bg_shift: int,
    /// Counts the calls between two moves of the far layer.
    pub far_bg_shift_mod: int,
}

impl ScrollState {
    /// The far layer is within one tile left of the origin, the near layer is
    /// not right of it, and the counter is below twenty.
    pub open spec fn wf(self) -> bool {
        &&& -256 <= self.far_bg_shift <= 0
        &&& self.near_bg_shift <= 0
        &&& 0 <= self.far_bg_shift_mod < 20
    }

    /// Both layers at the origin.
    pub open spec fn initial() -> ScrollState {
        ScrollState { far_bg_shift: 0, near_bg_shift: 0, far_bg_shift_mod: 0 }
    }

    /// The state after one step: the near layer moves by `near_bg_shift`, the
    /// far layer by one pixel on one step in twenty.
    pub open spec fn shifted(self, near_bg_shift: int) -> ScrollState {
        let counter = (self.far_bg_shift_mod + 1) % 20;
        ScrollState {
            far_bg_shift: if counter == 9 {
                wrap_shift(self.far_bg_shift, -1)
            } else {
                self.far_bg_shift
            },
            near_bg_shift: wrap_shift(self.near_bg_shift, near_bg_shift),
            far_bg_shift_mod: counter,
        }
    }

    /// What is drawn for this state: each layer twice, one tile apart, so that
    /// the screen is always covered, and the moon once on each far tile.
    pub open spec fn shapes(self) -> Seq<Shape> {
        seq![
            tile(Layer::Far, self.far_bg_shift, 0),
            tile(Layer::Far, self.far_bg_shift + 256, 0),
            tile(Layer::Near, self.near_bg_shift, 16),
            tile(Layer::Near, self.near_bg_shift + 256, 16),
            moon(self.far_bg_shift),
            moon(self.far_bg_shift + 256),
        ]
    }
}

/// A copy of `layer`'s image with its left edge at `x` and its top at `y`.
pub open spec fn tile(layer: Layer, x: int, y: int) -> Shape {
    Shape::Tile { layer, top_left: Point { x: x as i32, y: y as i32 } }
}

/// The moon on the far tile whose left edge is at `x`.
pub open spec fn moon(x: int) -> Shape {
    Shape::Circle { top_left: Point { x: (x + 40) as i32, y: 2 }, diameter: 10, style: Style::Fill }
}

/// The scrolling background.
pub struct Background {
    far_bg_shift: i32,
    near_bg_shift: i32,
    far_bg_shift_mod: i32,
}

impl View for Background {
    type V = ScrollState;

    closed spec fn view(&self) -> ScrollState {
        ScrollState {
            far_bg_shift: self.far_bg_shift as int,
            near_bg_shift: self.near_bg_shift as int,
            far_bg_shift_mod: self.far_bg_shift_mod as int,
        }
    }
}

impl Background {
    /// Holds of every value of this type.
    #[verifier::type_invariant]
    pub open spec fn inv(self) -> bool {
        self@.wf()
    }

    /// A background with both layers at the origin.
    pub fn new() -> (background: Background)
        ensures
            background@ == ScrollState::initial(),
            background@.wf(),
    {
        Background { far_bg_shift: 0, near_bg_shift: 0, far_bg_shift_mod: 0 }
    }

    /// Scrolls by one step: the near layer by `near_bg_shift`, which must be
    /// negative, the far layer by one pixel on every twentieth call.
    pub fn shift_bg(&mut self, near_bg_shift: i32)
        requires
            near_bg_shift < 0,
            i32::MIN <= wrap_shift(old(self)@.near_bg_shift, near_bg_shift as int),
        ensures
            final(self)@ == old(self)@.shifted(near_bg_shift as int),
            final(self)@.wf(),
    {
        proof {
            use_type_invariant(&*self);
        }
        self.far_bg_shift_mod = (self.far_bg_shift_mod + 1) % 20;
        if self.far_bg_shift_mod == 9 {
            self.far_bg_shift = wrap_shift_background(self.far_bg_shift, -1);
        }
        self.near_bg_shift = wrap_shift_background(self.near_bg_shift, near_bg_shift);
    }

    /// Horizontal position of the far layer.
    pub fn far_bg_shift(&self) -> (shift: i32)
        ensures
            shift == self@.far_bg_shift,
            -256 <= shift <= 0,
    {
        proof {
            use_type_invariant(self);
        }
        self.far_bg_shift
    }

    /// Horizontal position of the near layer.
    pub fn near_bg_shift(&self) -> (shift: i32)
        ensures
            shift == self@.near_bg_shift,
            shift <= 0,
    {
        proof {
            use_type_invariant(self);
        }
        self.near_bg_shift
    }

    /// The shapes of the background, back to front.
    pub fn draw_bg(&self) -> (shapes: Vec<Shape>)
        ensures
            shapes@ == self@.shapes(),
    {
        proof {
            use_type_invariant(self);
        }
        let mut shapes: Vec<Shape> = Vec::new();
        draw_background(&mut shapes, Layer::Far, self.far_bg_shift, 0);
        draw_background(&mut shapes, Layer::Near, self.near_bg_shift, 16);
        draw_moon(&mut shapes, self.far_bg_shift);
        assert(shapes@ =~= self@.shapes());
        shapes
    }
}

/// Appends the two copies of a layer's image that cover the screen.
fn draw_background(shapes: &mut Vec<Shape>, layer: Layer, shift: i32, y: i32)
    requires
        shift <= 0,
    ensures
        final(shapes)@ == old(shapes)@.push(tile(layer, shift as int, y as int)).push(
            tile(layer, shift + 256, y as int),
        ),
{
    shapes.push(Shape::Tile { layer, top_left: Point { x: shift, y } });
    shapes.push(Shape::Tile { layer, top_left: Point { x: shift + BACKGROUND_WIDTH, y } });
}

/// Appends the moon, once for each copy of the far layer.
fn draw_moon(shapes: &mut Vec<Shape>, shift: i32)
    requires
        -256 <= shift <= 0,
    ensures
        final(shapes)@ == old(shapes)@.push(moon(shift as int)).push(moon(shift + 256)),
{
    shapes.push(
        Shape::Circle { top_left: Point { x: shift + 40, y: 2 }, diameter: 10, style: Style::Fill },
    );
    shapes.push(
        Shape::Circle {
            top_left: Point { x: shift + BACKGROUND_WIDTH + 40, y: 2 },
            diameter: 10,
            style: Style::Fill,
        },
    );
}

/// A layer that stands within one tile left of the origin and moves by at
/// most twenty pixels is still within one tile left of the origin, as long as
/// the move itself does not carry it past the tile's width. (A move that does
/// is wrapped back only by the step after it.)
pub proof fn lemma_wrap_stays_on_tile(pos: int, shift: int)
    requires
        -256 < pos <= 0,
        -20 <= shift <= -1,
        -256 < pos + shift,
    ensures
        -256 < wrap_shift(pos, shift) <= 0,
{
}

/// A layer that moves left by at most `reach` pixels a step never gets
/// further than `reach` pixels past one tile's width: the step after the one
/// that carried it past brings it back by a whole tile.
pub proof fn lemma_wrap_stays_in_reach(pos: int, shift: int, reach: int)
    requires
        1 <= reach <= 256,
        -256 - reach < pos <= 0,
        -reach <= shift <= -1,
    ensures
        -256 - reach < wrap_shift(pos, shift) <= 0,
{
}

/// A step of the background keeps the far layer within `[-256, 0]`, the near
/// layer left of the origin and the counter below twenty.
pub proof fn lemma_shift_keeps_bounds(state: ScrollState, near_bg_shift: int)
    requires
        state.wf(),
        near_bg_shift < 0,
    ensures
        state.shifted(near_bg_shift).wf(),
{
}

} // verus!
