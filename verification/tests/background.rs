use night_ride::bg::{wrap_shift_background, Background};
use night_ride::draw::{Layer, Point, Shape, Style};

fn far_shift(background: &Background) -> i32 {
    background.far_bg_shift()
}

fn near_shift(background: &Background) -> i32 {
    background.near_bg_shift()
}

#[test]
fn wrap_moves_a_visible_layer_by_the_shift() {
    assert_eq!(wrap_shift_background(0, -1), -1);
    assert_eq!(wrap_shift_background(0, -20), -20);
    assert_eq!(wrap_shift_background(-100, -4), -104);
    assert_eq!(wrap_shift_background(-255, -1), -256);
    assert_eq!(wrap_shift_background(-7, 0), -7);
}

#[test]
fn wrap_brings_a_layer_back_by_one_tile() {
    assert_eq!(wrap_shift_background(-256, -1), -1);
    assert_eq!(wrap_shift_background(-256, -20), -20);
    assert_eq!(wrap_shift_background(-270, -4), -18);
    assert_eq!(wrap_shift_background(-275, -20), -39);
}

#[test]
fn wrap_stays_on_the_tile_while_the_move_does() {
    for pos in -255..=0 {
        for shift in -20..=-1 {
            if pos + shift > -256 {
                let moved = wrap_shift_background(pos, shift);
                assert!(-256 < moved && moved <= 0, "{} {} {}", pos, shift, moved);
            }
        }
    }
}

#[test]
fn wrap_overshoots_the_tile_by_less_than_one_step() {
    assert_eq!(wrap_shift_background(-250, -20), -270);
    for pos in -275..=0 {
        for shift in -20..=-1 {
            let moved = wrap_shift_background(pos, shift);
            assert!(-276 < moved && moved <= 0, "{} {} {}", pos, shift, moved);
        }
    }
}

#[test]
fn new_background_stands_at_the_origin() {
    let background = Background::new();
    assert_eq!(far_shift(&background), 0);
    assert_eq!(near_shift(&background), 0);
}

#[test]
fn far_layer_moves_on_the_ninth_call_and_every_twentieth_after() {
    let mut background = Background::new();
    for call in 1..=100 {
        background.shift_bg(-1);
        let expected = if call < 9 { 0 } else { -(1 + (call - 9) / 20) };
        assert_eq!(far_shift(&background), expected, "after call {}", call);
    }
    assert_eq!(far_shift(&background), -5);
}

#[test]
fn far_layer_wraps_after_a_whole_tile() {
    let mut background = Background::new();
    for _ in 0..(9 + 255 * 20) {
        background.shift_bg(-1);
    }
    assert_eq!(far_shift(&background), -256);
    for _ in 0..20 {
        background.shift_bg(-1);
    }
    assert_eq!(far_shift(&background), -1);
}

#[test]
fn near_layer_follows_the_shift_and_wraps() {
    let mut background = Background::new();
    background.shift_bg(-4);
    assert_eq!(near_shift(&background), -4);
    background.shift_bg(-20);
    assert_eq!(near_shift(&background), -24);
    for _ in 0..12 {
        background.shift_bg(-20);
    }
    assert_eq!(near_shift(&background), -264);
    background.shift_bg(-20);
    assert_eq!(near_shift(&background), -28);
}

#[test]
fn background_is_drawn_twice_with_a_moon_on_each_far_tile() {
    let mut background = Background::new();
    for _ in 0..9 {
        background.shift_bg(-3);
    }
    let tile = |layer, x, y| Shape::Tile { layer, top_left: Point { x, y } };
    let moon = |x| Shape::Circle { top_left: Point { x, y: 2 }, diameter: 10, style: Style::Fill };
    assert_eq!(
        background.draw_bg(),
        vec![
            tile(Layer::Far, -1, 0),
            tile(Layer::Far, 255, 0),
            tile(Layer::Near, -27, 16),
            tile(Layer::Near, 229, 16),
            moon(39),
            moon(295),
        ]
    );
}
