use night_ride::bg::Background;
use night_ride::channel::EventChannel;
use night_ride::draw::{draw_character, Layer, Point, Shape, Style};
use night_ride::frame::{advance_frame, drain_inputs};
use night_ride::game::{Friend, Game};
use night_ride::ButtonInput;

fn at(x: i32, y: i32) -> Point {
    Point { x, y }
}

fn expected_rider(style: Style, x: i32, y: i32) -> Vec<Shape> {
    vec![
        Shape::Circle { top_left: at(x + 3, y), diameter: 8, style: Style::Stroke },
        Shape::Circle { top_left: at(x - 10, y), diameter: 8, style: Style::Stroke },
        Shape::Triangle {
            first: at(x - 3, y - 2),
            second: at(x + 3, y - 2),
            third: at(x, y + 4),
            style,
        },
        Shape::Triangle {
            first: at(x - 3, y - 2),
            second: at(x - 7, y + 4),
            third: at(x, y + 4),
            style: Style::Stroke,
        },
        Shape::Line { start: at(x + 3, y - 2), end: at(x + 7, y + 4) },
        Shape::Line { start: at(x - 3, y - 2), end: at(x, y - 6) },
        Shape::Circle { top_left: at(x - 2, y - 8), diameter: 3, style: Style::Stroke },
        Shape::Line { start: at(x, y - 6), end: at(x + 2, y - 2) },
    ]
}

#[test]
fn rider_has_eight_shapes_around_its_midpoint() {
    assert_eq!(
        draw_character(Style::Fill, at(60, 44)),
        vec![
            Shape::Circle { top_left: at(63, 44), diameter: 8, style: Style::Stroke },
            Shape::Circle { top_left: at(50, 44), diameter: 8, style: Style::Stroke },
            Shape::Triangle {
                first: at(57, 42),
                second: at(63, 42),
                third: at(60, 48),
                style: Style::Fill,
            },
            Shape::Triangle {
                first: at(57, 42),
                second: at(53, 48),
                third: at(60, 48),
                style: Style::Stroke,
            },
            Shape::Line { start: at(63, 42), end: at(67, 48) },
            Shape::Line { start: at(57, 42), end: at(60, 38) },
            Shape::Circle { top_left: at(58, 36), diameter: 3, style: Style::Stroke },
            Shape::Line { start: at(60, 38), end: at(62, 42) },
        ]
    );
    assert_eq!(draw_character(Style::Stroke, at(-3, 7)), expected_rider(Style::Stroke, -3, 7));
}

#[test]
fn player_is_drawn_stroked_at_its_offset() {
    let mut game = Game::new();
    assert_eq!(game.draw_player_character(), expected_rider(Style::Stroke, 60, 54));
    game.tick(heapless::Vec::from_slice(&[true, true, true]).unwrap());
    assert_eq!(game.draw_player_character(), expected_rider(Style::Stroke, 55, 54));
}

#[test]
fn companions_are_drawn_filled_in_their_order() {
    let game = Game::new();
    let mut expected = expected_rider(Style::Fill, 80, 44);
    expected.extend(expected_rider(Style::Fill, 40, 44));
    expected.extend(expected_rider(Style::Fill, 20, 44));
    assert_eq!(game.draw_friend_characters(), expected);
}

#[test]
fn score_is_placed_in_the_top_right_corner() {
    let game = Game::new();
    assert_eq!(game.draw_score(), Shape::Score { position: at(92, 9), value: 0 });
}

#[test]
fn drain_applies_every_waiting_event_in_order() {
    let mut channel = EventChannel::new();
    let mut game = Game::new();
    // From 4: down to the floor by five presses, then up by two.
    for _ in 0..5 {
        assert!(channel.enqueue(ButtonInput::Left));
    }
    assert!(channel.enqueue(ButtonInput::Right));
    assert!(channel.enqueue(ButtonInput::Center));
    assert!(channel.enqueue(ButtonInput::Right));
    drain_inputs(&mut channel, &mut game);
    assert_eq!(game.player_velocity(), 3);
    assert_eq!(channel.dequeue(), None);
}

#[test]
fn drain_of_an_empty_channel_changes_nothing() {
    let mut channel = EventChannel::new();
    let mut game = Game::new();
    drain_inputs(&mut channel, &mut game);
    assert_eq!(game.player_velocity(), 4);
    assert_eq!(channel.dequeue(), None);
}

#[test]
fn frame_applies_inputs_then_ticks_then_scrolls() {
    let mut channel = EventChannel::new();
    let mut game = Game::new();
    let mut background = Background::new();
    assert!(channel.enqueue(ButtonInput::Right));
    assert!(channel.enqueue(ButtonInput::Right));
    let shapes = advance_frame(&mut channel, &mut game, &mut background, true, false, true);

    assert_eq!(channel.dequeue(), None);
    assert_eq!(game.player_velocity(), 6);
    assert_eq!(game.player_position_offset(), -3);
    assert_eq!(game.sub_tick_counter(), 1);
    let moved = [
        Friend { position_offset: 18, velocity: 4 },
        Friend { position_offset: -22, velocity: 4 },
        Friend { position_offset: -42, velocity: 4 },
    ];
    assert_eq!(game.friends(), &moved[..]);

    let mut expected = vec![
        Shape::Tile { layer: Layer::Far, top_left: at(0, 0) },
        Shape::Tile { layer: Layer::Far, top_left: at(256, 0) },
        Shape::Tile { layer: Layer::Near, top_left: at(-6, 16) },
        Shape::Tile { layer: Layer::Near, top_left: at(250, 16) },
        Shape::Circle { top_left: at(40, 2), diameter: 10, style: Style::Fill },
        Shape::Circle { top_left: at(296, 2), diameter: 10, style: Style::Fill },
    ];
    expected.extend(expected_rider(Style::Stroke, 57, 54));
    expected.extend(expected_rider(Style::Fill, 78, 44));
    expected.extend(expected_rider(Style::Fill, 38, 44));
    expected.extend(expected_rider(Style::Fill, 18, 44));
    expected.push(Shape::Score { position: at(92, 9), value: 0 });
    assert_eq!(shapes, expected);
    assert_eq!(shapes.len(), 39);
}

#[test]
fn frames_use_their_bits_on_the_scoring_tick() {
    let mut channel = EventChannel::new();
    let mut game = Game::new();
    let mut background = Background::new();
    for _ in 0..39 {
        advance_frame(&mut channel, &mut game, &mut background, true, true, true);
    }
    let shapes = advance_frame(&mut channel, &mut game, &mut background, false, true, false);
    let nudged = [
        Friend { position_offset: 19, velocity: 3 },
        Friend { position_offset: -19, velocity: 5 },
        Friend { position_offset: -41, velocity: 3 },
    ];
    assert_eq!(game.friends(), &nudged[..]);
    // Forty frames at velocity 4, and two moves of the far layer.
    assert_eq!(shapes[2], Shape::Tile { layer: Layer::Near, top_left: at(-160, 16) });
    assert_eq!(shapes[0], Shape::Tile { layer: Layer::Far, top_left: at(-2, 0) });
}
