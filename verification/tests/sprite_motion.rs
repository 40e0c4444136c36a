use platformer_core::sprite_motion::{sprite_movement, Heading, MovingSprite};

#[test]
fn drifts_along_each_heading() {
    let mut s = MovingSprite { heading: Heading::Up, x: 0, y: 0 };
    sprite_movement(&mut s, 10);
    assert_eq!((s.x, s.y), (0, 1_500));

    let mut s = MovingSprite { heading: Heading::Down, x: 0, y: 0 };
    sprite_movement(&mut s, 10);
    assert_eq!((s.x, s.y), (0, -1_500));

    let mut s = MovingSprite { heading: Heading::Left, x: 0, y: 0 };
    sprite_movement(&mut s, 10);
    assert_eq!((s.x, s.y), (-1_500, 0));

    let mut s = MovingSprite { heading: Heading::Right, x: 0, y: 0 };
    sprite_movement(&mut s, 10);
    assert_eq!((s.x, s.y), (1_500, 0));
}

#[test]
fn keeps_heading_inside_the_region() {
    let mut s = MovingSprite { heading: Heading::Up, x: 0, y: 0 };
    sprite_movement(&mut s, 10);
    assert_eq!(s.heading, Heading::Up);
}

#[test]
fn turns_down_past_the_top_edge() {
    let mut s = MovingSprite { heading: Heading::Up, x: 0, y: 199_000 };
    sprite_movement(&mut s, 10);
    assert_eq!(s.y, 200_500);
    assert_eq!(s.heading, Heading::Down);
}

#[test]
fn turns_left_past_the_bottom_edge() {
    let mut s = MovingSprite { heading: Heading::Down, x: 0, y: -199_000 };
    sprite_movement(&mut s, 10);
    assert_eq!(s.y, -200_500);
    assert_eq!(s.heading, Heading::Left);
}

#[test]
fn turns_right_past_the_left_edge() {
    let mut s = MovingSprite { heading: Heading::Left, x: -199_500, y: 0 };
    sprite_movement(&mut s, 10);
    assert_eq!(s.x, -201_000);
    assert_eq!(s.heading, Heading::Right);
}

#[test]
fn turns_up_past_the_right_edge() {
    let mut s = MovingSprite { heading: Heading::Right, x: 199_500, y: 0 };
    sprite_movement(&mut s, 10);
    assert_eq!(s.x, 201_000);
    assert_eq!(s.heading, Heading::Up);
}

#[test]
fn top_edge_wins_over_the_others() {
    // past the top and the right edge at once: the top rule is checked first
    let mut s = MovingSprite { heading: Heading::Up, x: 300_000, y: 199_000 };
    sprite_movement(&mut s, 10);
    assert_eq!(s.heading, Heading::Down);
}

#[test]
fn exactly_on_the_edge_does_not_turn() {
    // the turn rules use strict comparisons
    let mut s = MovingSprite { heading: Heading::Up, x: 0, y: 198_500 };
    sprite_movement(&mut s, 10);
    assert_eq!(s.y, 200_000);
    assert_eq!(s.heading, Heading::Up);
}
