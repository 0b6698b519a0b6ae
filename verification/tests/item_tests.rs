use game_of_life::coord::Coord;
use game_of_life::pixel::{Color, Pixel};
use game_of_life::random::{alive_from_draw, random, DRAW_MAX, DRAW_THRESHOLD};

#[test]
fn coord_new_keeps_its_arguments() {
    let c = Coord::new(3, -4);
    assert_eq!(c.x, 3);
    assert_eq!(c.y, -4);
    assert_eq!(c, Coord { x: 3, y: -4 });
    let c = Coord::new(i32::MIN, i32::MAX);
    assert_eq!((c.x, c.y), (i32::MIN, i32::MAX));
}

#[test]
fn pixel_new_keeps_its_arguments() {
    let p = Pixel::new(14, 21, true);
    assert_eq!(p.x, 14);
    assert_eq!(p.y, 21);
    assert!(p.alive);
    let q = Pixel::new(-7, 0, false);
    assert_eq!((q.x, q.y, q.alive), (-7, 0, false));
}

#[test]
fn live_pixel_is_white_and_dead_pixel_is_black() {
    assert_eq!(Pixel::new(0, 0, true).color(), Color::White);
    assert_eq!(Pixel::new(0, 0, false).color(), Color::Black);
    assert_eq!(Pixel::new(70, 35, false).color(), Color::Black);
}

#[test]
fn draw_above_the_threshold_is_alive() {
    assert_eq!(DRAW_MAX, 100);
    assert_eq!(DRAW_THRESHOLD, 66);
    assert!(!alive_from_draw(0));
    assert!(!alive_from_draw(65));
    assert!(!alive_from_draw(66));
    assert!(alive_from_draw(67));
    assert!(alive_from_draw(100));
    assert!(!alive_from_draw(-1));
    let alive = (0..=100).filter(|&draw| alive_from_draw(draw)).count();
    assert_eq!(alive, 34);
}

#[test]
fn random_stays_in_its_range() {
    for _ in 0..2000 {
        let n = random(0, 100);
        assert!(0 <= n && n <= 100);
    }
    for _ in 0..200 {
        let n = random(-3, 2);
        assert!(-3 <= n && n <= 2);
    }
}

#[test]
fn random_of_one_number_is_that_number() {
    for _ in 0..50 {
        assert_eq!(random(5, 5), 5);
        assert_eq!(random(-9, -9), -9);
        assert_eq!(random(i32::MAX - 1, i32::MAX - 1), i32::MAX - 1);
    }
}

#[test]
fn random_reaches_both_ends_and_more_than_one_number() {
    let mut seen = [false; 4];
    for _ in 0..2000 {
        seen[random(0, 3) as usize] = true;
    }
    assert_eq!(seen, [true, true, true, true]);
}
