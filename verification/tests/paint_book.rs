use device_envoy_cyd_starter::app::{
    page_turn_rectangle, Exit, Page, PaintAction, PaintBook, PaintInput,
};
use device_envoy_cyd_starter::geometry::{Rect, ScreenPoint, ScreenSize};
use device_envoy_cyd_starter::persistence::HighScore;

fn point(x: i32, y: i32) -> ScreenPoint {
    ScreenPoint { x, y }
}

#[test]
fn pages_cycle_through_all_three() {
    assert_eq!(Page::default(), Page::CrabBeach);
    assert_eq!(Page::CrabBeach.next(), Page::DogWalk);
    assert_eq!(Page::DogWalk.next(), Page::CaveArt);
    assert_eq!(Page::CaveArt.next(), Page::CrabBeach);
}

#[test]
fn calibration_button_stops_the_book() {
    let mut book = PaintBook::new(Page::DogWalk);
    book.step(PaintInput::Down { point: point(10, 10) });
    assert_eq!(
        book.step(PaintInput::CalibrationButton),
        PaintAction::Stop(Exit::CalibrationRequested)
    );
    assert_eq!(book.previous_point, Some(point(10, 10)));
}

#[test]
fn no_touch_waits() {
    let mut book = PaintBook::new(Page::CrabBeach);
    assert_eq!(book.step(PaintInput::NoTouch), PaintAction::Wait);
    assert_eq!(book, PaintBook::new(Page::CrabBeach));
}

#[test]
fn touching_the_folded_corner_turns_the_page() {
    let mut book = PaintBook::new(Page::CaveArt);
    book.step(PaintInput::Down { point: point(5, 5) });
    assert_eq!(
        book.step(PaintInput::Down { point: point(270, 0) }),
        PaintAction::ShowPage(Page::CrabBeach)
    );
    assert_eq!(book.previous_point, None);
    assert_eq!(
        book.step(PaintInput::Down { point: point(319, 44) }),
        PaintAction::ShowPage(Page::DogWalk)
    );
    // Just outside the corner a touch starts a stroke instead.
    assert_eq!(book.step(PaintInput::Down { point: point(320, 10) }), PaintAction::Present);
    assert_eq!(book.step(PaintInput::Down { point: point(300, 45) }), PaintAction::Present);
    assert_eq!(book.step(PaintInput::Down { point: point(269, 10) }), PaintAction::Present);
    assert_eq!(book.page, Page::DogWalk);
    assert_eq!(book.previous_point, Some(point(269, 10)));
}

#[test]
fn strokes_follow_the_finger() {
    let mut book = PaintBook::new(Page::CrabBeach);
    assert_eq!(book.step(PaintInput::Move { point: point(1, 1) }), PaintAction::Present);
    assert_eq!(book.previous_point, None);
    book.step(PaintInput::Down { point: point(100, 100) });
    assert_eq!(
        book.step(PaintInput::Move { point: point(110, 105) }),
        PaintAction::Stroke { from: point(100, 100), to: point(110, 105) }
    );
    assert_eq!(
        book.step(PaintInput::Move { point: point(120, 90) }),
        PaintAction::Stroke { from: point(110, 105), to: point(120, 90) }
    );
    assert_eq!(book.step(PaintInput::Up), PaintAction::Present);
    assert_eq!(book.previous_point, None);
    assert_eq!(book.step(PaintInput::Move { point: point(130, 90) }), PaintAction::Present);
}

#[test]
fn rectangles_contain_their_pixels_only() {
    let corner = page_turn_rectangle();
    assert!(corner.contains(point(270, 0)));
    assert!(corner.contains(point(319, 44)));
    assert!(!corner.contains(point(320, 44)));
    assert!(!corner.contains(point(319, 45)));
    assert!(!corner.contains(point(269, 0)));
    assert!(!corner.contains(point(270, -1)));
    let empty = Rect { top_left: point(0, 0), size: ScreenSize { width: 0, height: 5 } };
    assert!(!empty.contains(point(0, 0)));
    let far = Rect { top_left: point(i32::MAX - 1, 0), size: ScreenSize { width: u32::MAX, height: 1 } };
    assert!(far.contains(point(i32::MAX, 0)));
}

#[test]
fn high_score_keeps_the_best() {
    let mut best = HighScore::default();
    assert_eq!(best.value(), 0);
    assert!(!best.record_if_higher(0));
    assert!(best.record_if_higher(50));
    assert_eq!(best.value(), 50);
    assert!(!best.record_if_higher(30));
    assert!(!best.record_if_higher(50));
    assert_eq!(best.value(), 50);
    assert!(best.record_if_higher(u32::MAX));
    assert_eq!(best.value(), u32::MAX);
}
