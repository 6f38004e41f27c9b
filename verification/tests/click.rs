use gpui_wayland::click::PressContext;
use gpui_wayland::{ClickState, Point};

const INTERVAL: u128 = 400_000_000;

fn at(time: u128, near: bool) -> PressContext {
    PressContext {
        checked_at: time,
        pressed_at: time,
        double_click_interval: INTERVAL,
        within_click_distance: near,
    }
}

#[test]
fn quick_presses_add_up() {
    let here = Point { x: 10, y: 20 };
    let mut click = ClickState::new(0);
    assert_eq!(click.current_count, 0);
    click.press(at(1_000, true), here);
    assert_eq!(click.current_count, 1);
    click.press(at(2_000, true), here);
    assert_eq!(click.current_count, 2);
    click.press(at(2_000 + INTERVAL - 1, true), here);
    assert_eq!(click.current_count, 3);
    assert_eq!(click.last_location, here);
    assert_eq!(click.last_click, 2_000 + INTERVAL - 1);
}

#[test]
fn late_press_starts_over() {
    let here = Point { x: 0, y: 0 };
    let mut click = ClickState::new(0);
    click.press(at(0, true), here);
    click.press(at(1, true), here);
    assert_eq!(click.current_count, 2);
    click.press(at(1 + INTERVAL, true), here);
    assert_eq!(click.current_count, 1);
}

#[test]
fn distant_press_starts_over() {
    let mut click = ClickState::new(0);
    click.press(at(0, true), Point { x: 0, y: 0 });
    click.press(at(1, true), Point { x: 0, y: 0 });
    click.press(at(2, false), Point { x: 9_000, y: 0 });
    assert_eq!(click.current_count, 1);
    assert_eq!(click.last_location, Point { x: 9_000, y: 0 });
}

#[test]
fn the_second_reading_is_kept() {
    let mut click = ClickState::new(50);
    let context = PressContext {
        checked_at: 60,
        pressed_at: 75,
        double_click_interval: INTERVAL,
        within_click_distance: true,
    };
    click.press(context, Point::default());
    assert_eq!(click.last_click, 75);
}

#[test]
fn reading_before_the_last_press_counts_as_no_time() {
    let mut click = ClickState::new(1_000_000);
    click.press(at(5, true), Point::default());
    assert_eq!(click.current_count, 1);
    click.last_click = 900;
    click.press(at(5, true), Point::default());
    assert_eq!(click.current_count, 2);
}

#[test]
fn full_count_has_room_only_for_a_new_click() {
    let mut click = ClickState::new(0);
    click.current_count = usize::MAX;
    assert!(!click.can_press(at(1, true)));
    assert!(click.can_press(at(1, false)));
    assert!(click.can_press(at(INTERVAL, true)));
}
