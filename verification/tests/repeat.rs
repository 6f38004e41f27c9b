use gpui_wayland::numbers::{reinterpret, sign_extend};
use gpui_wayland::repeat::{RepeatTimer, TimeoutAction};
use gpui_wayland::KeyRepeat;

#[test]
fn settings_before_the_compositor_speaks() {
    let repeat = KeyRepeat::new();
    assert_eq!(repeat.characters_per_second, 16);
    assert_eq!(repeat.delay, 500);
    assert_eq!(repeat.current_id, 0);
    assert_eq!(repeat.current_keysym, None);
}

#[test]
fn settings_of_the_compositor() {
    let mut repeat = KeyRepeat::new();
    repeat.set_info(25, 600);
    assert_eq!(repeat.characters_per_second, 25);
    assert_eq!(repeat.delay, 600);
    repeat.set_info(-1, -1);
    assert_eq!(repeat.characters_per_second, u32::MAX);
    assert_eq!(repeat.delay, u64::MAX);
}

#[test]
fn numbers_keep_their_bits() {
    assert_eq!(reinterpret(7), 7);
    assert_eq!(reinterpret(-2), 0xffff_fffe);
    assert_eq!(reinterpret(i32::MIN), 0x8000_0000);
    assert_eq!(sign_extend(7), 7);
    assert_eq!(sign_extend(i32::MIN), 0xffff_ffff_8000_0000);
}

#[test]
fn pressed_key_repeats_at_its_rate() {
    let mut repeat = KeyRepeat::new();
    let timer = repeat.press(0x61);
    assert_eq!(timer, RepeatTimer { id: 1, rate: 16, delay: 500 });
    assert!(repeat.is_repeating(1, Some(7)));
    assert_eq!(
        repeat.timeout(timer.id, timer.rate, Some(7)),
        TimeoutAction::Repeat { window: 7, nanoseconds: 62_500_000 }
    );
    assert_eq!(
        repeat.timeout(1, 3, Some(7)),
        TimeoutAction::Repeat { window: 7, nanoseconds: 333_333_333 }
    );
    assert_eq!(
        repeat.timeout(1, 1, Some(7)),
        TimeoutAction::Repeat { window: 7, nanoseconds: 1_000_000_000 }
    );
    assert_eq!(
        repeat.timeout(1, u32::MAX, Some(7)),
        TimeoutAction::Repeat { window: 7, nanoseconds: 0 }
    );
}

#[test]
fn earlier_timers_are_dropped() {
    let mut repeat = KeyRepeat::new();
    let first = repeat.press(0x61);
    let second = repeat.press(0x62);
    assert_eq!(second.id, 2);
    assert_eq!(repeat.timeout(first.id, first.rate, Some(1)), TimeoutAction::Drop);
    assert!(repeat.is_repeating(second.id, Some(1)));
}

#[test]
fn release_and_lost_focus_drop_the_timer() {
    let mut repeat = KeyRepeat::new();
    let timer = repeat.press(0x61);
    assert_eq!(repeat.timeout(timer.id, timer.rate, None), TimeoutAction::Drop);
    repeat.release();
    assert_eq!(repeat.timeout(timer.id, timer.rate, Some(1)), TimeoutAction::Drop);
    assert_eq!(repeat.timeout(timer.id, 0, Some(1)), TimeoutAction::Drop);
}
