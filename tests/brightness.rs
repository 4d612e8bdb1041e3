use ambient_brightness::kbd_brightness::{kbd_level, KBDBrightness};
use ambient_brightness::policy::write_needed;
use ambient_brightness::screen_brightness::{apply_offset, base_percent, ScreenBrightness};

fn screen(max: u32) -> ScreenBrightness {
    ScreenBrightness::new("backlight".to_string(), "intel_backlight".to_string(), max)
}

fn keyboard() -> KBDBrightness {
    KBDBrightness::new("leds".to_string(), "tpacpi::kbd_backlight".to_string())
}

#[test]
fn kbd_level_table_boundaries() {
    let cases: [(u32, u32); 13] = [
        (0, 1),
        (54, 1),
        (55, 2),
        (64, 2),
        (65, 3),
        (69, 3),
        (70, 2),
        (74, 2),
        (75, 1),
        (79, 1),
        (80, 0),
        (1000, 0),
        (u32::MAX, 0),
    ];
    for (value, level) in cases {
        assert_eq!(kbd_level(value), level, "value {}", value);
    }
}

#[test]
fn kbd_level_stays_within_four_levels() {
    for value in 0..=300u32 {
        assert!(kbd_level(value) <= 3);
    }
}

#[test]
fn base_percent_table_boundaries() {
    let cases: [(u32, u32); 22] = [
        (0, 2),
        (1, 4),
        (4, 4),
        (5, 6),
        (9, 6),
        (10, 7),
        (19, 7),
        (20, 8),
        (29, 8),
        (30, 9),
        (39, 9),
        (40, 10),
        (49, 10),
        (50, 20),
        (59, 20),
        (60, 35),
        (65, 35),
        (69, 35),
        (70, 40),
        (79, 40),
        (80, 50),
        (u32::MAX, 50),
    ];
    for (value, pct) in cases {
        assert_eq!(base_percent(value), pct, "value {}", value);
    }
}

#[test]
fn base_percent_never_decreases() {
    let mut prev = base_percent(0);
    for value in 1..=300u32 {
        let pct = base_percent(value);
        assert!(pct >= prev, "value {}", value);
        prev = pct;
    }
}

#[test]
fn offset_zero_keeps_percent() {
    assert_eq!(apply_offset(35, 0), 35);
}

#[test]
fn offset_adds_and_subtracts() {
    assert_eq!(apply_offset(35, 10), 45);
    assert_eq!(apply_offset(35, -10), 25);
}

#[test]
fn positive_offset_saturates_at_max() {
    assert_eq!(apply_offset(u32::MAX, 127), u32::MAX);
    assert_eq!(apply_offset(u32::MAX - 5, 10), u32::MAX);
}

#[test]
fn negative_offset_saturates_at_zero() {
    assert_eq!(apply_offset(10, -20), 0);
    assert_eq!(apply_offset(2, -2), 0);
    assert_eq!(apply_offset(50, -128), 0);
}

#[test]
fn pct_to_brightness_zero_percent_is_off() {
    assert_eq!(screen(1000).pct_to_brightness(0), 0);
    assert_eq!(screen(1).pct_to_brightness(0), 0);
}

#[test]
fn pct_to_brightness_rounds_down() {
    assert_eq!(screen(1000).pct_to_brightness(35), 350);
    assert_eq!(screen(255).pct_to_brightness(35), 89);
}

#[test]
fn pct_to_brightness_small_range_gives_level_one() {
    assert_eq!(screen(10).pct_to_brightness(5), 1);
    assert_eq!(screen(1).pct_to_brightness(2), 1);
}

#[test]
fn pct_to_brightness_clamps_to_max() {
    assert_eq!(screen(1000).pct_to_brightness(177), 1000);
    assert_eq!(screen(1000).pct_to_brightness(u32::MAX), 1000);
    assert_eq!(screen(u32::MAX).pct_to_brightness(u32::MAX), u32::MAX);
    assert_eq!(screen(0).pct_to_brightness(5), 0);
}

#[test]
fn write_needed_only_on_change() {
    assert_eq!(write_needed(200, 350), Some(350));
    assert_eq!(write_needed(350, 350), None);
}

#[test]
fn kbd_adjust_writes_when_level_differs() {
    let kbd = keyboard();
    assert_eq!(kbd.adjust(60, 0), Some(2));
    assert_eq!(kbd.adjust(90, 3), Some(0));
}

#[test]
fn kbd_adjust_skips_when_level_matches() {
    let kbd = keyboard();
    assert_eq!(kbd.adjust(67, 3), None);
}

#[test]
fn kbd_adjust_twice_writes_once() {
    let kbd = keyboard();
    let first = kbd.adjust(60, 0);
    assert_eq!(first, Some(2));
    let hardware = first.unwrap();
    assert_eq!(kbd.adjust(60, hardware), None);
}

#[test]
fn screen_adjust_twice_writes_once() {
    let scr = screen(1000);
    let first = scr.adjust(45, 0);
    assert_eq!(first, Some(100));
    let hardware = first.unwrap();
    assert_eq!(scr.adjust(45, hardware), None);
}

#[test]
fn screen_end_to_end_sets_350() {
    let scr = screen(1000);
    assert_eq!(scr.offset(), 0);
    assert_eq!(base_percent(65), 35);
    assert_eq!(scr.adjust(65, 200), Some(350));
}

#[test]
fn screen_adjust_applies_offset() {
    let mut scr = screen(1000);
    scr.increase(20);
    assert_eq!(scr.offset(), 20);
    assert_eq!(scr.adjust(65, 200), Some(550));
}

#[test]
fn screen_large_offset_clamps_to_max() {
    let mut scr = screen(1000);
    scr.increase(127);
    assert_eq!(scr.adjust(80, 0), Some(1000));
}

#[test]
fn screen_negative_offset_turns_off() {
    let mut scr = screen(1000);
    scr.decrease(127);
    assert_eq!(scr.offset(), -127);
    assert_eq!(scr.adjust(80, 500), Some(0));
}

#[test]
fn increase_then_decrease_restores_offset() {
    let mut scr = screen(1000);
    scr.increase(5);
    let before = scr.adjust(65, 200);
    scr.increase(30);
    assert_eq!(scr.offset(), 35);
    scr.decrease(30);
    assert_eq!(scr.offset(), 5);
    assert_eq!(scr.adjust(65, 200), before);
    scr.increase(-40);
    scr.decrease(-40);
    assert_eq!(scr.offset(), 5);
    assert_eq!(scr.adjust(65, 200), Some(400));
}

#[test]
fn controllers_keep_their_device() {
    let scr = screen(1000);
    assert_eq!(scr.subsystem(), "backlight");
    assert_eq!(scr.name(), "intel_backlight");
    assert_eq!(scr.max_brightness(), 1000);
    let kbd = keyboard();
    assert_eq!(kbd.subsystem(), "leds");
    assert_eq!(kbd.name(), "tpacpi::kbd_backlight");
}
