use post_push_party::clock::Clock;
use post_push_party::game::treasure_depths::game::{CollectibleKind, Message};
use post_push_party::party::style;
use post_push_party::text::decimal;

#[test]
fn day_numbers_follow_the_local_timezone() {
    // 2026-01-29 04:00 UTC is still 2026-01-28 in UTC-5
    let clock = Clock::with_offset(1769659200, -5 * 3600);
    assert_eq!(clock.day_of(1769659200), 20481);
    assert_eq!(clock.today(), 20481);
    assert_eq!(clock.day_id_of(1769659200), clock.today_id());
    assert_eq!(Clock::at(1769659200).today(), 20482);
}

#[test]
fn day_of_week_counts_from_thursday() {
    // 1970-01-01 was a Thursday
    assert_eq!(Clock::at(3600).day_of_week(), 0);
    assert_eq!(Clock::at(86400 + 3600).day_of_week(), 1);
    assert_eq!(Clock::at(3 * 86400).day_of_week(), 3);
}

#[test]
fn local_seconds_wrap_at_midnight() {
    let clock = Clock::with_offset(3600, -2 * 3600);
    assert_eq!(clock.local_seconds_since_midnight(), 86400 - 3600);
    // day numbers round toward zero before the epoch
    assert_eq!(clock.today(), 0);
}

#[test]
fn day_starts_shift_by_the_offset() {
    let clock = Clock::with_offset(1769594400, -8 * 3600);
    assert_eq!(clock.day_start(20481), 20481 * 86400 + 8 * 3600);
    assert_eq!(clock.today_start(), clock.day_start(clock.today_id()));
    assert!(clock.is_today(clock.today_start()));
    assert!(!clock.is_today(clock.today_start() - 1));
    assert_eq!(clock.tz_offset_secs(), -8 * 3600);
    assert_eq!(clock.now(), 1769594400);
}

#[test]
fn decimal_writes_digits() {
    assert_eq!(decimal(0), "0");
    assert_eq!(decimal(7), "7");
    assert_eq!(decimal(1600), "1600");
    assert_eq!(decimal(u64::MAX), u64::MAX.to_string());
}

#[test]
fn styles_wrap_text_in_escape_codes() {
    assert_eq!(style::bold("hi"), "\x1b[1mhi\x1b[22m");
    assert_eq!(style::italic("hi"), "\x1b[3mhi\x1b[22m");
    assert_eq!(style::dim("hi"), "\x1b[2mhi\x1b[22m");
    assert_eq!(style::white("hi"), "\x1b[39mhi");
    assert_eq!(style::green("hi"), "\x1b[32mhi\x1b[39m");
    assert_eq!(style::magenta("hi"), "\x1b[35mhi\x1b[39m");
    assert_eq!(style::cyan("hi"), "\x1b[36mhi\x1b[39m");
    assert_eq!(style::yellow("hi"), "\x1b[33mhi\x1b[39m");
    assert_eq!(style::gray("hi"), "\x1b[90mhi\x1b[39m");
    assert_eq!(style::bright_magenta("hi"), "\x1b[95mhi\x1b[39m");
    assert_eq!(style::bright_yellow("hi"), "\x1b[93mhi\x1b[39m");
}

#[test]
fn messages_read_as_displayed() {
    assert_eq!(Message::SurfaceRefill(205).text(), "Fuel refilled! Banked 205 P!");
    assert_eq!(Message::Start.text(), "Press an arrow key to move.");
    assert_eq!(Message::InventoryFull.text(), "Your inventory is full!");
}

#[test]
fn collectibles_are_worth_their_value() {
    assert_eq!(CollectibleKind::Gold.value(), 5);
    assert_eq!(CollectibleKind::Ruby.value(), 1_000);
    assert_eq!(CollectibleKind::Fuel.value(), 0);
    assert_eq!(3 * CollectibleKind::Gold.value(), 15);
}
