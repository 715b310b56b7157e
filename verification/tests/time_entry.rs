use ghost_timer::models::time_entry::{
    display_text, format_clock, format_time, is_ascii_digit, parse_entry, parse_number,
    parse_timer_edit_text, parse_timer_input, EditField, TimeEditor,
};
use ghost_timer::models::timer::TimerState;
use ghost_timer::time::{Duration, Instant};

fn editor(text: &str, cursor_pos: usize, field: EditField) -> TimeEditor {
    TimeEditor { text: text.to_string(), cursor_pos, field }
}

#[test]
fn time_is_formatted_as_minutes_and_seconds() {
    assert_eq!(format_time(Duration::zero()), "00:00");
    assert_eq!(format_time(Duration::from_secs(5 * 60)), "05:00");
    assert_eq!(format_time(Duration::from_secs(61)), "01:01");
    assert_eq!(format_time(Duration::from_secs(59 * 60 + 59)), "59:59");
    assert_eq!(format_time(Duration::from_secs(999 * 60 + 9)), "999:09");
    assert_eq!(format_time(Duration::from_millis(61_999)), "01:01");
    assert_eq!(format_time(Duration::from_secs(24 * 60 * 60)), "1440:00");
    assert_eq!(format_clock(0, 0), "00:00");
    assert_eq!(format_clock(7, 10), "07:10");
    assert_eq!(format_clock(10, 100), "10:100");
    assert_eq!(
        format_clock(u128::MAX, 9),
        "340282366920938463463374607431768211455:09"
    );
}

#[test]
fn numbers_are_read_as_the_standard_library_reads_them() {
    let cases = [
        "", "+", "0", "00", "5", "+5", "++5", "-5", "5+", " 5", "5 ", "05", "007", "12a", "a",
        "1_0", "18446744073709551615", "18446744073709551616", "+18446744073709551615",
        "99999999999999999999999", "\u{662}", "1\u{e4}", "0000000000000000000000000001",
    ];
    for text in cases {
        assert_eq!(parse_number(text), text.parse::<u64>().ok(), "{text:?}");
    }
    assert_eq!(parse_number("42"), Some(42));
    assert_eq!(parse_number("18446744073709551615"), Some(u64::MAX));
    assert_eq!(parse_number("18446744073709551616"), None);
    for c in ['0', '5', '9'] {
        assert!(is_ascii_digit(c));
    }
    for c in ['/', ':', 'a', ' ', '\u{662}'] {
        assert!(!is_ascii_digit(c));
    }
}

#[test]
fn entry_text_needs_exactly_one_colon() {
    assert_eq!(parse_entry("05:00"), Some((5, 0)));
    assert_eq!(parse_entry("5:3"), Some((5, 3)));
    assert_eq!(parse_entry("999:59"), Some((999, 59)));
    assert_eq!(parse_entry("+1:+2"), Some((1, 2)));
    assert_eq!(parse_entry("1000:00"), None);
    assert_eq!(parse_entry("00:60"), None);
    assert_eq!(parse_entry("0500"), None);
    assert_eq!(parse_entry("05:00:00"), None);
    assert_eq!(parse_entry(":"), None);
    assert_eq!(parse_entry("5:"), None);
    assert_eq!(parse_entry(":5"), None);
    assert_eq!(parse_entry(""), None);
    assert_eq!(parse_entry("a:b"), None);
    assert_eq!(parse_entry("05:0\u{e4}"), None);
    assert_eq!(parse_timer_edit_text("05:00"), Some(Duration::from_secs(300)));
    assert_eq!(parse_timer_edit_text("999:59"), Some(Duration::from_secs(59_999)));
    assert_eq!(parse_timer_edit_text("x"), None);
}

#[test]
fn two_field_input_takes_up_to_59_of_each() {
    assert_eq!(parse_timer_input("5", "0"), Some(Duration::from_secs(300)));
    assert_eq!(parse_timer_input("59", "59"), Some(Duration::from_secs(3_599)));
    assert_eq!(parse_timer_input("0", "0"), Some(Duration::zero()));
    assert_eq!(parse_timer_input("60", "0"), None);
    assert_eq!(parse_timer_input("0", "60"), None);
    assert_eq!(parse_timer_input("", "0"), None);
    assert_eq!(parse_timer_input("5", "x"), None);
}

#[test]
fn up_arrow_adds_one_to_the_edited_part() {
    let cases = [
        ("05:00", EditField::Minutes, "06:00"),
        ("999:30", EditField::Minutes, "00:30"),
        ("05:00", EditField::Seconds, "05:01"),
        ("05:59", EditField::Seconds, "06:00"),
        ("999:59", EditField::Seconds, "00:00"),
        ("5:3", EditField::Seconds, "05:04"),
        ("oops", EditField::Seconds, "oops"),
        ("1000:00", EditField::Minutes, "1000:00"),
    ];
    for (before, field, after) in cases {
        let mut e = editor(before, 3, field);
        e.increment_time();
        assert_eq!(e.text, after);
        assert_eq!(e.cursor_pos, 3);
        assert_eq!(e.field, field);
    }
}

#[test]
fn down_arrow_takes_one_from_the_edited_part() {
    let cases = [
        ("05:00", EditField::Minutes, "04:00"),
        ("00:30", EditField::Minutes, "999:30"),
        ("05:01", EditField::Seconds, "05:00"),
        ("05:00", EditField::Seconds, "04:59"),
        ("00:00", EditField::Seconds, "999:59"),
        ("oops", EditField::Minutes, "oops"),
    ];
    for (before, field, after) in cases {
        let mut e = editor(before, 0, field);
        e.decrement_time();
        assert_eq!(e.text, after);
        assert_eq!(e.field, field);
    }
}

#[test]
fn typed_digits_replace_the_character_under_the_cursor() {
    let mut e = TimeEditor::new();
    assert_eq!(e.text, "05:00");
    assert_eq!(e.value(), Some(Duration::from_secs(300)));

    e.handle_char_input('1');
    assert_eq!((e.text.as_str(), e.cursor_pos, e.field), ("15:00", 1, EditField::Minutes));
    e.handle_char_input('2');
    assert_eq!((e.text.as_str(), e.cursor_pos, e.field), ("12:00", 3, EditField::Seconds));
    e.handle_char_input('3');
    assert_eq!((e.text.as_str(), e.cursor_pos, e.field), ("12:30", 4, EditField::Seconds));
    e.handle_char_input('4');
    assert_eq!((e.text.as_str(), e.cursor_pos, e.field), ("12:34", 5, EditField::Seconds));
    e.handle_char_input('5');
    assert_eq!((e.text.as_str(), e.cursor_pos, e.field), ("12:34", 5, EditField::Seconds));
    assert_eq!(e.value(), Some(Duration::from_secs(12 * 60 + 34)));
}

#[test]
fn typing_leaves_the_colon_and_other_characters_alone() {
    let mut e = editor("05:00", 2, EditField::Minutes);
    e.handle_char_input('7');
    assert_eq!((e.text.as_str(), e.cursor_pos, e.field), ("05:00", 2, EditField::Minutes));

    for c in ['a', ':', ' ', '+', '\u{662}'] {
        let mut e = editor("05:00", 0, EditField::Minutes);
        e.handle_char_input(c);
        assert_eq!((e.text.as_str(), e.cursor_pos, e.field), ("05:00", 0, EditField::Minutes));
    }

    let mut e = editor("05:00", 3, EditField::Seconds);
    e.handle_char_input('9');
    assert_eq!((e.text.as_str(), e.cursor_pos), ("05:90", 4));
    e.handle_char_input('5');
    assert_eq!((e.text.as_str(), e.cursor_pos), ("05:95", 5));

    let mut e = editor("5:3", 0, EditField::Minutes);
    e.handle_char_input('8');
    assert_eq!((e.text.as_str(), e.cursor_pos, e.field), ("08:03", 2, EditField::Seconds));

    let mut e = editor("\u{e4}b:cd", 0, EditField::Minutes);
    e.handle_char_input('1');
    assert_eq!((e.text.as_str(), e.cursor_pos, e.field), ("1b:cd", 1, EditField::Minutes));
}

#[test]
fn the_face_shows_what_the_state_asks_for() {
    let running = TimerState::Running {
        started_at: Instant::from_nanos(0),
        remaining_duration: Duration::from_secs(90),
    };
    let paused = TimerState::Paused { remaining_duration: Duration::from_secs(90) };
    assert_eq!(display_text(&TimerState::Stopped, None, "5", "0"), "05:00");
    assert_eq!(display_text(&TimerState::Stopped, None, "12", "7"), "12:07");
    assert_eq!(display_text(&TimerState::Stopped, None, "60", "0"), "05:00");
    assert_eq!(display_text(&TimerState::Stopped, None, "", ""), "05:00");
    assert_eq!(
        display_text(&TimerState::Stopped, Some(Duration::from_secs(1)), "1", "2"),
        "01:02"
    );
    assert_eq!(display_text(&TimerState::Finished, None, "5", "0"), "DONE!");
    assert_eq!(
        display_text(&TimerState::Finished, Some(Duration::from_secs(1)), "5", "0"),
        "DONE!"
    );
    assert_eq!(display_text(&running, Some(Duration::from_millis(89_500)), "5", "0"), "01:29");
    assert_eq!(display_text(&running, None, "5", "0"), "00:00");
    assert_eq!(display_text(&paused, Some(Duration::from_secs(90)), "5", "0"), "01:30");
}
