use open_interpreter::startup_status::{
    render_frame, shows_status_line, supports_truecolor, sweep_length, Band, Emphasis, Shade,
};

fn shade(level: u8, emphasis: Emphasis) -> Shade {
    Shade {
        red: level,
        green: level,
        blue: level,
        emphasis,
    }
}

fn band() -> Band {
    Band {
        shades: vec![
            shade(225, Emphasis::Bold),
            shade(160, Emphasis::Plain),
        ],
        resting: shade(130, Emphasis::Dim),
    }
}

#[test]
fn the_sweep_covers_the_label_and_the_dark() {
    assert_eq!(sweep_length(), 16 + 20);
}

#[test]
fn a_band_far_away_leaves_the_line_at_rest() {
    let frame = render_frame(-100, false, &band());
    let expected: String = "\u{2022} Starting up..."
        .chars()
        .map(|ch| format!("\x1b[2m{ch}\x1b[22m"))
        .collect();
    assert_eq!(frame, format!("{expected}\x1b[0m"));
    assert_eq!(render_frame(i64::MAX, false, &band()), frame);
    assert_eq!(render_frame(i64::MIN, false, &band()), frame);
}

#[test]
fn the_band_lights_the_characters_under_it() {
    let frame = render_frame(10, false, &band());
    assert!(frame.starts_with("\x1b[1m\u{2022}\x1b[22m \x1b[2mS\x1b[22m"));
    let frame = render_frame(12, false, &band());
    assert!(frame.starts_with("\x1b[2m\u{2022}\x1b[22m \x1b[1mS\x1b[22mt\x1b[2ma\x1b[22m"));
}

#[test]
fn colors_are_written_in_full() {
    let frame = render_frame(10, true, &band());
    assert!(frame.starts_with(
        "\x1b[1;38;2;225;225;225m\u{2022}\x1b[1;38;2;160;160;160m \x1b[1;38;2;130;130;130mS"
    ));
    assert!(frame.ends_with(".\x1b[0m"));
}

#[test]
fn terminals_say_whether_they_have_all_colors() {
    assert!(supports_truecolor(&Some("truecolor".to_string())));
    assert!(supports_truecolor(&Some("x-24bit-y".to_string())));
    assert!(!supports_truecolor(&Some("256color".to_string())));
    assert!(!supports_truecolor(&Some("".to_string())));
    assert!(!supports_truecolor(&None));
}

#[test]
fn the_line_is_shown_only_while_the_daemon_starts() {
    assert!(shows_status_line(false, true));
    assert!(!shows_status_line(true, true));
    assert!(!shows_status_line(false, false));
    assert!(!shows_status_line(true, false));
}
