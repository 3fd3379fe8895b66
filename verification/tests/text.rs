use wordle::ansi::{format_green_bg, format_yellow_bg};
use wordle::text::{generate_version_output, get_attempts_text};

#[test]
fn get_attempts_text_singular() {
    assert_eq!(get_attempts_text(1), "attempt");
}

#[test]
fn get_attempts_text_plural() {
    assert_eq!(get_attempts_text(0), "attempts");
    assert_eq!(get_attempts_text(2), "attempts");
    assert_eq!(get_attempts_text(3), "attempts");
    assert_eq!(get_attempts_text(10), "attempts");
}

#[test]
fn test_generate_version_output() {
    assert_eq!(
        generate_version_output("exec name", "1.0 alpha"),
        "exec name version 1.0 alpha"
    );
}

#[test]
fn format_green_bg_wraps_letter() {
    assert_eq!(format_green_bg('A'), "\x1b[48;5;2mA\x1b[0m");
}

#[test]
fn format_yellow_bg_wraps_letter() {
    assert_eq!(format_yellow_bg('B'), "\x1b[48;5;3mB\x1b[0m");
}
