use guit::settings::{
    color_or, resolve_color, resolve_emphasis, ColorChoice, Emphasis, StyleConfig,
};
use ratatui::style::Color;

fn words(list: &[&str]) -> Vec<String> {
    list.iter().map(|w| w.to_string()).collect()
}

const PLAIN: Emphasis = Emphasis { bold: false, italic: false, underlined: false, reversed: false };

#[test]
fn color_or_prefers_the_parsed_colour() {
    assert_eq!(color_or(Some(Color::Red), ColorChoice::White), ColorChoice::Named(Color::Red));
    assert_eq!(color_or(Some(Color::White), ColorChoice::Black), ColorChoice::Named(Color::White));
    assert_eq!(color_or(None, ColorChoice::White), ColorChoice::White);
    assert_eq!(color_or(None, ColorChoice::Black), ColorChoice::Black);
}

#[test]
fn resolve_color_reads_names_and_codes() {
    let white = ColorChoice::White;
    assert_eq!(resolve_color("red", white), ColorChoice::Named(Color::Red));
    assert_eq!(resolve_color("Light Blue", white), ColorChoice::Named(Color::LightBlue));
    assert_eq!(resolve_color("#ff8000", white), ColorChoice::Named(Color::Rgb(255, 128, 0)));
    assert_eq!(resolve_color("42", white), ColorChoice::Named(Color::Indexed(42)));
}

#[test]
fn resolve_color_falls_back() {
    assert_eq!(resolve_color("no such colour", ColorChoice::White), ColorChoice::White);
    assert_eq!(resolve_color("", ColorChoice::Black), ColorChoice::Black);
    assert_eq!(resolve_color("#aé123", ColorChoice::Black), ColorChoice::Black);
    assert_eq!(resolve_color("rouge é", ColorChoice::White), ColorChoice::White);
    assert_eq!(resolve_color("#éé12", ColorChoice::White), ColorChoice::White);
    assert_eq!(resolve_color("#12345é", ColorChoice::White), ColorChoice::White);
    assert_eq!(resolve_color("#1234é", ColorChoice::Black), ColorChoice::Black);
    assert_eq!(resolve_color("#ab\u{212A}de", ColorChoice::Black), ColorChoice::Black);
}

#[test]
fn emphasis_of_no_modifiers_is_plain() {
    assert_eq!(resolve_emphasis(&Vec::new()), PLAIN);
}

#[test]
fn emphasis_follows_the_modifiers() {
    assert_eq!(resolve_emphasis(&words(&["bold"])), Emphasis { bold: true, ..PLAIN });
    assert_eq!(resolve_emphasis(&words(&["italic"])), Emphasis { italic: true, ..PLAIN });
    assert_eq!(resolve_emphasis(&words(&["underlined"])), Emphasis { underlined: true, ..PLAIN });
    assert_eq!(resolve_emphasis(&words(&["reversed"])), Emphasis { reversed: true, ..PLAIN });
    assert_eq!(
        resolve_emphasis(&words(&["reversed", "bold", "bold"])),
        Emphasis { bold: true, reversed: true, ..PLAIN }
    );
}

#[test]
fn emphasis_passes_over_other_words() {
    assert_eq!(resolve_emphasis(&words(&["Bold", "blink", ""])), PLAIN);
}

#[test]
fn style_resolves_with_defaults() {
    let config = StyleConfig { fg: "nothing".to_string(), bg: None, modifiers: Vec::new() };
    let style = config.resolve();
    assert_eq!(style.fg, ColorChoice::White);
    assert_eq!(style.bg, ColorChoice::Black);
    assert_eq!(style.emphasis, PLAIN);
}

#[test]
fn style_resolves_what_it_names() {
    let config = StyleConfig {
        fg: "yellow".to_string(),
        bg: Some("dark gray".to_string()),
        modifiers: words(&["italic", "underlined"]),
    };
    let style = config.resolve();
    assert_eq!(style.fg, ColorChoice::Named(Color::Yellow));
    assert_eq!(style.bg, ColorChoice::Named(Color::DarkGray));
    assert_eq!(style.emphasis, Emphasis { italic: true, underlined: true, ..PLAIN });
    let config = StyleConfig { fg: "red".to_string(), bg: Some("??".to_string()), modifiers: Vec::new() };
    assert_eq!(config.resolve().bg, ColorChoice::Black);
}

#[test]
fn resolve_color_reads_names_that_lower_case_into_ascii() {
    let white = ColorChoice::White;
    assert_eq!(resolve_color("blac\u{212A}", white), ColorChoice::Named(Color::Black));
    assert_eq!(resolve_color("dar\u{212A} gray", white), ColorChoice::Named(Color::DarkGray));
}

#[test]
fn resolve_color_reads_codes_of_any_case() {
    let white = ColorChoice::White;
    assert_eq!(resolve_color("#FFFFFF", white), ColorChoice::Named(Color::Rgb(255, 255, 255)));
    assert_eq!(resolve_color("#00ff7F", white), ColorChoice::Named(Color::Rgb(0, 255, 127)));
    assert_eq!(resolve_color("#00ff7", white), ColorChoice::White);
    assert_eq!(resolve_color("#gggggg", white), ColorChoice::White);
}
