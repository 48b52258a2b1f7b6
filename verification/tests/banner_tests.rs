use status_screen::banner::{rainbow_colors, rainbow_text};
use status_screen::TextColor;

#[test]
fn palette_order() {
    let colors = rainbow_colors();
    assert_eq!(
        colors,
        vec![
            TextColor::Red,
            TextColor::Yellow,
            TextColor::Green,
            TextColor::Cyan,
            TextColor::Blue,
            TextColor::Magenta,
        ]
    );
}

#[test]
fn empty_text_has_no_glyphs() {
    assert!(rainbow_text("").is_empty());
}

#[test]
fn letters_cycle_through_palette() {
    let glyphs = rainbow_text("abcdefg");
    let expected = [
        TextColor::Red,
        TextColor::Yellow,
        TextColor::Green,
        TextColor::Cyan,
        TextColor::Blue,
        TextColor::Magenta,
        TextColor::Red,
    ];
    assert_eq!(glyphs.len(), 7);
    for (glyph, color) in glyphs.iter().zip(expected.iter()) {
        assert_eq!(glyph.color, *color);
    }
}

#[test]
fn spaces_do_not_consume_a_palette_slot() {
    let glyphs = rainbow_text("Hello, world!");
    let text: String = glyphs.iter().map(|g| g.ch).collect();
    assert_eq!(text, "Hello, world!");
    // "Hello," runs Red..Magenta; the space repeats Magenta; "world!"
    // restarts at Red as if the space were not there.
    assert_eq!(glyphs[0].color, TextColor::Red);
    assert_eq!(glyphs[4].color, TextColor::Blue);
    assert_eq!(glyphs[5].color, TextColor::Magenta);
    assert_eq!(glyphs[6].color, TextColor::Magenta);
    assert_eq!(glyphs[7].color, TextColor::Red);
    assert_eq!(glyphs[8].color, TextColor::Yellow);
    assert_eq!(glyphs[12].color, TextColor::Magenta);
}

#[test]
fn banner_description_is_pinned() {
    let b = status_screen::banner::banner();
    assert_eq!(b.border_color, TextColor::DarkGray);
    let greeting: String = b.greeting.iter().map(|g| g.ch).collect();
    assert_eq!(greeting, "Hello, world!");
    assert_eq!(b.greeting[0].color, TextColor::Red);
    assert_eq!(b.subtitle, "Rust Ratatui on Embedded device! (ESP32S3)");
}
