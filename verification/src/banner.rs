//! The greeting banner: a line of text whose letters cycle through a fixed
//! six-color palette, with spaces keeping their neighbours' colors rather
//! than consuming a palette slot.

use vstd::prelude::*;
use vstd::string::StrSliceExecFns;
use crate::view::TextColor;

verus! {

/// The palette the banner cycles through, in order.
pub open spec fn rainbow_palette() -> Seq<TextColor> {
    seq![
        TextColor::Red,
        TextColor::Yellow,
        TextColor::Green,
        TextColor::Cyan,
        TextColor::Blue,
        TextColor::Magenta,
    ]
}

/// How many of the first `i` characters of `s` are spaces.
pub open spec fn spaces_before(s: Seq<char>, i: int) -> int
    decreases i,
{
    if i <= 0 {
        0
    } else {
        spaces_before(s, i - 1) + if s[i - 1] == ' ' { 1int } else { 0int }
    }
}

/// The palette slot of position `i`: letters advance through the palette by
/// their letter index — position minus the spaces before it — and a space
/// repeats the slot of the letter before it.
pub open spec fn rainbow_index(s: Seq<char>, i: int) -> int {
    if s[i] == ' ' {
        (i - spaces_before(s, i) - 1) % 6
    } else {
        (i - spaces_before(s, i)) % 6
    }
}

/// The color of position `i`.
pub open spec fn rainbow_color_at(s: Seq<char>, i: int) -> TextColor {
    rainbow_palette()[rainbow_index(s, i)]
}

/// One colored character of the banner.
#[derive(Clone, Copy, Debug, PartialEq, Eq, Structural)]
pub struct Glyph {
    pub ch: char,
    pub color: TextColor,
}

/// Once some character has been seen, the spaces so far cannot outnumber the
/// positions after a non-space start: the space count stays a strict step
/// behind the position.
proof fn lemma_spaces_bound(s: Seq<char>, i: int)
    requires
        1 <= i <= s.len(),
        s[0] != ' ',
    ensures
        0 <= spaces_before(s, i) <= i - 1,
    decreases i,
{
    if i > 1 {
        lemma_spaces_bound(s, i - 1);
    } else {
        assert(spaces_before(s, 0) == 0);
    }
}

/// The banner's palette, as a value the paint layer can walk.
pub fn rainbow_colors() -> (colors: Vec<TextColor>)
    ensures
        colors@ == rainbow_palette(),
{
    let mut colors: Vec<TextColor> = Vec::new();
    colors.push(TextColor::Red);
    colors.push(TextColor::Yellow);
    colors.push(TextColor::Green);
    colors.push(TextColor::Cyan);
    colors.push(TextColor::Blue);
    colors.push(TextColor::Magenta);
    proof {
        assert(colors@ =~= rainbow_palette());
    }
    colors
}

/// Color a line of text for the banner: one glyph per character, each with
/// the palette color of its position. The text must not begin with a space —
/// a leading space would have no letter before it to borrow a color from.
pub fn rainbow_text(text: &str) -> (glyphs: Vec<Glyph>)
    requires
        text@.len() == 0 || text@[0] != ' ',
    ensures
        glyphs@.len() == text@.len(),
        forall|i: int|
            0 <= i < text@.len() ==> #[trigger] glyphs@[i] == (Glyph {
                ch: text@[i],
                color: rainbow_color_at(text@, i),
            }),
{
    let colors = rainbow_colors();
    let len = text.unicode_len();
    let mut glyphs: Vec<Glyph> = Vec::new();
    let mut skipped: usize = 0;
    let mut i: usize = 0;
    while i < len
        invariant
            len == text@.len(),
            0 <= i <= len,
            colors@ == rainbow_palette(),
            skipped == spaces_before(text@, i as int),
            text@.len() == 0 || text@[0] != ' ',
            glyphs@.len() == i,
            forall|j: int|
                0 <= j < i ==> #[trigger] glyphs@[j] == (Glyph {
                    ch: text@[j],
                    color: rainbow_color_at(text@, j),
                }),
        decreases len - i,
    {
        let ch = text.get_char(i);
        proof {
            if i > 0 {
                lemma_spaces_bound(text@, i as int);
            } else {
                assert(spaces_before(text@, 0) == 0);
            }
        }
        if ch == ' ' {
            proof {
                assert(i > 0);
            }
            skipped = skipped + 1;
        }
        let slot = (i - skipped) % 6;
        glyphs.push(Glyph { ch, color: colors[slot] });
        i = i + 1;
    }
    glyphs
}

/// Mathematical model of a [`Banner`]'s rainbow line.
pub open spec fn banner_greeting() -> Seq<char> {
    "Hello, world!"@
}

/// Mathematical model of a [`Banner`]'s plain line.
pub open spec fn banner_subtitle() -> Seq<char> {
    "Rust Ratatui on Embedded device! (ESP32S3)"@
}

/// The banner screen: a dark-gray thick border around a rainbow greeting in
/// the top band and a plain subtitle in the bottom band, both centered and
/// word-wrapped. The two bands come from
/// [`crate::layout::split_banner`].
pub struct Banner {
    pub border_color: TextColor,
    pub greeting: Vec<Glyph>,
    pub subtitle: String,
}

/// Build the banner description: every choice — border accent, greeting
/// text and its per-character colors, subtitle text — is pinned down.
pub fn banner() -> (b: Banner)
    ensures
        b.border_color == TextColor::DarkGray,
        b.greeting@.len() == banner_greeting().len(),
        forall|i: int|
            0 <= i < banner_greeting().len() ==> #[trigger] b.greeting@[i] == (Glyph {
                ch: banner_greeting()[i],
                color: rainbow_color_at(banner_greeting(), i),
            }),
        b.subtitle@ == banner_subtitle(),
{
    proof {
        reveal_strlit("Hello, world!");
    }
    let greeting = rainbow_text("Hello, world!");
    Banner {
        border_color: TextColor::DarkGray,
        greeting,
        subtitle: "Rust Ratatui on Embedded device! (ESP32S3)".to_string(),
    }
}

} // verus!
