//! Styles as a settings file names them, and what they resolve to.

use ratatui::style::Color;
use vstd::prelude::*;
use vstd::utf8::{encode_utf8, is_ascii_chars};

verus! {

/// `ratatui::style::Color`, a terminal colour, carried from the parser to
/// the style that names it.
#[verifier::external_type_specification]
#[verifier::external_body]
pub struct ExColor(ratatui::style::Color);

/// The colour that `ratatui::style::Color` parses from `name`, if it parses
/// one.
pub uninterp spec fn color_named(name: Seq<char>) -> Option<Color>;

/// Whether `name` has the shape of a colour code: seven bytes, the first of
/// them a `#`.
pub open spec fn code_shaped(name: Seq<char>) -> bool {
    encode_utf8(name).len() == 7 && encode_utf8(name)[0] == 0x23
}

/// Whether `name` can be handed to the parser: it has not the shape of a
/// colour code, or it is ASCII.
pub open spec fn parses_safely(name: Seq<char>) -> bool {
    !code_shaped(name) || is_ascii_chars(name)
}

/// `FromStr` of `ratatui::style::Color`, through `str::parse`: the colour
/// that a name or a code stands for, with the error dropped. The contract
/// names the result and claims no more. The parser cuts a name that has the
/// shape of a colour code at fixed byte positions, which holds only where
/// the positions lie between characters; such a name is asked to be ASCII.
#[verifier::external_body]
fn parse_color(name: &str) -> (color: Option<Color>)
    requires
        parses_safely(name@),
    ensures
        color == color_named(name@),
{
    name.parse().ok()
}

/// A style as a settings file names it.
#[derive(Clone, Debug)]
pub struct StyleConfig {
    pub fg: String,
    pub bg: Option<String>,
    pub modifiers: Vec<String>,
}

/// The ways in which a style sets text apart.
#[derive(Clone, Copy, Debug, PartialEq, Eq, Structural)]
pub struct Emphasis {
    pub bold: bool,
    pub italic: bool,
    pub underlined: bool,
    pub reversed: bool,
}

/// The colour that a style paints with: the one that its settings name, or
/// one of the two that stand in where the settings name none.
#[derive(Clone, Copy, Debug, PartialEq, Eq)]
pub enum ColorChoice {
    Named(Color),
    White,
    Black,
}

/// A style with its colours and its emphasis decided.
#[derive(Clone, Copy, Debug)]
pub struct ResolvedStyle {
    pub fg: ColorChoice,
    pub bg: ColorChoice,
    pub emphasis: Emphasis,
}

/// The parsed colour, or `fallback` where none was parsed.
pub open spec fn spec_color_or(parsed: Option<Color>, fallback: ColorChoice) -> ColorChoice {
    match parsed {
        Some(color) => ColorChoice::Named(color),
        None => fallback,
    }
}

/// The colour that `name` stands for, or `fallback` where it stands for
/// none. A name in the shape of a colour code that is not ASCII stands for
/// none: a colour code is made of `#` and six hexadecimal digits.
pub open spec fn color_of(name: Seq<char>, fallback: ColorChoice) -> ColorChoice {
    if parses_safely(name) {
        spec_color_or(color_named(name), fallback)
    } else {
        fallback
    }
}

/// Whether one of `modifiers` is the word `word`.
pub open spec fn names_word(modifiers: Seq<String>, word: Seq<char>) -> bool {
    exists|i: int| 0 <= i < modifiers.len() && (#[trigger] modifiers[i])@ == word
}

/// The emphasis that a list of modifiers asks for: each of the four kinds
/// is on where the list holds its name. Other words are passed over.
pub open spec fn emphasis_of(modifiers: Seq<String>) -> Emphasis {
    Emphasis {
        bold: names_word(modifiers, "bold"@),
        italic: names_word(modifiers, "italic"@),
        underlined: names_word(modifiers, "underlined"@),
        reversed: names_word(modifiers, "reversed"@),
    }
}

/// The parsed colour, or `fallback` where none was parsed.
#[verifier::when_used_as_spec(spec_color_or)]
pub fn color_or(parsed: Option<Color>, fallback: ColorChoice) -> (color: ColorChoice)
    ensures
        color == spec_color_or(parsed, fallback),
{
    match parsed {
        Some(color) => ColorChoice::Named(color),
        None => fallback,
    }
}

/// The colour that `name` stands for, or `fallback` where it stands for
/// none.
pub fn resolve_color(name: &str, fallback: ColorChoice) -> (color: ColorChoice)
    ensures
        color == color_of(name@, fallback),
{
    let bytes = name.as_bytes();
    let shaped = bytes.len() == 7 && bytes[0] == 0x23;
    if shaped && !name.is_ascii() {
        fallback
    } else {
        color_or(parse_color(name), fallback)
    }
}

/// The emphasis that a list of modifiers asks for.
pub fn resolve_emphasis(modifiers: &Vec<String>) -> (emphasis: Emphasis)
    ensures
        emphasis == emphasis_of(modifiers@),
{
    let bold_word = "bold".to_owned();
    let italic_word = "italic".to_owned();
    let underlined_word = "underlined".to_owned();
    let reversed_word = "reversed".to_owned();
    let mut emphasis = Emphasis { bold: false, italic: false, underlined: false, reversed: false };
    let mut i: usize = 0;
    while i < modifiers.len()
        invariant
            i <= modifiers.len(),
            bold_word@ == "bold"@,
            italic_word@ == "italic"@,
            underlined_word@ == "underlined"@,
            reversed_word@ == "reversed"@,
            emphasis == emphasis_of(modifiers@.take(i as int)),
        decreases modifiers.len() - i,
    {
        let word = &modifiers[i];
        let is_bold = *word == bold_word;
        let is_italic = *word == italic_word;
        let is_underlined = *word == underlined_word;
        let is_reversed = *word == reversed_word;
        proof {
            lemma_names_word_take(modifiers@, i as int, "bold"@);
            lemma_names_word_take(modifiers@, i as int, "italic"@);
            lemma_names_word_take(modifiers@, i as int, "underlined"@);
            lemma_names_word_take(modifiers@, i as int, "reversed"@);
        }
        emphasis =
        Emphasis {
            bold: emphasis.bold || is_bold,
            italic: emphasis.italic || is_italic,
            underlined: emphasis.underlined || is_underlined,
            reversed: emphasis.reversed || is_reversed,
        };
        i = i + 1;
    }
    assert(modifiers@.take(modifiers.len() as int) =~= modifiers@);
    emphasis
}

/// One more modifier names a word where the modifiers before it do, or
/// where it is that word.
proof fn lemma_names_word_take(modifiers: Seq<String>, i: int, word: Seq<char>)
    requires
        0 <= i < modifiers.len(),
    ensures
        names_word(modifiers.take(i + 1), word) == (names_word(modifiers.take(i), word)
            || modifiers[i]@ == word),
{
    let seen = modifiers.take(i);
    let next = modifiers.take(i + 1);
    if names_word(next, word) {
        let k = choose|k: int| 0 <= k < next.len() && (#[trigger] next[k])@ == word;
        if k < i {
            assert(seen[k]@ == word);
        }
    }
    if names_word(seen, word) {
        let k = choose|k: int| 0 <= k < seen.len() && (#[trigger] seen[k])@ == word;
        assert(next[k]@ == word);
    }
    if modifiers[i]@ == word {
        assert(next[i]@ == word);
    }
}

impl StyleConfig {
    /// What this style resolves to: the foreground it names, or white where
    /// it names none; the background it names, or black where it gives or
    /// names none; and the emphasis that its modifiers ask for.
    pub fn resolve(&self) -> (style: ResolvedStyle)
        ensures
            style.fg == color_of(self.fg@, ColorChoice::White),
            style.bg == match self.bg {
                Some(name) => color_of(name@, ColorChoice::Black),
                None => ColorChoice::Black,
            },
            style.emphasis == emphasis_of(self.modifiers@),
    {
        let fg = resolve_color(self.fg.as_str(), ColorChoice::White);
        let bg = match &self.bg {
            Some(name) => resolve_color(name.as_str(), ColorChoice::Black),
            None => ColorChoice::Black,
        };
        ResolvedStyle { fg, bg, emphasis: resolve_emphasis(&self.modifiers) }
    }
}

} // verus!
