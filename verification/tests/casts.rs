use math_accent::accent::Accent;
use math_accent::cast::{CastError, Content};

#[test]
fn char_cast_wraps_directly() {
    assert_eq!(Accent::from_char('\u{2192}'), Accent('\u{2192}'));
    assert_eq!(Accent::from_char('q').to_char(), 'q');
}

#[test]
fn string_cast_normalizes() {
    assert_eq!(Accent::from_str_value("\u{00b4}"), Ok(Accent('\u{0301}')));
    assert_eq!(Accent::from_str_value("q"), Ok(Accent('q')));
}

#[test]
fn string_cast_rejects_bad_text() {
    assert_eq!(Accent::from_str_value(""), Err(CastError::InvalidAccentText));
    assert_eq!(Accent::from_str_value("ab"), Err(CastError::InvalidAccentText));
    assert_eq!(
        CastError::InvalidAccentText.message(),
        "expected exactly one character"
    );
}

#[test]
fn symbol_cast_normalizes_the_symbols_text() {
    let sym = Content::Symbol { text: String::from("\u{2194}") };
    assert_eq!(Accent::from_content(&sym), Ok(Accent('\u{20e1}')));
    let lone = Content::Symbol { text: String::from("q") };
    assert_eq!(Accent::from_content(&lone), Ok(Accent('q')));
}

#[test]
fn symbol_cast_rejects_other_content() {
    let plain = Content::Plain { text: String::from("\u{2194}") };
    assert_eq!(Accent::from_content(&plain), Err(CastError::InvalidAccentSymbol));
    let empty = Content::Symbol { text: String::new() };
    assert_eq!(Accent::from_content(&empty), Err(CastError::InvalidAccentSymbol));
    let wide = Content::Symbol { text: String::from("ab") };
    assert_eq!(Accent::from_content(&wide), Err(CastError::InvalidAccentSymbol));
    assert_eq!(
        CastError::InvalidAccentSymbol.message(),
        "expected a single-codepoint symbol"
    );
}

#[test]
fn outward_cast_is_the_raw_character() {
    let accent = Accent::normalize("\u{2192}").expect("the arrow resolves");
    assert_eq!(accent.to_char(), '\u{20d7}');
}
