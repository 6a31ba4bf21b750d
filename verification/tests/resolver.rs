use math_accent::accent::Accent;
use math_accent::table::accent_table;

#[test]
fn combining_resolves_every_entry_by_codepoint() {
    for entry in &accent_table() {
        let cp_string = entry.codepoint.to_string();
        assert_eq!(Accent::combining(&cp_string), Some(Accent(entry.codepoint)));
    }
}

#[test]
fn combining_resolves_every_entry_by_alias() {
    for entry in &accent_table() {
        for alias in &entry.aliases {
            assert_eq!(Accent::combining(alias), Some(Accent(entry.codepoint)));
        }
    }
}

#[test]
fn combining_rejects_unknown_values() {
    assert_eq!(Accent::combining(""), None);
    assert_eq!(Accent::combining("q"), None);
    assert_eq!(Accent::combining("ab"), None);
    assert_eq!(Accent::combining("arrow"), None);
}

#[test]
fn normalize_empty_is_none() {
    assert_eq!(Accent::normalize(""), None);
}

#[test]
fn normalize_multi_character_is_none_unless_alias() {
    assert_eq!(Accent::normalize("ab"), None);
    // The one multi-character alias is matched as a whole literal.
    assert_eq!(Accent::normalize("\u{2194}\u{fe0e}"), Some(Accent('\u{20e1}')));
}

#[test]
fn normalize_falls_back_to_the_lone_character() {
    assert_eq!(Accent::normalize("q"), Some(Accent('q')));
    assert_eq!(Accent::normalize("Ω"), Some(Accent('Ω')));
    // A combining mark outside the table still comes back verbatim.
    assert_eq!(Accent::normalize("\u{0338}"), Some(Accent('\u{0338}')));
}

#[test]
fn normalize_prefers_the_table() {
    assert_eq!(Accent::normalize("^"), Some(Accent('\u{0302}')));
    assert_eq!(Accent::normalize("~"), Some(Accent('\u{0303}')));
    assert_eq!(Accent::normalize("\u{223c}"), Some(Accent('\u{0303}')));
    assert_eq!(Accent::normalize("."), Some(Accent('\u{0307}')));
}

#[test]
fn round_trip_recovers_every_entry() {
    for entry in &accent_table() {
        let accent = Accent(entry.codepoint);
        let raw = accent.to_char();
        assert_eq!(Accent::normalize(&raw.to_string()), Some(accent));
    }
}

#[test]
fn the_table_has_nineteen_entries() {
    assert_eq!(accent_table().len(), 19);
}
