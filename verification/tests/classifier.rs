use math_accent::accent::Accent;
use math_accent::classify::IcuClassifier;

#[test]
fn stretch_braces_are_bottom_on_both_backends() {
    let icu = IcuClassifier::load().expect("the bundled Unicode database loads");
    for c in ['\u{23df}', '\u{23b5}', '\u{23dd}', '\u{23e1}'] {
        assert!(Accent(c).is_bottom());
        assert!(icu.is_bottom(&Accent(c)));
    }
}

#[test]
fn acute_is_not_bottom_on_either_backend() {
    let icu = IcuClassifier::load().expect("the bundled Unicode database loads");
    assert!(!Accent('\u{0301}').is_bottom());
    assert!(!icu.is_bottom(&Accent('\u{0301}')));
}

#[test]
fn curated_marks_agree_with_the_primary_backend() {
    let icu = IcuClassifier::load().expect("the bundled Unicode database loads");
    // Grave accent below: a curated entry, Below in the database too.
    assert!(Accent('\u{0316}').is_bottom());
    assert!(icu.is_bottom(&Accent('\u{0316}')));
    // Dot below.
    assert!(Accent('\u{0323}').is_bottom());
    assert!(icu.is_bottom(&Accent('\u{0323}')));
}

#[test]
fn ordinary_characters_are_not_bottom() {
    let icu = IcuClassifier::load().expect("the bundled Unicode database loads");
    for c in ['a', '\u{20d7}', '\u{0302}'] {
        assert!(!Accent(c).is_bottom());
        assert!(!icu.is_bottom(&Accent(c)));
    }
}
