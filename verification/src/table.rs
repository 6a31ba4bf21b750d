//! The accent table: an ordered list of canonical accent codepoints,
//! each with the alias strings that may stand for it.
//!
//! Order is a lookup-precedence contract: the first entry whose
//! codepoint or alias set matches a designator wins.

use vstd::prelude::*;

verus! {

/// One table entry: a canonical accent codepoint and its alias strings.
pub struct AccentEntry {
    /// The canonical combining (or stretch) character.
    pub codepoint: char,
    /// Exact literal alias forms, including ASCII shorthands and
    /// alternate glyph renderings. Matched as whole strings.
    pub aliases: Vec<&'static str>,
}

/// The mathematical model of the table: for each entry, its codepoint
/// and the character sequences of its aliases, in precedence order.
pub open spec fn table_spec() -> Seq<(char, Seq<Seq<char>>)> {
    seq![
        ('\u{0300}', seq!["`"@]),
        ('\u{0301}', seq!["´"@]),
        ('\u{0302}', seq!["^"@, "ˆ"@]),
        ('\u{0303}', seq!["~"@, "∼"@, "˜"@]),
        ('\u{0304}', seq!["¯"@]),
        ('\u{0305}', seq!["-"@, "–"@, "‾"@, "−"@]),
        ('\u{0306}', seq!["˘"@]),
        ('\u{0307}', seq!["."@, "˙"@, "⋅"@]),
        ('\u{0308}', seq!["¨"@]),
        ('\u{20db}', Seq::<Seq<char>>::empty()),
        ('\u{20dc}', Seq::<Seq<char>>::empty()),
        ('\u{030a}', seq!["∘"@, "○"@]),
        ('\u{030b}', seq!["˝"@]),
        ('\u{030c}', seq!["ˇ"@]),
        ('\u{20d6}', seq!["←"@]),
        ('\u{20d7}', seq!["→"@, "⟶"@]),
        ('\u{20e1}', seq!["↔"@, "↔\u{fe0e}"@, "⟷"@]),
        ('\u{20d0}', seq!["↼"@]),
        ('\u{20d1}', seq!["⇀"@]),
    ]
}

/// Whether one of the aliases `al[j..]` is exactly the string `s`.
pub open spec fn alias_match_from(al: Seq<Seq<char>>, s: Seq<char>, j: int) -> bool
    decreases al.len() - j,
    when 0 <= j <= al.len()
{
    if j == al.len() {
        false
    } else {
        al[j] == s || alias_match_from(al, s, j + 1)
    }
}

/// Whether entry `e` matches designator `s`: either `s` is exactly the
/// entry's codepoint as a one-character string, or `s` is one of the
/// entry's alias strings.
pub open spec fn entry_matches(e: (char, Seq<Seq<char>>), s: Seq<char>) -> bool {
    (s.len() == 1 && s[0] == e.0) || alias_match_from(e.1, s, 0)
}

/// The codepoint of the first entry at index `i` or later that matches
/// `s`, if any. This is the precedence-ordered table scan.
pub open spec fn match_from(s: Seq<char>, i: int) -> Option<char>
    decreases table_spec().len() - i,
    when 0 <= i <= table_spec().len()
{
    if i == table_spec().len() {
        None
    } else if entry_matches(table_spec()[i], s) {
        Some(table_spec()[i].0)
    } else {
        match_from(s, i + 1)
    }
}

/// The index of the first entry at `i` or later that matches `s`, or
/// the table's length when none does.
pub open spec fn match_index_from(s: Seq<char>, i: int) -> int
    decreases table_spec().len() - i,
    when 0 <= i <= table_spec().len()
{
    if i == table_spec().len() {
        i
    } else if entry_matches(table_spec()[i], s) {
        i
    } else {
        match_index_from(s, i + 1)
    }
}

/// The index of the first table entry that matches `s`, or the
/// table's length when none does.
pub open spec fn spec_match_index(s: Seq<char>) -> int {
    match_index_from(s, 0)
}

/// The scan's result and the scan's index agree: the scan from `i`
/// returns the codepoint of the entry at the first matching index, and
/// nothing before it matches.
pub proof fn lemma_match_from_index(s: Seq<char>, i: int)
    requires
        0 <= i <= table_spec().len(),
    ensures
        i <= match_index_from(s, i) <= table_spec().len(),
        match_index_from(s, i) < table_spec().len() ==> {
            &&& entry_matches(table_spec()[match_index_from(s, i)], s)
            &&& match_from(s, i) == Some(table_spec()[match_index_from(s, i)].0)
        },
        match_index_from(s, i) == table_spec().len() ==> match_from(s, i) is None,
        forall|k: int| i <= k < match_index_from(s, i) ==> !entry_matches(table_spec()[k], s),
    decreases table_spec().len() - i,
{
    if i < table_spec().len() && !entry_matches(table_spec()[i], s) {
        lemma_match_from_index(s, i + 1);
    }
}

/// If entry `i` matches `s` and no entry from `m` up to `i` does, the
/// scan from `m` resolves to entry `i`'s codepoint.
pub proof fn lemma_first_match(s: Seq<char>, m: int, i: int)
    requires
        0 <= m <= i < table_spec().len(),
        entry_matches(table_spec()[i], s),
        forall|j: int| m <= j < i ==> !entry_matches(table_spec()[j], s),
    ensures
        match_from(s, m) == Some(table_spec()[i].0),
    decreases i - m,
{
    if m < i {
        lemma_first_match(s, m + 1, i);
    }
}

/// Which entry owns codepoint `c`, or a negative answer when none
/// does. A spec-level inverse of the table's codepoint column.
pub open spec fn codepoint_entry(c: char) -> int {
    if c == '\u{0300}' {
        0
    } else if c == '\u{0301}' {
        1
    } else if c == '\u{0302}' {
        2
    } else if c == '\u{0303}' {
        3
    } else if c == '\u{0304}' {
        4
    } else if c == '\u{0305}' {
        5
    } else if c == '\u{0306}' {
        6
    } else if c == '\u{0307}' {
        7
    } else if c == '\u{0308}' {
        8
    } else if c == '\u{20db}' {
        9
    } else if c == '\u{20dc}' {
        10
    } else if c == '\u{030a}' {
        11
    } else if c == '\u{030b}' {
        12
    } else if c == '\u{030c}' {
        13
    } else if c == '\u{20d6}' {
        14
    } else if c == '\u{20d7}' {
        15
    } else if c == '\u{20e1}' {
        16
    } else if c == '\u{20d0}' {
        17
    } else if c == '\u{20d1}' {
        18
    } else {
        -1
    }
}

/// Which entry owns alias string `s`, or a negative answer when none
/// does. A spec-level inverse of the table's alias column.
pub open spec fn alias_entry(s: Seq<char>) -> int {
    if s == "`"@ {
        0
    } else if s == "´"@ {
        1
    } else if s == "^"@ || s == "ˆ"@ {
        2
    } else if s == "~"@ || s == "∼"@ || s == "˜"@ {
        3
    } else if s == "¯"@ {
        4
    } else if s == "-"@ || s == "–"@ || s == "‾"@ || s == "−"@ {
        5
    } else if s == "˘"@ {
        6
    } else if s == "."@ || s == "˙"@ || s == "⋅"@ {
        7
    } else if s == "¨"@ {
        8
    } else if s == "∘"@ || s == "○"@ {
        11
    } else if s == "˝"@ {
        12
    } else if s == "ˇ"@ {
        13
    } else if s == "←"@ {
        14
    } else if s == "→"@ || s == "⟶"@ {
        15
    } else if s == "↔"@ || s == "↔\u{fe0e}"@ || s == "⟷"@ {
        16
    } else if s == "↼"@ {
        17
    } else if s == "⇀"@ {
        18
    } else {
        -1
    }
}

/// Which entry's codepoint the lone character of `s` is, or a
/// negative answer when `s` is not a one-character string or its
/// character is no table codepoint.
pub open spec fn lone_codepoint_entry(s: Seq<char>) -> int {
    if s.len() == 1 {
        codepoint_entry(s[0])
    } else {
        -1
    }
}

proof fn reveal_table_strings()
    ensures
        "`"@.len() == 1,
        "`"@[0] == '`',
        "´"@.len() == 1,
        "´"@[0] == '´',
        "^"@.len() == 1,
        "^"@[0] == '^',
        "ˆ"@.len() == 1,
        "ˆ"@[0] == 'ˆ',
        "~"@.len() == 1,
        "~"@[0] == '~',
        "∼"@.len() == 1,
        "∼"@[0] == '∼',
        "˜"@.len() == 1,
        "˜"@[0] == '˜',
        "¯"@.len() == 1,
        "¯"@[0] == '¯',
        "-"@.len() == 1,
        "-"@[0] == '-',
        "–"@.len() == 1,
        "–"@[0] == '–',
        "‾"@.len() == 1,
        "‾"@[0] == '‾',
        "−"@.len() == 1,
        "−"@[0] == '−',
        "˘"@.len() == 1,
        "˘"@[0] == '˘',
        "."@.len() == 1,
        "."@[0] == '.',
        "˙"@.len() == 1,
        "˙"@[0] == '˙',
        "⋅"@.len() == 1,
        "⋅"@[0] == '⋅',
        "¨"@.len() == 1,
        "¨"@[0] == '¨',
        "∘"@.len() == 1,
        "∘"@[0] == '∘',
        "○"@.len() == 1,
        "○"@[0] == '○',
        "˝"@.len() == 1,
        "˝"@[0] == '˝',
        "ˇ"@.len() == 1,
        "ˇ"@[0] == 'ˇ',
        "←"@.len() == 1,
        "←"@[0] == '←',
        "→"@.len() == 1,
        "→"@[0] == '→',
        "⟶"@.len() == 1,
        "⟶"@[0] == '⟶',
        "↔"@.len() == 1,
        "↔"@[0] == '↔',
        "↔\u{fe0e}"@.len() == 2,
        "↔\u{fe0e}"@[0] == '↔',
        "↔\u{fe0e}"@[1] == '\u{fe0e}',
        "⟷"@.len() == 1,
        "⟷"@[0] == '⟷',
        "↼"@.len() == 1,
        "↼"@[0] == '↼',
        "⇀"@.len() == 1,
        "⇀"@[0] == '⇀',
{
    reveal_strlit("`");
    reveal_strlit("´");
    reveal_strlit("^");
    reveal_strlit("ˆ");
    reveal_strlit("~");
    reveal_strlit("∼");
    reveal_strlit("˜");
    reveal_strlit("¯");
    reveal_strlit("-");
    reveal_strlit("–");
    reveal_strlit("‾");
    reveal_strlit("−");
    reveal_strlit("˘");
    reveal_strlit(".");
    reveal_strlit("˙");
    reveal_strlit("⋅");
    reveal_strlit("¨");
    reveal_strlit("∘");
    reveal_strlit("○");
    reveal_strlit("˝");
    reveal_strlit("ˇ");
    reveal_strlit("←");
    reveal_strlit("→");
    reveal_strlit("⟶");
    reveal_strlit("↔");
    reveal_strlit("↔\u{fe0e}");
    reveal_strlit("⟷");
    reveal_strlit("↼");
    reveal_strlit("⇀");
}

/// Every table codepoint is owned by its own entry: the codepoint
/// column is injective.
pub proof fn lemma_codepoint_entry(i: int)
    requires
        0 <= i < table_spec().len(),
    ensures
        codepoint_entry(table_spec()[i].0) == i,
{
}

/// Every alias string is owned by its own entry and is never a
/// one-character codepoint string: the alias column is injective and
/// disjoint from the codepoint column.
pub proof fn lemma_alias_entry(i: int, k: int)
    requires
        0 <= i < table_spec().len(),
        0 <= k < table_spec()[i].1.len(),
    ensures
        alias_entry(table_spec()[i].1[k]) == i,
        lone_codepoint_entry(table_spec()[i].1[k]) == -1,
{
    reveal_table_strings();
    let s = table_spec()[i].1[k];
    if i == 0 {
        assert(s == "`"@);
    } else if i == 1 {
        assert(s == "´"@);
    } else if i == 2 {
        if k == 0 {
            assert(s == "^"@);
        } else {
            assert(s == "ˆ"@);
        }
    } else if i == 3 {
        if k == 0 {
            assert(s == "~"@);
        } else if k == 1 {
            assert(s == "∼"@);
        } else {
            assert(s == "˜"@);
        }
    } else if i == 4 {
        assert(s == "¯"@);
    } else if i == 5 {
        if k == 0 {
            assert(s == "-"@);
        } else if k == 1 {
            assert(s == "–"@);
        } else if k == 2 {
            assert(s == "‾"@);
        } else {
            assert(s == "−"@);
        }
    } else if i == 6 {
        assert(s == "˘"@);
    } else if i == 7 {
        if k == 0 {
            assert(s == "."@);
        } else if k == 1 {
            assert(s == "˙"@);
        } else {
            assert(s == "⋅"@);
        }
    } else if i == 8 {
        assert(s == "¨"@);
    } else if i == 11 {
        if k == 0 {
            assert(s == "∘"@);
        } else {
            assert(s == "○"@);
        }
    } else if i == 12 {
        assert(s == "˝"@);
    } else if i == 13 {
        assert(s == "ˇ"@);
    } else if i == 14 {
        assert(s == "←"@);
    } else if i == 15 {
        if k == 0 {
            assert(s == "→"@);
        } else {
            assert(s == "⟶"@);
        }
    } else if i == 16 {
        if k == 0 {
            assert(s == "↔"@);
        } else if k == 1 {
            assert(s == "↔\u{fe0e}"@);
        } else {
            assert(s == "⟷"@);
        }
    } else if i == 17 {
        assert(s == "↼"@);
    } else if i == 18 {
        assert(s == "⇀"@);
    } else {
        assert(table_spec()[i].1.len() == 0);
    }
}

/// An exec entry agrees with the model's entry `i`.
pub open spec fn entry_wf(e: AccentEntry, i: int) -> bool {
    &&& 0 <= i < table_spec().len()
    &&& e.codepoint == table_spec()[i].0
    &&& e.aliases@.len() == table_spec()[i].1.len()
    &&& forall|j: int|
        0 <= j < e.aliases@.len() ==> (#[trigger] e.aliases@[j])@ == table_spec()[i].1[j]
}

/// If some alias at or after `m` up to `j` is `s`, the scan from `m`
/// finds a match.
pub proof fn lemma_alias_match_witness(al: Seq<Seq<char>>, s: Seq<char>, m: int, j: int)
    requires
        0 <= m <= j < al.len(),
        al[j] == s,
    ensures
        alias_match_from(al, s, m),
    decreases j - m,
{
    if m < j {
        lemma_alias_match_witness(al, s, m + 1, j);
    }
}

/// If no alias at or after `m` is `s`, the scan from `m` finds none.
pub proof fn lemma_alias_match_none(al: Seq<Seq<char>>, s: Seq<char>, m: int)
    requires
        0 <= m <= al.len(),
        forall|k: int| m <= k < al.len() ==> al[k] != s,
    ensures
        !alias_match_from(al, s, m),
    decreases al.len() - m,
{
    if m < al.len() {
        lemma_alias_match_none(al, s, m + 1);
    }
}

fn entry0(codepoint: char) -> (e: AccentEntry)
    ensures
        e.codepoint == codepoint,
        e.aliases@.len() == 0,
{
    AccentEntry { codepoint, aliases: Vec::new() }
}

fn entry1(codepoint: char, a0: &'static str) -> (e: AccentEntry)
    ensures
        e.codepoint == codepoint,
        e.aliases@.len() == 1,
        e.aliases@[0] == a0,
{
    let mut aliases: Vec<&'static str> = Vec::new();
    aliases.push(a0);
    AccentEntry { codepoint, aliases }
}

fn entry2(codepoint: char, a0: &'static str, a1: &'static str) -> (e: AccentEntry)
    ensures
        e.codepoint == codepoint,
        e.aliases@.len() == 2,
        e.aliases@[0] == a0,
        e.aliases@[1] == a1,
{
    let mut aliases: Vec<&'static str> = Vec::new();
    aliases.push(a0);
    aliases.push(a1);
    AccentEntry { codepoint, aliases }
}

fn entry3(codepoint: char, a0: &'static str, a1: &'static str, a2: &'static str) -> (e:
    AccentEntry)
    ensures
        e.codepoint == codepoint,
        e.aliases@.len() == 3,
        e.aliases@[0] == a0,
        e.aliases@[1] == a1,
        e.aliases@[2] == a2,
{
    let mut aliases: Vec<&'static str> = Vec::new();
    aliases.push(a0);
    aliases.push(a1);
    aliases.push(a2);
    AccentEntry { codepoint, aliases }
}

fn entry4(
    codepoint: char,
    a0: &'static str,
    a1: &'static str,
    a2: &'static str,
    a3: &'static str,
) -> (e: AccentEntry)
    ensures
        e.codepoint == codepoint,
        e.aliases@.len() == 4,
        e.aliases@[0] == a0,
        e.aliases@[1] == a1,
        e.aliases@[2] == a2,
        e.aliases@[3] == a3,
{
    let mut aliases: Vec<&'static str> = Vec::new();
    aliases.push(a0);
    aliases.push(a1);
    aliases.push(a2);
    aliases.push(a3);
    AccentEntry { codepoint, aliases }
}

/// Builds the accent table, in precedence order, agreeing entry by
/// entry with `table_spec`.
pub fn accent_table() -> (t: Vec<AccentEntry>)
    ensures
        t@.len() == table_spec().len(),
        forall|i: int| 0 <= i < t@.len() ==> entry_wf(#[trigger] t@[i], i),
{
    let mut t: Vec<AccentEntry> = Vec::new();
    t.push(entry1('\u{0300}', "`"));
    t.push(entry1('\u{0301}', "´"));
    t.push(entry2('\u{0302}', "^", "ˆ"));
    t.push(entry3('\u{0303}', "~", "∼", "˜"));
    t.push(entry1('\u{0304}', "¯"));
    t.push(entry4('\u{0305}', "-", "–", "‾", "−"));
    t.push(entry1('\u{0306}', "˘"));
    t.push(entry3('\u{0307}', ".", "˙", "⋅"));
    t.push(entry1('\u{0308}', "¨"));
    t.push(entry0('\u{20db}'));
    t.push(entry0('\u{20dc}'));
    t.push(entry2('\u{030a}', "∘", "○"));
    t.push(entry1('\u{030b}', "˝"));
    t.push(entry1('\u{030c}', "ˇ"));
    t.push(entry1('\u{20d6}', "←"));
    t.push(entry2('\u{20d7}', "→", "⟶"));
    t.push(entry3('\u{20e1}', "↔", "↔\u{fe0e}", "⟷"));
    t.push(entry1('\u{20d0}', "↼"));
    t.push(entry1('\u{20d1}', "⇀"));
    t
}

} // verus!

