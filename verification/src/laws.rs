//! Table-wide laws of the resolver and the classifier, proved once
//! for every entry.

use vstd::prelude::*;
use crate::accent::{spec_combining, spec_normalize};
use crate::classify::{special_bottom, spec_is_bottom, spec_is_bottom_primary};
use crate::table::{
    entry_matches, lemma_alias_entry, lemma_alias_match_none, lemma_alias_match_witness,
    lemma_codepoint_entry, lemma_first_match, lone_codepoint_entry, table_spec,
};

verus! {

/// Looking up any table entry's codepoint, written as a one-character
/// string, resolves to that same entry: no earlier entry's codepoint
/// or alias set captures it.
pub proof fn lemma_codepoint_resolves(i: int, s: Seq<char>)
    requires
        0 <= i < table_spec().len(),
        s.len() == 1,
        s[0] == table_spec()[i].0,
    ensures
        spec_combining(s) == Some(table_spec()[i].0),
{
    lemma_codepoint_entry(i);
    assert(entry_matches(table_spec()[i], s));
    assert(lone_codepoint_entry(s) == i);
    assert forall|j: int| 0 <= j < i implies !entry_matches(table_spec()[j], s) by {
        lemma_codepoint_entry(j);
        assert forall|k: int|
            0 <= k < table_spec()[j].1.len() implies table_spec()[j].1[k] != s by {
            lemma_alias_entry(j, k);
        };
        lemma_alias_match_none(table_spec()[j].1, s, 0);
    };
    lemma_first_match(s, 0, i);
}

/// Looking up any of a table entry's alias strings resolves to that
/// same entry: aliases are owned by exactly one entry and never
/// collide with a codepoint.
pub proof fn lemma_alias_resolves(i: int, k: int)
    requires
        0 <= i < table_spec().len(),
        0 <= k < table_spec()[i].1.len(),
    ensures
        spec_combining(table_spec()[i].1[k]) == Some(table_spec()[i].0),
{
    let s = table_spec()[i].1[k];
    lemma_alias_entry(i, k);
    lemma_alias_match_witness(table_spec()[i].1, s, 0, k);
    assert(entry_matches(table_spec()[i], s));
    assert forall|j: int| 0 <= j < i implies !entry_matches(table_spec()[j], s) by {
        if s.len() == 1 && s[0] == table_spec()[j].0 {
            lemma_codepoint_entry(j);
            assert(lone_codepoint_entry(s) == j);
        }
        assert forall|k2: int|
            0 <= k2 < table_spec()[j].1.len() implies table_spec()[j].1[k2] != s by {
            lemma_alias_entry(j, k2);
        };
        lemma_alias_match_none(table_spec()[j].1, s, 0);
    };
    lemma_first_match(s, 0, i);
}

/// Round-trip: converting any table accent to its raw character and
/// normalizing that character's one-character string recovers the same
/// accent.
pub proof fn lemma_round_trip(i: int, s: Seq<char>)
    requires
        0 <= i < table_spec().len(),
        s.len() == 1,
        s[0] == table_spec()[i].0,
    ensures
        spec_normalize(s) == Some(table_spec()[i].0),
{
    lemma_codepoint_resolves(i, s);
}

/// The two classifier backends agree on the fixed literal set: every
/// stretch-brace character is a bottom accent on both.
pub proof fn lemma_backends_agree_on_stretch_braces(c: char)
    requires
        special_bottom(c),
    ensures
        spec_is_bottom(c),
        spec_is_bottom_primary(c),
{
}

} // verus!

