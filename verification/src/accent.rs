//! The accent character itself and the resolver that turns free-form
//! designators into accents.

use vstd::prelude::*;
use vstd::string::StrSliceExecFns;
use crate::cast::Content;
use crate::table::{
    accent_table, entry_matches, entry_wf, lemma_alias_match_none, lemma_alias_match_witness,
    lemma_match_from_index, match_from, match_index_from, spec_match_index, table_spec,
};

verus! {

/// An accent character: exactly one Unicode scalar value, either a
/// combining mark or a standalone arrow/circle-like character.
/// Equality and hashing are by codepoint.
#[derive(Debug, Copy, Clone, Eq, PartialEq, Hash, Structural)]
pub struct Accent(pub char);

impl Default for Accent {
    /// The null accent, wrapping the NUL scalar.
    fn default() -> (r: Self)
        ensures
            r == Accent('\u{0000}'),
    {
        Accent('\u{0000}')
    }
}

/// The size of an accent relative to the width of its base, as a
/// percentage. The element default is one hundred percent.
#[derive(Debug, Copy, Clone, Eq, PartialEq, Structural)]
pub struct SizeRatio {
    pub percent: u64,
}

impl SizeRatio {
    /// The full relative size: one hundred percent of the base width.
    pub fn one() -> (r: SizeRatio)
        ensures
            r == (SizeRatio { percent: 100 }),
    {
        SizeRatio { percent: 100 }
    }
}

/// An accent attached to a base: the base content, the accent, the
/// relative size (default one hundred percent), and whether the dot on
/// top of lowercase i and j is removed under a top accent (default
/// true).
#[derive(Debug, Clone, PartialEq, Eq)]
pub struct AccentElem {
    /// The base to which the accent is applied.
    pub base: Content,
    /// The accent to apply to the base.
    pub accent: Accent,
    /// The size of the accent, relative to the width of the base.
    pub size: SizeRatio,
    /// Whether to remove the dot on top of lowercase i and j when
    /// adding a top accent.
    pub dotless: bool,
}

impl AccentElem {
    /// Builds an element from its two required parts, with the default
    /// size and dotless settings.
    pub fn new(base: Content, accent: Accent) -> (e: AccentElem)
        ensures
            e.base == base,
            e.accent == accent,
            e.size == (SizeRatio { percent: 100 }),
            e.dotless == true,
    {
        AccentElem { base, accent, size: SizeRatio::one(), dotless: true }
    }

    /// The same element with the given relative size.
    pub fn with_size(self, size: SizeRatio) -> (e: AccentElem)
        ensures
            e.base == self.base,
            e.accent == self.accent,
            e.size == size,
            e.dotless == self.dotless,
    {
        AccentElem { size, ..self }
    }

    /// The same element with the given dotless setting.
    pub fn with_dotless(self, dotless: bool) -> (e: AccentElem)
        ensures
            e.base == self.base,
            e.accent == self.accent,
            e.size == self.size,
            e.dotless == dotless,
    {
        AccentElem { dotless, ..self }
    }
}

/// The codepoint that `combining` resolves designator `s` to, if any:
/// the first table entry whose codepoint or alias set matches.
pub open spec fn spec_combining(s: Seq<char>) -> Option<char> {
    match_from(s, 0)
}

/// The codepoint that `normalize` resolves designator `s` to, if any:
/// the table lookup, or the lone character of a one-character string.
pub open spec fn spec_normalize(s: Seq<char>) -> Option<char> {
    match spec_combining(s) {
        Some(c) => Some(c),
        None => if s.len() == 1 {
            Some(s[0])
        } else {
            None
        },
    }
}

/// Exact string comparison, character by character.
fn str_eq(a: &str, b: &str) -> (r: bool)
    ensures
        r == (a@ == b@),
{
    let an = a.unicode_len();
    let bn = b.unicode_len();
    if an != bn {
        return false;
    }
    let mut i: usize = 0;
    while i < an
        invariant
            0 <= i <= an,
            an == a@.len(),
            an == b@.len(),
            forall|k: int| 0 <= k < i ==> a@[k] == b@[k],
        decreases an - i,
    {
        if a.get_char(i) != b.get_char(i) {
            return false;
        }
        i += 1;
    }
    proof {
        assert(a@ =~= b@);
    }
    true
}

impl Accent {
    /// Tries to select the appropriate combining accent for a string,
    /// falling back to the string's lone character if there is no
    /// corresponding one.
    ///
    /// Returns `None` if there isn't one and the string does not have
    /// exactly one character.
    pub fn normalize(s: &str) -> (r: Option<Self>)
        ensures
            match spec_normalize(s@) {
                Some(c) => r == Some(Accent(c)),
                None => r is None,
            },
    {
        match Self::combining(s) {
            Some(accent) => Some(accent),
            None => {
                let n = s.unicode_len();
                if n == 1 {
                    Some(Accent(s.get_char(0)))
                } else {
                    None
                }
            },
        }
    }

    /// Tries to select a well-known combining accent that matches for
    /// the value: the first table entry whose codepoint equals the
    /// value's lone character or whose alias set contains the value as
    /// an exact literal.
    pub fn combining(value: &str) -> (r: Option<Self>)
        ensures
            match spec_combining(value@) {
                Some(c) => r == Some(Accent(c)),
                None => r is None,
            },
    {
        proof {
            lemma_match_from_index(value@, 0);
        }
        match Self::combining_index(value) {
            Some(i) => {
                let t = accent_table();
                Some(Accent(t[i].codepoint))
            },
            None => None,
        }
    }

    /// The index of the first table entry that matches the value, if
    /// any: the precedence-ordered scan behind `combining`.
    pub(crate) fn combining_index(value: &str) -> (r: Option<usize>)
        ensures
            match r {
                Some(i) => i as int == spec_match_index(value@) && (i as int)
                    < table_spec().len(),
                None => spec_match_index(value@) == table_spec().len(),
            },
    {
        let n = value.unicode_len();
        let c: Option<char> = if n == 1 {
            Some(value.get_char(0))
        } else {
            None
        };
        let t = accent_table();
        let mut i: usize = 0;
        while i < t.len()
            invariant
                0 <= i <= t@.len(),
                t@.len() == table_spec().len(),
                forall|k: int| 0 <= k < t@.len() ==> entry_wf(#[trigger] t@[k], k),
                match c {
                    Some(ch) => value@.len() == 1 && value@[0] == ch,
                    None => value@.len() != 1,
                },
                match_index_from(value@, 0) == match_index_from(value@, i as int),
            decreases t@.len() - i,
        {
            let e = &t[i];
            let codepoint_hit = match c {
                Some(ch) => ch == e.codepoint,
                None => false,
            };
            if codepoint_hit {
                return Some(i);
            }
            let mut j: usize = 0;
            let mut alias_hit = false;
            while j < e.aliases.len() && !alias_hit
                invariant
                    0 <= j <= e.aliases@.len(),
                    entry_wf(*e, i as int),
                    alias_hit ==> (j < e.aliases@.len() && table_spec()[i as int].1[j as int]
                        == value@),
                    !alias_hit ==> forall|k: int|
                        0 <= k < j ==> table_spec()[i as int].1[k] != value@,
                decreases e.aliases@.len() - j + (if alias_hit {
                    0int
                } else {
                    1int
                }),
            {
                if str_eq(e.aliases[j], value) {
                    alias_hit = true;
                } else {
                    j += 1;
                }
            }
            if alias_hit {
                proof {
                    lemma_alias_match_witness(table_spec()[i as int].1, value@, 0, j as int);
                }
                return Some(i);
            }
            proof {
                lemma_alias_match_none(table_spec()[i as int].1, value@, 0);
                assert(!entry_matches(table_spec()[i as int], value@));
            }
            i += 1;
        }
        None
    }
}

} // verus!
