//! The combining-class classifier: decides whether an accent attaches
//! above or below its base.
//!
//! Two backends exist. The primary backend consults the canonical
//! combining class in the bundled Unicode property database; the
//! fallback backend uses a fixed, hand-curated set of well-known
//! Below-class marks. Both always classify the four stretch-brace
//! characters as bottom.

use vstd::prelude::*;
use crate::accent::Accent;

verus! {

/// The four stretch-brace-style characters that are classified bottom
/// on either backend, before the backend is consulted.
pub open spec fn special_bottom(c: char) -> bool {
    c == '⏟' || c == '⎵' || c == '⏝' || c == '⏡'
}

/// The curated set of combining marks with canonical combining class
/// Below used by the fallback backend. A deliberate subset of the full
/// Unicode property, covering common mathematical/typographic usage:
/// codepoints outside it are classified non-bottom by the fallback
/// even when the full database would say otherwise.
pub open spec fn curated_below(c: char) -> bool {
    ||| c == '\u{0316}'
    ||| c == '\u{0317}'
    ||| c == '\u{0318}'
    ||| c == '\u{0319}'
    ||| c == '\u{031c}'
    ||| c == '\u{031d}'
    ||| c == '\u{031e}'
    ||| c == '\u{031f}'
    ||| c == '\u{0320}'
    ||| c == '\u{0321}'
    ||| c == '\u{0322}'
    ||| c == '\u{0323}'
    ||| c == '\u{0324}'
    ||| c == '\u{0325}'
    ||| c == '\u{0326}'
    ||| c == '\u{0327}'
    ||| c == '\u{0328}'
    ||| c == '\u{0329}'
    ||| c == '\u{032a}'
    ||| c == '\u{032b}'
    ||| c == '\u{032c}'
    ||| c == '\u{032d}'
    ||| c == '\u{032e}'
    ||| c == '\u{032f}'
    ||| c == '\u{0330}'
    ||| c == '\u{0331}'
    ||| c == '\u{0332}'
    ||| c == '\u{0333}'
    ||| c == '\u{0339}'
    ||| c == '\u{033a}'
    ||| c == '\u{033b}'
    ||| c == '\u{033c}'
    ||| c == '\u{0345}'
    ||| c == '\u{0347}'
    ||| c == '\u{0348}'
    ||| c == '\u{0349}'
    ||| c == '\u{034d}'
    ||| c == '\u{034e}'
    ||| c == '\u{0353}'
    ||| c == '\u{0354}'
    ||| c == '\u{0355}'
    ||| c == '\u{0356}'
    ||| c == '\u{0359}'
    ||| c == '\u{035a}'
    ||| c == '\u{035c}'
    ||| c == '\u{035f}'
    ||| c == '\u{0362}'
}

/// What the fallback backend returns for codepoint `c`.
pub open spec fn spec_is_bottom(c: char) -> bool {
    special_bottom(c) || curated_below(c)
}

/// What the primary backend returns for codepoint `c`.
pub open spec fn spec_is_bottom_primary(c: char) -> bool {
    special_bottom(c) || icu_below(c)
}

/// Exec check for the four stretch-brace characters.
fn special_bottom_char(c: char) -> (r: bool)
    ensures
        r == special_bottom(c),
{
    c == '⏟' || c == '⎵' || c == '⏝' || c == '⏡'
}

impl Accent {
    /// Whether this accent is a bottom accent (curated fallback
    /// backend): true for the four stretch-brace characters, else iff
    /// the codepoint is in the curated Below set.
    pub fn is_bottom(&self) -> (r: bool)
        ensures
            r == spec_is_bottom(self.0),
    {
        if special_bottom_char(self.0) {
            return true;
        }
        let c = self.0;
        c == '\u{0316}' || c == '\u{0317}' || c == '\u{0318}' || c == '\u{0319}' || c
            == '\u{031c}' || c == '\u{031d}' || c == '\u{031e}' || c == '\u{031f}' || c
            == '\u{0320}' || c == '\u{0321}' || c == '\u{0322}' || c == '\u{0323}' || c
            == '\u{0324}' || c == '\u{0325}' || c == '\u{0326}' || c == '\u{0327}' || c
            == '\u{0328}' || c == '\u{0329}' || c == '\u{032a}' || c == '\u{032b}' || c
            == '\u{032c}' || c == '\u{032d}' || c == '\u{032e}' || c == '\u{032f}' || c
            == '\u{0330}' || c == '\u{0331}' || c == '\u{0332}' || c == '\u{0333}' || c
            == '\u{0339}' || c == '\u{033a}' || c == '\u{033b}' || c == '\u{033c}' || c
            == '\u{0345}' || c == '\u{0347}' || c == '\u{0348}' || c == '\u{0349}' || c
            == '\u{034d}' || c == '\u{034e}' || c == '\u{0353}' || c == '\u{0354}' || c
            == '\u{0355}' || c == '\u{0356}' || c == '\u{0359}' || c == '\u{035a}' || c
            == '\u{035c}' || c == '\u{035f}' || c == '\u{0362}'
    }
}

/// Whether the bundled Unicode property database gives codepoint `c`
/// the canonical combining class Below. The database is fixed data
/// compiled into the build, so this is a function of `c` alone.
pub uninterp spec fn icu_below(c: char) -> bool;

/// The primary classifier backend: the canonical-combining-class
/// property map, loaded once from the bundled Unicode database and
/// shared read-only thereafter.
#[verifier::external_body]
pub struct IcuClassifier {
    map: icu_properties::maps::CodePointMapData<icu_properties::CanonicalCombiningClass>,
}

impl IcuClassifier {
    /// Relies on `icu_provider_blob::BlobDataProvider::try_new_from_static_blob`,
    /// `icu_provider::AsDeserializingBufferProvider::as_deserializing` and
    /// `icu_properties::maps::load_canonical_combining_class`, to load
    /// the canonical-combining-class map from the bundled data blob;
    /// `None` when the blob cannot be read.
    #[verifier::external_body]
    pub fn load() -> (r: Option<IcuClassifier>) {
        let provider = icu_provider_blob::BlobDataProvider::try_new_from_static_blob(
            typst_assets::icu::ICU,
        ).ok()?;
        let map = icu_properties::maps::load_canonical_combining_class(
            &icu_provider::AsDeserializingBufferProvider::as_deserializing(&provider),
        ).ok()?;
        Some(IcuClassifier { map })
    }

    /// Relies on `icu_properties::maps::CodePointMapData::as_borrowed`
    /// and `CodePointMapDataBorrowed::get`: the canonical combining
    /// class the bundled database assigns to `c`, compared against
    /// class Below.
    #[verifier::external_body]
    fn class_is_below(&self, c: char) -> (r: bool)
        ensures
            r == icu_below(c),
    {
        self.map.as_borrowed().get(c) == icu_properties::CanonicalCombiningClass::Below
    }

    /// Whether `accent` is a bottom accent (primary backend): true for
    /// the four stretch-brace characters, else iff the accent's
    /// canonical combining class in the bundled database is Below.
    pub fn is_bottom(&self, accent: &Accent) -> (r: bool)
        ensures
            r == spec_is_bottom_primary(accent.0),
    {
        if special_bottom_char(accent.0) {
            return true;
        }
        self.class_is_below(accent.0)
    }
}

} // verus!
