//! The function registry: one invocable descriptor per table entry,
//! bundling a display name, generated documentation and a parameter
//! schema with the construction logic for accent elements.
//!
//! Descriptors stand in a fixed array, in table order, dispatched
//! through one shared invocation routine; the registry is built once
//! and read-only thereafter.

use vstd::prelude::*;
use vstd::string::{StrSliceExecFns, StringExecFns};
use crate::accent::{spec_combining, Accent, AccentElem, SizeRatio};
use crate::cast::Content;
use crate::table::{accent_table, entry_wf, lemma_match_from_index, spec_match_index, table_spec};

verus! {

/// The value shape a parameter accepts.
#[derive(Debug, Copy, Clone, Eq, PartialEq, Structural)]
pub enum ParamType {
    /// Arbitrary content.
    Content,
    /// A length relative to the base's width.
    RelativeLength,
    /// A boolean.
    Bool,
}

/// Metadata for one parameter of a generated accent function.
#[derive(Debug, Clone)]
pub struct ParamInfo {
    /// The parameter's name.
    pub name: &'static str,
    /// Documentation for the parameter.
    pub docs: &'static str,
    /// The value shape the parameter accepts.
    pub input: ParamType,
    /// Whether the parameter can be given positionally.
    pub positional: bool,
    /// Whether the parameter can be given by name.
    pub named: bool,
    /// Whether the parameter can be given multiple times.
    pub variadic: bool,
    /// Whether the parameter must be given.
    pub required: bool,
    /// Whether the parameter can be set with a set rule.
    pub settable: bool,
}

/// The parameter schema of every accent function: a required
/// positional base, an optional named size, an optional named dotless
/// flag.
pub open spec fn param_info_wf(ps: Seq<ParamInfo>) -> bool {
    &&& ps.len() == 3
    &&& ps[0].name@ == "base"@
    &&& ps[0].docs@ == "The base to which the accent is applied."@
    &&& ps[0].input == ParamType::Content
    &&& ps[0].positional
    &&& !ps[0].named
    &&& !ps[0].variadic
    &&& ps[0].required
    &&& !ps[0].settable
    &&& ps[1].name@ == "size"@
    &&& ps[1].docs@ == "The size of the accent, relative to the width of the base."@
    &&& ps[1].input == ParamType::RelativeLength
    &&& !ps[1].positional
    &&& ps[1].named
    &&& !ps[1].variadic
    &&& !ps[1].required
    &&& !ps[1].settable
    &&& ps[2].name@ == "dotless"@
    &&& ps[2].docs@
        == "Whether to remove the dot on top of lowercase i and j when adding a top accent."@
    &&& ps[2].input == ParamType::Bool
    &&& !ps[2].positional
    &&& ps[2].named
    &&& !ps[2].variadic
    &&& !ps[2].required
    &&& !ps[2].settable
}

/// Creates parameter signature metadata for an accent function.
pub fn create_accent_param_info() -> (ps: Vec<ParamInfo>)
    ensures
        param_info_wf(ps@),
{
    let mut ps: Vec<ParamInfo> = Vec::new();
    ps.push(
        ParamInfo {
            name: "base",
            docs: "The base to which the accent is applied.",
            input: ParamType::Content,
            positional: true,
            named: false,
            variadic: false,
            required: true,
            settable: false,
        },
    );
    ps.push(
        ParamInfo {
            name: "size",
            docs: "The size of the accent, relative to the width of the base.",
            input: ParamType::RelativeLength,
            positional: false,
            named: true,
            variadic: false,
            required: false,
            settable: false,
        },
    );
    ps.push(
        ParamInfo {
            name: "dotless",
            docs: "Whether to remove the dot on top of lowercase i and j when adding a top accent.",
            input: ParamType::Bool,
            positional: false,
            named: true,
            variadic: false,
            required: false,
            settable: false,
        },
    );
    ps
}

/// Relies on `char::to_string`: the returned string holds exactly the
/// one given character.
#[verifier::external_body]
fn char_to_string(c: char) -> (s: String)
    ensures
        s@ == seq![c],
{
    c.to_string()
}

/// An invocable accent function descriptor: display name, generated
/// title and documentation, the stored accent, and the parameter
/// schema. Construction logic is the shared `invoke` routine.
#[derive(Debug, Clone)]
pub struct AccentFunc {
    /// The display name of the generated function.
    pub name: &'static str,
    /// The title, derived from the codepoint.
    pub title: String,
    /// The documentation string, derived from the codepoint.
    pub docs: String,
    /// The accent this descriptor applies.
    pub accent: Accent,
    /// The parameter schema.
    pub params: Vec<ParamInfo>,
}

/// A well-formed descriptor for codepoint `c`: every field is a
/// function of `c` alone.
pub open spec fn func_wf(f: AccentFunc, c: char) -> bool {
    &&& f.accent == Accent(c)
    &&& f.name@ == "(..) => .."@
    &&& f.title@ == "Accent ("@ + seq![c] + ")"@
    &&& f.docs@ == "Adds the accent "@ + seq![c] + " on an expression."@
    &&& param_info_wf(f.params@)
}

/// Creates the descriptor for one accent codepoint.
pub fn create_accent_func_data(accent: char) -> (f: AccentFunc)
    ensures
        func_wf(f, accent),
{
    let accent_str = char_to_string(accent);
    let title = String::from_str("Accent (").concat(accent_str.as_str()).concat(")");
    let docs = String::from_str("Adds the accent ").concat(accent_str.as_str()).concat(
        " on an expression.",
    );
    AccentFunc {
        name: "(..) => ..",
        title,
        docs,
        accent: Accent(accent),
        params: create_accent_param_info(),
    }
}

/// The registry of accent functions: one descriptor per table entry,
/// in table order.
pub struct AccentFuncs {
    /// The descriptors, indexed as the table is.
    pub funcs: Vec<AccentFunc>,
}

/// A well-formed registry: exactly one well-formed descriptor per
/// table entry, in table order.
pub open spec fn registry_wf(r: AccentFuncs) -> bool {
    &&& r.funcs@.len() == table_spec().len()
    &&& forall|i: int|
        0 <= i < table_spec().len() ==> func_wf(#[trigger] r.funcs@[i], table_spec()[i].0)
}

impl AccentFuncs {
    /// Builds the registry: a descriptor for every table entry.
    pub fn new() -> (r: AccentFuncs)
        ensures
            registry_wf(r),
    {
        let t = accent_table();
        let mut funcs: Vec<AccentFunc> = Vec::new();
        let mut i: usize = 0;
        while i < t.len()
            invariant
                0 <= i <= t@.len(),
                t@.len() == table_spec().len(),
                forall|k: int| 0 <= k < t@.len() ==> entry_wf(#[trigger] t@[k], k),
                funcs@.len() == i,
                forall|k: int|
                    0 <= k < i ==> func_wf(#[trigger] funcs@[k], table_spec()[k].0),
            decreases t@.len() - i,
        {
            funcs.push(create_accent_func_data(t[i].codepoint));
            i += 1;
        }
        AccentFuncs { funcs }
    }
}

/// Gets the accent function corresponding to a symbol value, if any:
/// the descriptor of the first table entry matching the value.
/// Repeated lookups for one value return the same descriptor.
pub fn get_accent_func<'a>(registry: &'a AccentFuncs, value: &str) -> (r: Option<&'a AccentFunc>)
    requires
        registry_wf(*registry),
    ensures
        match spec_combining(value@) {
            Some(c) => {
                &&& r is Some
                &&& *r->0 == registry.funcs@[spec_match_index(value@)]
                &&& func_wf(*r->0, c)
            },
            None => r is None,
        },
{
    proof {
        lemma_match_from_index(value@, 0);
    }
    match Accent::combining_index(value) {
        Some(i) => Some(&registry.funcs[i]),
        None => None,
    }
}

/// The arguments handed to an accent function by the host's argument
/// extraction: the required base, if it was supplied, and the optional
/// named size and dotless values.
pub struct AccentArgs {
    /// The positional base argument, when supplied.
    pub base: Option<Content>,
    /// The named size argument, when supplied.
    pub size: Option<SizeRatio>,
    /// The named dotless argument, when supplied.
    pub dotless: Option<bool>,
}

/// A failure of argument extraction.
#[derive(Debug, Copy, Clone, Eq, PartialEq, Structural)]
pub enum ArgsError {
    /// The required base argument is missing.
    MissingArgument,
}

impl ArgsError {
    /// The diagnostic text for this failure.
    pub fn message(&self) -> (r: &'static str)
        ensures
            r@ == "missing argument: base"@,
    {
        match self {
            ArgsError::MissingArgument => "missing argument: base",
        }
    }
}

impl AccentFunc {
    /// Invokes the descriptor: builds an accent element over the given
    /// base with this descriptor's accent, overriding size and dotless
    /// only when they were supplied. A missing base is the host's
    /// missing-argument error, forwarded unchanged.
    pub fn invoke(&self, args: AccentArgs) -> (r: Result<AccentElem, ArgsError>)
        ensures
            args.base is Some ==> {
                &&& r is Ok
                &&& r->Ok_0.base == args.base->0
                &&& r->Ok_0.accent == self.accent
                &&& r->Ok_0.size == (match args.size {
                    Some(size) => size,
                    None => SizeRatio { percent: 100 },
                })
                &&& r->Ok_0.dotless == (match args.dotless {
                    Some(dotless) => dotless,
                    None => true,
                })
            },
            args.base is None ==> r == Err::<AccentElem, ArgsError>(ArgsError::MissingArgument),
    {
        let base = match args.base {
            Some(base) => base,
            None => {
                return Err(ArgsError::MissingArgument);
            },
        };
        let mut elem = AccentElem::new(base, self.accent);
        if let Some(size) = args.size {
            elem = elem.with_size(size);
        }
        if let Some(dotless) = args.dotless {
            elem = elem.with_dotless(dotless);
        }
        Ok(elem)
    }
}

} // verus!
