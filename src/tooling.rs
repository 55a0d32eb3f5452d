//! Metadata that describes the library's constructors to binding generators.

use vstd::prelude::*;

verus! {

/// A notice that a constructor is deprecated.
#[derive(Debug, Clone)]
pub struct Deprecation {
    since: String,
    note: String,
}

impl Deprecation {
    /// A notice for the release `since`, with an explanation.
    pub fn new(since: String, note: String) -> (r: Deprecation)
        ensures
            r.since_spec() == since@,
            r.note_spec() == note@,
    {
        Deprecation { since, note }
    }

    /// The release since which the constructor is deprecated.
    pub closed spec fn since_spec(&self) -> Seq<char> {
        self.since@
    }

    /// The explanation.
    pub closed spec fn note_spec(&self) -> Seq<char> {
        self.note@
    }

    /// The release since which the constructor is deprecated.
    pub fn since(&self) -> (r: &str)
        ensures
            r@ == self.since_spec(),
    {
        self.since.as_str()
    }

    /// The explanation.
    pub fn note(&self) -> (r: &str)
        ensures
            r@ == self.note_spec(),
    {
        self.note.as_str()
    }
}

/// Directions for writing out a Rust type.
#[derive(Debug, PartialEq)]
pub enum TypeRecipe {
    /// An existing type, by name.
    Name(String),
    /// A type built from other types.
    Nest { origin: String, args: Vec<TypeRecipe> },
    /// Explicitly absent.
    Absent,
    /// A type computed by a function call.
    Function { function: String, params: Vec<TypeRecipe> },
}

/// The texts of a sequence of strings.
pub open spec fn texts(s: Seq<String>) -> Seq<Seq<char>> {
    s.map_values(|x: String| x@)
}

/// The members of `variables` that differ from `name`, in order.
pub open spec fn other_names(variables: Seq<Seq<char>>, name: Option<Seq<char>>) -> Seq<Seq<char>>
    decreases variables.len(),
{
    if variables.len() == 0 {
        Seq::empty()
    } else {
        let rest = other_names(variables.drop_last(), name);
        if name == Some(variables.last()) {
            rest
        } else {
            rest.push(variables.last())
        }
    }
}

/// The variables of a type description that are generics: all of them but the
/// described argument's own name, in order.
pub fn generic_names(name: &Option<String>, variables: &Vec<String>) -> (r: Vec<String>)
    ensures
        texts(r@) == other_names(texts(variables@), crate::domains::opt_text(*name)),
{
    let ghost own = crate::domains::opt_text(*name);
    let mut out: Vec<String> = Vec::new();
    let mut i: usize = 0;
    while i < variables.len()
        invariant
            0 <= i <= variables@.len(),
            own == crate::domains::opt_text(*name),
            texts(out@) == other_names(texts(variables@.take(i as int)), own),
        decreases variables@.len() - i,
    {
        let v = &variables[i];
        let same = match name {
            Some(n) => v.eq(n),
            None => false,
        };
        proof {
            let prev = texts(variables@.take(i as int));
            let next = texts(variables@.take(i + 1));
            assert(next.drop_last() =~= prev);
            assert(next.last() == v@);
        }
        if !same {
            out.push(v.clone());
            proof {
                assert(texts(out@) =~= texts(out@.drop_last()).push(v@));
            }
        }
        i += 1;
    }
    proof {
        assert(variables@.take(variables@.len() as int) =~= variables@);
    }
    out
}

} // verus!
