//! Function relocation: the handler gives up its name to the adapter and
//! lives on under an internal one.

use crate::config::HandlerKind;
use vstd::prelude::*;
use vstd::string::*;

verus! {

/// What is appended to a handler's name when it makes room for the adapter.
pub open spec fn glue_suffix(kind: HandlerKind) -> Seq<char> {
    match kind {
        HandlerKind::Fetch => "_fetch_glue"@,
        HandlerKind::Scheduled => "_scheduled_glue"@,
    }
}

/// The internal name of a handler that was written as `original`.
pub open spec fn relocated_name(original: Seq<char>, kind: HandlerKind) -> Seq<char> {
    original + glue_suffix(kind)
}

/// The handler as its author wrote it: a name, and a definition that the
/// expansion carries along without looking into it.
#[derive(Clone, Debug)]
pub struct SourceFunction<D> {
    /// The identifier under which the function is declared.
    pub ident: String,
    /// Everything else of the function, in whatever form the caller holds it.
    pub definition: D,
}

impl HandlerKind {
    /// The suffix that relocation appends for this kind.
    pub fn suffix(self) -> (text: &'static str)
        ensures
            text@ == glue_suffix(self),
    {
        match self {
            HandlerKind::Fetch => "_fetch_glue",
            HandlerKind::Scheduled => "_scheduled_glue",
        }
    }
}

/// The internal identifier for a handler named `original`: the name followed
/// by the suffix of the kind.
pub fn relocated_ident(original: &str, kind: HandlerKind) -> (ident: String)
    ensures
        ident@ == relocated_name(original@, kind),
{
    String::from_str(original).concat(kind.suffix())
}

impl<D> SourceFunction<D> {
    /// Renames the function in place to its internal identifier. The
    /// definition is left as it was.
    pub fn relocate(&mut self, kind: HandlerKind)
        ensures
            final(self).ident@ == relocated_name(old(self).ident@, kind),
            final(self).definition == old(self).definition,
    {
        let renamed = relocated_ident(self.ident.as_str(), kind);
        self.ident = renamed;
    }
}

/// Relocation never maps two handlers of one kind to the same internal name,
/// and the original name can be read back off the internal one.
pub proof fn law_relocation_injective(first: Seq<char>, second: Seq<char>, kind: HandlerKind)
    ensures
        relocated_name(first, kind) == relocated_name(second, kind) ==> first == second,
        relocated_name(first, kind).len() == first.len() + glue_suffix(kind).len(),
        relocated_name(first, kind).subrange(0, first.len() as int) == first,
        relocated_name(first, kind).subrange(
            first.len() as int,
            relocated_name(first, kind).len() as int,
        ) == glue_suffix(kind),
{
    let left = relocated_name(first, kind);
    let right = relocated_name(second, kind);
    assert(left.subrange(0, first.len() as int) == first);
    assert(right.subrange(0, second.len() as int) == second);
    assert(left.subrange(first.len() as int, left.len() as int) == glue_suffix(kind));
    if left == right {
        assert(first.len() == second.len());
    }
}

} // verus!
