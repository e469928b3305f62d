//! Export emission: the relocated handler and the adapter are put together
//! with what the binding export generator made of the adapter.

use crate::config::HandlerKind;
use crate::error::{ExpandError, ExpandFault};
use crate::relocate::SourceFunction;
use crate::Expansion;
use vstd::prelude::*;
use vstd::string::*;

verus! {

/// The name of the private module that isolates the adapter.
pub open spec fn module_name(kind: HandlerKind) -> Seq<char> {
    match kind {
        HandlerKind::Fetch => "_worker_fetch"@,
        HandlerKind::Scheduled => "_worker_scheduled"@,
    }
}

/// What the module brings into scope: the binding support that the export
/// refers to, and the relocated handler from the enclosing module.
pub open spec fn module_imports(relocated: Seq<char>) -> Seq<char> {
    "use ::worker::{wasm_bindgen, wasm_bindgen_futures}; use super::"@ + relocated + ";"@
}

/// The module that holds the adapter's export.
#[derive(Clone, Debug)]
pub struct GlueModule<E> {
    /// The module's identifier.
    pub name: String,
    /// The `use` items at the head of the module.
    pub imports: String,
    /// What the binding export generator made of the adapter.
    pub export: E,
}

/// The fragment that replaces the annotated function.
#[derive(Clone, Debug)]
pub struct TransformationOutput<D, E> {
    /// The handler, renamed and otherwise untouched.
    pub function: SourceFunction<D>,
    /// The module that follows it.
    pub module: GlueModule<E>,
}

impl HandlerKind {
    /// The identifier of the module that isolates the adapter of this kind.
    pub fn module_ident(self) -> (text: &'static str)
        ensures
            text@ == module_name(self),
    {
        match self {
            HandlerKind::Fetch => "_worker_fetch",
            HandlerKind::Scheduled => "_worker_scheduled",
        }
    }
}

impl<D> Expansion<D> {
    /// Finishes the expansion with the outcome of the binding export
    /// generator on the adapter.
    ///
    /// An export is placed, behind the imports, in the module of the kind,
    /// which follows the relocated handler. A refusal is fatal and is
    /// reported as it came.
    pub fn emit<E>(self, generated: Result<E, String>) -> (res: Result<
        TransformationOutput<D, E>,
        ExpandError,
    >)
        ensures
            match (generated, res) {
                (Ok(export), Ok(output)) => {
                    &&& output.function == self.function
                    &&& output.module.name@ == module_name(self.config.kind)
                    &&& output.module.imports@ == module_imports(self.function.ident@)
                    &&& output.module.export == export
                },
                (Err(report), Err(error)) => error@ == ExpandFault::ExportFailed(report@),
                _ => false,
            },
    {
        match generated {
            Ok(export) => {
                let mut imports = String::from_str(
                    "use ::worker::{wasm_bindgen, wasm_bindgen_futures}; use super::",
                );
                imports.append(self.function.ident.as_str());
                imports.append(";");
                let name = String::from_str(self.config.kind.module_ident());
                Ok(
                    TransformationOutput {
                        function: self.function,
                        module: GlueModule { name, imports, export },
                    },
                )
            },
            Err(report) => Err(ExpandError::ExportFailed(report)),
        }
    }
}

} // verus!
