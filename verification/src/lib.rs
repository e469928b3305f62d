//! Expansion of the `event` attribute: a handler written against high-level
//! types becomes the low-level entry point that the hosting runtime calls.
//!
//! The expansion runs in four stages. [`config`] resolves the attribute's
//! arguments, [`relocate`] renames the handler, [`wrapper`] synthesizes the
//! adapter, and [`emit`] joins both with the adapter's export. [`syntax`]
//! is where token streams are parsed, and [`laws`] states what holds of
//! every expansion.

pub mod config;
pub mod emit;
pub mod error;
pub mod laws;
pub mod relocate;
pub mod syntax;
pub mod wrapper;

use crate::config::{resolved, texts, ConfigFault};
use crate::error::ExpandFault;
use crate::relocate::relocated_name;
use crate::syntax::{
    function_name, listed_identifiers, parse_attribute_list, parse_source_function,
};
use crate::wrapper::synthesize;
use proc_macro2::TokenStream;
use syn::ItemFn;
use vstd::prelude::*;

pub use crate::config::{resolve_attributes, HandlerConfig, HandlerKind};
pub use crate::emit::{GlueModule, TransformationOutput};
pub use crate::error::ExpandError;
pub use crate::relocate::SourceFunction;
pub use crate::wrapper::{ErrorPolicy, GeneratedWrapper};

verus! {

/// An expansion up to the point where the binding export generator has to
/// turn the adapter into an export.
#[derive(Clone, Debug)]
pub struct Expansion<D> {
    /// The configuration that the attribute resolved to.
    pub config: HandlerConfig,
    /// The name under which the handler was written.
    pub original: String,
    /// The handler under its internal name.
    pub function: SourceFunction<D>,
    /// The adapter that calls it.
    pub wrapper: GeneratedWrapper,
}

impl<D> Expansion<D> {
    /// Whether the parts belong together: the handler stands under the
    /// internal name that its original name and the kind give, and the
    /// adapter is the one for the configuration and calls exactly that name.
    pub open spec fn well_formed(&self) -> bool {
        &&& self.function.ident@ == relocated_name(self.original@, self.config.kind)
        &&& self.wrapper.is_for(self.config, self.function.ident@)
    }

    /// Relocates `function` and synthesizes the adapter that calls it.
    pub fn prepare(config: HandlerConfig, function: SourceFunction<D>) -> (expansion: Expansion<D>)
        ensures
            expansion.config == config,
            expansion.original@ == function.ident@,
            expansion.function.definition == function.definition,
            expansion.well_formed(),
    {
        let original = function.ident.clone();
        let mut function = function;
        function.relocate(config.kind);
        let wrapper = synthesize(config, function.ident.as_str());
        Expansion { config, original, function, wrapper }
    }
}

/// Expands a handler whose attribute arguments and definition have been
/// parsed: resolves the identifiers `tokens` of the attribute, relocates
/// `function` and synthesizes its adapter.
///
/// It fails exactly when the attribute resolves to no configuration, with
/// the fault of the resolution.
pub fn expand_function<D>(tokens: &Vec<String>, function: SourceFunction<D>) -> (res: Result<
    Expansion<D>,
    ExpandError,
>)
    ensures
        match res {
            Ok(expansion) => {
                &&& resolved(texts(tokens@)) == Ok::<HandlerConfig, ConfigFault>(expansion.config)
                &&& expansion.original@ == function.ident@
                &&& expansion.function.definition == function.definition
                &&& expansion.well_formed()
            },
            Err(error) => error@ matches ExpandFault::Config(fault) && resolved(texts(tokens@))
                == Err::<HandlerConfig, ConfigFault>(fault),
        },
{
    match resolve_attributes(tokens) {
        Ok(config) => Ok(Expansion::prepare(config, function)),
        Err(error) => Err(error),
    }
}

/// How an expansion ends, as far as the arguments and the item decide it.
pub enum Outcome {
    /// The handler is relocated and has its adapter.
    Expanded {
        /// What the arguments resolve to.
        config: HandlerConfig,
        /// The name under which the handler was written.
        original: Seq<char>,
    },
    /// The arguments are a list of identifiers that resolves to nothing.
    Misconfigured(ConfigFault),
    /// The arguments are no list of identifiers, or the item is no function.
    Malformed,
}

/// The outcome of expanding the attribute arguments `attr` on `item`.
///
/// The arguments are judged first and completely: they must be a list of
/// identifiers, and the list must resolve. Only then is the item looked at.
pub open spec fn outcome(attr: TokenStream, item: TokenStream) -> Outcome {
    match listed_identifiers(attr) {
        None => Outcome::Malformed,
        Some(tokens) => match resolved(tokens) {
            Err(fault) => Outcome::Misconfigured(fault),
            Ok(config) => match function_name(item) {
                None => Outcome::Malformed,
                Some(original) => Outcome::Expanded { config, original },
            },
        },
    }
}

/// Expands the `event` attribute with the arguments `attr` on the function
/// `item`, up to the point where the adapter has to be exported.
///
/// The arguments are parsed and resolved first, then the function is parsed,
/// relocated and given its adapter. A stream that does not parse is a syntax
/// error, reported by the parser's own error; an argument list that does not
/// resolve is reported by the fault of the resolution.
pub fn expand_macro(attr: TokenStream, item: TokenStream) -> (res: Result<
    Expansion<ItemFn>,
    ExpandError,
>)
    ensures
        match outcome(attr, item) {
            Outcome::Expanded { config, original } => {
                &&& res matches Ok(expansion)
                &&& expansion.config == config
                &&& expansion.original@ == original
                &&& expansion.well_formed()
            },
            Outcome::Misconfigured(fault) => res matches Err(error) && error@
                == ExpandFault::Config(fault),
            Outcome::Malformed => res matches Err(error) && error@ is Syntax,
        },
{
    let tokens = match parse_attribute_list(attr) {
        Ok(tokens) => tokens,
        Err(error) => {
            return Err(ExpandError::Syntax(error));
        },
    };
    let config = match resolve_attributes(&tokens) {
        Ok(config) => config,
        Err(error) => {
            return Err(error);
        },
    };
    match parse_source_function(item) {
        Ok(function) => Ok(Expansion::prepare(config, function)),
        Err(error) => Err(ExpandError::Syntax(error)),
    }
}

} // verus!
