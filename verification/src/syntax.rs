//! The boundary to `syn` and `proc_macro2`: token streams come in, the
//! identifiers and the function definition that the expansion works on go out.

use crate::config::texts;
use crate::relocate::SourceFunction;
use proc_macro2::TokenStream;
use syn::parse::Parser;
use syn::punctuated::Punctuated;
use syn::token::Comma;
use syn::{Ident, ItemFn};
use vstd::prelude::*;

verus! {

/// `proc_macro2::TokenStream`: a stream of tokens, carried through unread.
#[verifier::external_type_specification]
#[verifier::external_body]
pub struct ExTokenStream(proc_macro2::TokenStream);

/// `syn::ItemFn`: a parsed free-standing function, carried through unread.
#[verifier::external_type_specification]
#[verifier::external_body]
pub struct ExItemFn(syn::ItemFn);

/// `syn::Error`: why tokens did not parse, with the place in the source.
#[verifier::external_type_specification]
#[verifier::external_body]
pub struct ExSyntaxError(syn::Error);

/// The identifiers that `attr` holds, in order, where it holds identifiers
/// separated by commas and nothing more; `None` where it holds anything else.
pub uninterp spec fn listed_identifiers(attr: TokenStream) -> Option<Seq<Seq<char>>>;

/// The name of the function that `item` holds, where it holds one
/// free-standing function and nothing more; `None` where it does not.
pub uninterp spec fn function_name(item: TokenStream) -> Option<Seq<char>>;

/// Calls `Punctuated::<Ident, Comma>::parse_terminated` on the whole of
/// `attr`, through `syn::parse::Parser::parse2`, and hands out the text of
/// each identifier in order, as `Ident::to_string` writes it.
///
/// The parser reads nothing but the stream, so its outcome is a function of
/// the stream, and that is all the contract claims: the identifiers it
/// returns are those that [`listed_identifiers`] names, and it fails where
/// that names none. Which streams are lists is the parser's to say: tokens
/// that are anything but identifiers separated by commas, with an optional
/// trailing comma, are none.
#[verifier::external_body]
pub(crate) fn parse_attribute_list(attr: TokenStream) -> (parsed: Result<Vec<String>, syn::Error>)
    ensures
        match parsed {
            Ok(list) => listed_identifiers(attr) == Some(texts(list@)),
            Err(_) => listed_identifiers(attr) is None,
        },
{
    let list = Punctuated::<Ident, Comma>::parse_terminated.parse2(attr)?;
    Ok(list.iter().map(|ident| ident.to_string()).collect())
}

/// Calls `syn::parse2::<ItemFn>` on `item` and hands the function out with
/// its name, `sig.ident`, written out as text by `Ident::to_string`.
///
/// The parser reads nothing but the stream, so its outcome is a function of
/// the stream, and that is all the contract claims: the name it returns is
/// the one that [`function_name`] names, and it fails where that names none.
/// Nothing is claimed of the definition that comes with the name. It keeps
/// the name as it was written: from here on `ident` is the function's name,
/// and whoever writes the function out puts `ident` in its place.
#[verifier::external_body]
pub(crate) fn parse_source_function(item: TokenStream) -> (parsed: Result<
    SourceFunction<ItemFn>,
    syn::Error,
>)
    ensures
        match parsed {
            Ok(function) => function_name(item) == Some(function.ident@),
            Err(_) => function_name(item) is None,
        },
{
    let definition = syn::parse2::<ItemFn>(item)?;
    Ok(SourceFunction { ident: definition.sig.ident.to_string(), definition })
}

} // verus!
