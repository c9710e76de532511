//! What the parser reads out of the text of a declaration.
//!
//! Parsing and the printing of syntax as text are the work of `syn`, `quote`
//! and `proc-macro2`; which characters continue an identifier is the knowledge
//! of `unicode-ident`, by which `proc-macro2` lexes. Each function here parses the text as a `syn::DeriveInput`
//! and hands back one part of it as plain text. Their contracts are not proved:
//! they give each part a name, as a function of the text alone, and say when a
//! part is there.
//!
//! The crates are built without their `proc-macro` feature, so tokens are always
//! lexed and printed by `proc-macro2`'s own implementation, never by a compiler
//! that happens to host the process. Printed tokens are separated by single
//! spaces, as in `Option < String >`. The contracts here hold of that build
//! alone: a build that switches the feature on prints through the compiler
//! inside a derive, with the compiler's spacing.

use vstd::prelude::*;
use crate::model::{GenericsText, RawField};

verus! {

/// Whether the text parses as a type declaration, and if so, whether it declares
/// a record (`struct`): the result of `syn::parse_str` and the variant of `data`.
pub uninterp spec fn parsed_kind(src: Seq<char>) -> Option<bool>;

/// The declared type's identifier, printed.
pub uninterp spec fn parsed_name(src: Seq<char>) -> Seq<char>;

/// The declared type's visibility, printed; empty where none is written.
pub uninterp spec fn parsed_vis(src: Seq<char>) -> Seq<char>;

/// The generics, printed in four forms: as declared, as `split_for_impl` gives
/// them for an impl and for a type, and the where-clause.
pub uninterp spec fn parsed_generics(src: Seq<char>) -> (
    Seq<char>,
    Seq<char>,
    Seq<char>,
    Seq<char>,
);

/// The number of field positions of a declared record.
pub uninterp spec fn parsed_field_count(src: Seq<char>) -> nat;

/// The field at a position of a declared record: its identifier, if it has one,
/// and its type, both printed.
pub uninterp spec fn parsed_field(src: Seq<char>, index: int) -> (Option<Seq<char>>, Seq<char>);

/// The parser's message for a text that does not parse as a type declaration.
pub uninterp spec fn parsed_failure(src: Seq<char>) -> Seq<char>;

/// Whether a character has the Unicode property XID_Continue, by which an
/// identifier goes on.
pub uninterp spec fn xid_continue(c: char) -> bool;

/// The text parses as a type declaration.
pub open spec fn parses(src: Seq<char>) -> bool {
    parsed_kind(src) is Some
}

/// The text parses as the declaration of a record.
pub open spec fn is_record(src: Seq<char>) -> bool {
    parsed_kind(src) == Some(true)
}

/// Calls `syn::parse_str::<syn::DeriveInput>` and reports whether the declaration
/// is a `syn::Data::Struct`; `None` where the text does not parse.
#[verifier::external_body]
pub(crate) fn declared_kind(src: &str) -> (r: Option<bool>)
    ensures
        r == parsed_kind(src@),
{
    match syn::parse_str::<syn::DeriveInput>(src) {
        Ok(input) => Some(matches!(input.data, syn::Data::Struct(_))),
        Err(_) => None,
    }
}

/// The message of the error that `syn::parse_str::<syn::DeriveInput>` returns,
/// printed by `to_string`; `None` exactly where the text parses.
#[verifier::external_body]
pub(crate) fn declared_failure(src: &str) -> (r: Option<String>)
    ensures
        r is None <==> parses(src@),
        r matches Some(message) ==> message@ == parsed_failure(src@),
{
    match syn::parse_str::<syn::DeriveInput>(src) {
        Ok(_) => None,
        Err(e) => Some(e.to_string()),
    }
}

/// Calls `unicode_ident::is_xid_continue`, the test by which the lexer lets an
/// identifier go on.
#[verifier::external_body]
pub(crate) fn has_xid_continue(c: char) -> (r: bool)
    ensures
        r == xid_continue(c),
{
    unicode_ident::is_xid_continue(c)
}

/// The `ident` of the parsed declaration, printed by `Ident::to_string`; `None`
/// exactly where the text does not parse.
#[verifier::external_body]
pub(crate) fn declared_name(src: &str) -> (r: Option<String>)
    ensures
        r is Some <==> parses(src@),
        r matches Some(name) ==> name@ == parsed_name(src@),
{
    match syn::parse_str::<syn::DeriveInput>(src) {
        Ok(input) => Some(input.ident.to_string()),
        Err(_) => None,
    }
}

/// The `vis` of the parsed declaration, printed through `ToTokens`; `None`
/// exactly where the text does not parse.
#[verifier::external_body]
pub(crate) fn declared_vis(src: &str) -> (r: Option<String>)
    ensures
        r is Some <==> parses(src@),
        r matches Some(vis) ==> vis@ == parsed_vis(src@),
{
    match syn::parse_str::<syn::DeriveInput>(src) {
        Ok(input) => Some(quote::ToTokens::to_token_stream(&input.vis).to_string()),
        Err(_) => None,
    }
}

/// The `generics` of the parsed declaration, printed through `ToTokens` as they
/// stand and in the three parts that `Generics::split_for_impl` gives; `None`
/// exactly where the text does not parse.
#[verifier::external_body]
pub(crate) fn declared_generics(src: &str) -> (r: Option<GenericsText>)
    ensures
        r is Some <==> parses(src@),
        r matches Some(g) ==> (g@.decl, g@.for_impl, g@.for_type, g@.where_clause)
            == parsed_generics(src@),
{
    match syn::parse_str::<syn::DeriveInput>(src) {
        Ok(input) => {
            let (for_impl, for_type, where_clause) = input.generics.split_for_impl();
            Some(
                GenericsText {
                    decl: quote::ToTokens::to_token_stream(&input.generics).to_string(),
                    for_impl: quote::ToTokens::to_token_stream(&for_impl).to_string(),
                    for_type: quote::ToTokens::to_token_stream(&for_type).to_string(),
                    where_clause: quote::ToTokens::to_token_stream(&where_clause).to_string(),
                },
            )
        },
        Err(_) => None,
    }
}

/// `Fields::len` of the parsed record; `None` exactly where the text does not
/// parse as a record.
#[verifier::external_body]
pub(crate) fn declared_field_count(src: &str) -> (r: Option<usize>)
    ensures
        r is Some <==> is_record(src@),
        r matches Some(n) ==> n == parsed_field_count(src@),
{
    match syn::parse_str::<syn::DeriveInput>(src) {
        Ok(syn::DeriveInput { data: syn::Data::Struct(s), .. }) => Some(s.fields.len()),
        _ => None,
    }
}

/// The field that `Fields::iter` yields at a position of the parsed record: its
/// `ident` printed by `Ident::to_string`, its `ty` printed through `ToTokens`;
/// `None` exactly where the text does not parse as a record or the record has no
/// such position.
#[verifier::external_body]
pub(crate) fn declared_field(src: &str, index: usize) -> (r: Option<RawField>)
    ensures
        r is Some <==> (is_record(src@) && index < parsed_field_count(src@)),
        r matches Some(f) ==> (f@.name, f@.ty) == parsed_field(src@, index as int),
{
    match syn::parse_str::<syn::DeriveInput>(src) {
        Ok(syn::DeriveInput { data: syn::Data::Struct(s), .. }) => s.fields.iter().nth(index).map(
            |f|
                RawField {
                    name: f.ident.as_ref().map(|id| id.to_string()),
                    ty: quote::ToTokens::to_token_stream(&f.ty).to_string(),
                },
        ),
        _ => None,
    }
}

} // verus!
