//! The generation entry point: from a token stream holding a type
//! declaration, and the environment state, to the tokens of the generated
//! implementation.
//!
//! Parsing the declaration and lexing the emitted source are done by outside
//! crates behind trusted wrappers. Both are functions of their input alone,
//! so their results carry names that the wrappers' contracts apply; over
//! those names the pipeline's contracts are exact: expansion succeeds if and
//! only if the input parses as a type declaration, and everything between —
//! materializing the record and emitting the implementation text — is
//! verified, the text pinned down exactly by `spec_impl_text` of the parsed
//! declaration.

use vstd::prelude::*;
use quote::ToTokens;

use crate::generate::{generate_impl_source, spec_impl_text, TypeDeclaration};
use crate::metadata::{spec_metadata_of_env, EnvValues, PackageMetadata};

verus! {

/// `proc_macro2::TokenStream`, carried through opaquely: the tokens of the
/// input declaration and of the generated implementation.
#[verifier::external_type_specification]
#[verifier::external_body]
pub struct ExTokenStream(proc_macro2::TokenStream);

/// `syn::DeriveInput`, carried through opaquely: a parsed type declaration,
/// read only through the extraction wrappers below.
#[verifier::external_type_specification]
#[verifier::external_body]
pub struct ExDeriveInput(syn::DeriveInput);

/// What `syn::parse2::<syn::DeriveInput>` makes of a token stream: the parsed
/// declaration where the stream is a valid type declaration, nothing where it
/// is not. Parsing is a function of the tokens alone.
pub uninterp spec fn spec_parsed_decl(input: proc_macro2::TokenStream) -> Option<
    syn::DeriveInput,
>;

/// What the display of `syn::Ident` writes for a parsed declaration's name.
pub uninterp spec fn spec_decl_name(ast: syn::DeriveInput) -> Seq<char>;

/// What `syn::Generics::split_for_impl` yields for a parsed declaration, each
/// of the three pieces rendered back to source text: the generic parameter
/// list with its bounds, the bare generic argument list, and the `where`
/// clause.
pub uninterp spec fn spec_decl_generics(ast: syn::DeriveInput) -> (
    Seq<char>,
    Seq<char>,
    Seq<char>,
);

/// What `proc_macro2`'s lexer makes of source text: the token stream it
/// spells, or nothing where the text does not lex. Lexing is a function of
/// the text alone.
pub uninterp spec fn spec_tokens_of(src: Seq<char>) -> Option<proc_macro2::TokenStream>;

/// Relies on `syn::parse2`: parses the token stream as a declaration
/// accepted by `derive`, and fails exactly on anything else. The error is
/// carried over as its display text.
#[verifier::external_body]
fn parse_derive_input(input: proc_macro2::TokenStream) -> (r: Result<
    syn::DeriveInput,
    String,
>)
    ensures
        r is Ok <==> spec_parsed_decl(input) is Some,
        r matches Ok(ast) ==> spec_parsed_decl(input) == Some(ast),
{
    match syn::parse2::<syn::DeriveInput>(input) {
        Ok(ast) => Ok(ast),
        Err(e) => Err(e.to_string()),
    }
}

/// Relies on the display of `syn::Ident`: the declared type's name, as
/// written.
#[verifier::external_body]
fn declaration_name(ast: &syn::DeriveInput) -> (r: String)
    ensures
        r@ == spec_decl_name(*ast),
{
    ast.ident.to_string()
}

/// Relies on `syn::Generics::split_for_impl` and `quote`'s token rendering:
/// the declaration's generics split into the piece for the `impl` keyword,
/// the piece for the type's use site, and the `where` clause, each rendered
/// back to source text.
#[verifier::external_body]
fn declaration_generics(ast: &syn::DeriveInput) -> (r: (String, String, String))
    ensures
        r.0@ == spec_decl_generics(*ast).0,
        r.1@ == spec_decl_generics(*ast).1,
        r.2@ == spec_decl_generics(*ast).2,
{
    let (impl_generics, type_generics, where_clause) = ast.generics.split_for_impl();
    (
        impl_generics.to_token_stream().to_string(),
        type_generics.to_token_stream().to_string(),
        where_clause.to_token_stream().to_string(),
    )
}

/// Relies on `proc_macro2`'s lexer through `str::parse`: turns source text
/// into the token stream it spells, and fails exactly where the text does
/// not lex.
#[verifier::external_body]
fn tokens_of_source(src: &str) -> (r: Result<proc_macro2::TokenStream, String>)
    ensures
        r is Ok <==> spec_tokens_of(src@) is Some,
        r matches Ok(tokens) ==> spec_tokens_of(src@) == Some(tokens),
{
    match src.parse::<proc_macro2::TokenStream>() {
        Ok(tokens) => Ok(tokens),
        Err(e) => Err(e.to_string()),
    }
}

/// The reading of a parsed declaration that generation works from: its name
/// and the rendered pieces of its generics.
pub open spec fn spec_declaration_of(ast: syn::DeriveInput) -> crate::generate::TypeDeclarationView {
    crate::generate::TypeDeclarationView {
        name: spec_decl_name(ast),
        generics_decl: spec_decl_generics(ast).0,
        generics_use: spec_decl_generics(ast).1,
        where_clause: spec_decl_generics(ast).2,
    }
}

/// Read the target of a generation run out of a token stream: the declared
/// type's name and the rendered pieces of its generics. A token stream that
/// is not a valid type declaration is rejected, and nothing else is.
pub fn parse_declaration(input: proc_macro2::TokenStream) -> (r: Result<TypeDeclaration, String>)
    ensures
        r is Ok <==> spec_parsed_decl(input) is Some,
        spec_parsed_decl(input) matches Some(ast) ==> (r matches Ok(d) && d@
            == spec_declaration_of(ast)),
{
    match parse_derive_input(input) {
        Err(e) => Err(e),
        Ok(ast) => {
            let declared = declaration_name(&ast);
            let (generics_decl, generics_use, where_clause) = declaration_generics(&ast);
            Ok(
                TypeDeclaration {
                    name: declared,
                    generics_decl,
                    generics_use,
                    where_clause,
                },
            )
        },
    }
}

/// Generate the implementation source for the declaration spelled by
/// `input`, with the metadata of `env` baked in. Generation succeeds for
/// every valid declaration, whatever the environment, and the text is the
/// generated implementation for that declaration with exactly the coerced
/// environment values embedded; a malformed declaration, and nothing else,
/// yields an error and no output.
pub fn expand_to_source(input: proc_macro2::TokenStream, env: EnvValues) -> (r: Result<
    String,
    String,
>)
    ensures
        r is Ok <==> spec_parsed_decl(input) is Some,
        spec_parsed_decl(input) matches Some(ast) ==> (r matches Ok(src) && src@
            == spec_impl_text(spec_declaration_of(ast), spec_metadata_of_env(env@))),
{
    match parse_declaration(input) {
        Err(e) => Err(e),
        Ok(decl) => {
            let meta = PackageMetadata::from_env(env);
            let src = generate_impl_source(&decl, &meta);
            Ok(src)
        },
    }
}

/// Expand a derive invocation: parse the declaration, generate the
/// implementation source, and hand back its tokens — exactly the tokens of
/// the generated text. A malformed declaration yields an error and no
/// output; a valid one fails only where the generated text does not lex.
pub fn expand_package_info(input: proc_macro2::TokenStream, env: EnvValues) -> (r: Result<
    proc_macro2::TokenStream,
    String,
>)
    ensures
        spec_parsed_decl(input) is None ==> r is Err,
        spec_parsed_decl(input) matches Some(ast) ==> ({
            let src = spec_impl_text(spec_declaration_of(ast), spec_metadata_of_env(env@));
            &&& (r is Ok <==> spec_tokens_of(src) is Some)
            &&& (r matches Ok(tokens) ==> spec_tokens_of(src) == Some(tokens))
        }),
{
    match expand_to_source(input, env) {
        Err(e) => Err(e),
        Ok(src) => tokens_of_source(src.as_str()),
    }
}

} // verus!
