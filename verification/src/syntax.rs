//! Reading a declaration out of a parsed item.
//!
//! The item is parsed by `syn`, and its attributes are read as `devise`
//! reads them. A parsed item is opaque here: what each reader below takes
//! from it is stated and not proved. The readers are kept small for that
//! reason, and what puts their results together into a [`Declaration`] is
//! proved from what they state.

use devise::quote::ToTokens;
use devise::syn::{Data, DeriveInput, Fields};
use devise::{FromMeta, MetaItem};
use vstd::prelude::*;

use crate::declaration::{Attribute, Declaration, DeclarationView, MetaArg, Shape};
use crate::error::DeriveError;
use crate::generate::{generate, is_generated};

verus! {

/// `syn::DeriveInput`: a parsed struct, enum or union, with its attributes.
#[verifier::external_type_specification]
#[verifier::external_body]
pub struct ExDeriveInput(devise::syn::DeriveInput);

/// What a parsed item holds, as far as this library reads it. The readers
/// below say what each part is.
pub uninterp spec fn declared(item: DeriveInput) -> DeclarationView;

/// `Ident::to_string` on the item's identifier: the declared name as it
/// was written.
#[verifier::external_body]
fn ident_text(item: &DeriveInput) -> (name: String)
    ensures
        name@ == declared(*item).name,
{
    item.ident.to_string()
}

/// Tells the variants of `syn::Data` apart and, for a struct, those of
/// `syn::Fields`.
#[verifier::external_body]
fn shape_of(item: &DeriveInput) -> (shape: Shape)
    ensures
        shape == declared(*item).shape,
{
    match &item.data {
        Data::Struct(data) => match &data.fields {
            Fields::Named(_) => Shape::Named,
            Fields::Unnamed(_) => Shape::Tuple,
            Fields::Unit => Shape::Unit,
        },
        Data::Enum(_) => Shape::Enum,
        Data::Union(_) => Shape::Union,
    }
}

/// `Fields::len` on the fields of a struct. An enum or a union counts as
/// having none.
#[verifier::external_body]
fn field_count(item: &DeriveInput) -> (count: usize)
    ensures
        count == declared(*item).field_types.len(),
{
    match &item.data {
        Data::Struct(data) => data.fields.len(),
        _ => 0,
    }
}

/// The type of the field at `index`, as the text of its tokens
/// (`ToTokens::to_token_stream`, then `to_string`).
#[verifier::external_body]
fn field_type_text(item: &DeriveInput, index: usize) -> (text: String)
    requires
        index < declared(*item).field_types.len(),
    ensures
        text@ == declared(*item).field_types[index as int],
{
    match &item.data {
        Data::Struct(data) => match data.fields.iter().nth(index) {
            Some(field) => field.ty.to_token_stream().to_string(),
            None => String::new(),
        },
        _ => String::new(),
    }
}

/// `Vec::len` on the item's attributes.
#[verifier::external_body]
fn attribute_count(item: &DeriveInput) -> (count: usize)
    ensures
        count == declared(*item).attributes.len(),
{
    item.attrs.len()
}

/// The path of the attribute at `index` (`Attribute::path`), as the text of
/// its tokens.
#[verifier::external_body]
fn attribute_path_text(item: &DeriveInput, index: usize) -> (text: String)
    requires
        index < declared(*item).attributes.len(),
    ensures
        text@ == declared(*item).attributes[index as int].name,
{
    item.attrs[index].path().to_token_stream().to_string()
}

/// Reads the attribute at `index` as `devise` does (`MetaItem::try_from`)
/// and counts the entries of its list. There is no count where the
/// attribute is not a list, or where `devise` cannot read it.
#[verifier::external_body]
fn argument_count(item: &DeriveInput, index: usize) -> (count: Option<usize>)
    requires
        index < declared(*item).attributes.len(),
    ensures
        match declared(*item).attributes[index as int].args {
            Some(args) => count matches Some(n) && n == args.len(),
            None => count is None,
        },
{
    match MetaItem::try_from(item.attrs[index].meta.clone()) {
        Ok(MetaItem::List { items, .. }) => Some(items.len()),
        _ => None,
    }
}

/// Reads the entry at `at` in the list of the attribute at `index`. An
/// entry that stands alone is handed to `devise`'s reader of strings
/// (`<String as FromMeta>::from_meta`), which accepts a string literal
/// and gives the string it denotes. A keyed or nested entry is not read.
#[verifier::external_body]
fn argument(item: &DeriveInput, index: usize, at: usize) -> (arg: MetaArg)
    requires
        index < declared(*item).attributes.len(),
        declared(*item).attributes[index as int].args matches Some(args) && at < args.len(),
    ensures
        arg@ == declared(*item).attributes[index as int].args->0[at as int],
{
    match MetaItem::try_from(item.attrs[index].meta.clone()) {
        Ok(MetaItem::List { items, .. }) => match &items[at] {
            MetaItem::Tokens(_) => match String::from_meta(&items[at]) {
                Ok(text) => MetaArg::Str(text),
                Err(_) => MetaArg::Other,
            },
            _ => MetaArg::Other,
        },
        _ => MetaArg::Other,
    }
}

/// Reads the types of the fields, in order.
fn read_field_types(item: &DeriveInput) -> (types: Vec<String>)
    ensures
        types@.map_values(|t: String| t@) == declared(*item).field_types,
{
    let count = field_count(item);
    let mut types: Vec<String> = Vec::new();
    let mut i: usize = 0;
    while i < count
        invariant
            i <= count,
            count == declared(*item).field_types.len(),
            types.len() == i,
            forall|k: int| 0 <= k < i ==> (#[trigger] types[k])@ == declared(*item).field_types[k],
        decreases count - i,
    {
        types.push(field_type_text(item, i));
        i = i + 1;
    }
    assert(types@.map_values(|t: String| t@) =~= declared(*item).field_types);
    types
}

/// Reads the arguments of the attribute at `index`, if it has a list of
/// them.
fn read_arguments(item: &DeriveInput, index: usize) -> (out: Option<Vec<MetaArg>>)
    requires
        index < declared(*item).attributes.len(),
    ensures
        match declared(*item).attributes[index as int].args {
            Some(args) => out matches Some(read) && read@.map_values(|a: MetaArg| a@) == args,
            None => out is None,
        },
{
    match argument_count(item, index) {
        None => None,
        Some(count) => {
            let ghost args = declared(*item).attributes[index as int].args->0;
            let mut read: Vec<MetaArg> = Vec::new();
            let mut j: usize = 0;
            while j < count
                invariant
                    j <= count,
                    index < declared(*item).attributes.len(),
                    declared(*item).attributes[index as int].args == Some(args),
                    count == args.len(),
                    read.len() == j,
                    forall|k: int| 0 <= k < j ==> (#[trigger] read[k])@ == args[k],
                decreases count - j,
            {
                read.push(argument(item, index, j));
                j = j + 1;
            }
            assert(read@.map_values(|a: MetaArg| a@) =~= args);
            Some(read)
        },
    }
}

/// Reads the attributes, in order.
fn read_attributes(item: &DeriveInput) -> (attrs: Vec<Attribute>)
    ensures
        attrs@.map_values(|a: Attribute| a@) == declared(*item).attributes,
{
    let count = attribute_count(item);
    let mut attrs: Vec<Attribute> = Vec::new();
    let mut i: usize = 0;
    while i < count
        invariant
            i <= count,
            count == declared(*item).attributes.len(),
            attrs.len() == i,
            forall|k: int| 0 <= k < i ==> (#[trigger] attrs[k])@ == declared(*item).attributes[k],
        decreases count - i,
    {
        let name = attribute_path_text(item, i);
        let args = read_arguments(item, i);
        attrs.push(Attribute { name, args });
        i = i + 1;
    }
    assert(attrs@.map_values(|a: Attribute| a@) =~= declared(*item).attributes);
    attrs
}

/// Reads out of a parsed item what the derivation needs: the declared
/// name, what kind of item it is, the types of its fields and its
/// attributes.
pub fn read_declaration(item: &DeriveInput) -> (decl: Declaration)
    ensures
        decl@ == declared(*item),
{
    Declaration {
        name: ident_text(item),
        shape: shape_of(item),
        field_types: read_field_types(item),
        attributes: read_attributes(item),
    }
}

/// Derives the pool implementation for a parsed item: the emitted code
/// for an item that passes both rules, the error of the first rule that it
/// breaks for any other.
pub fn derive_database(input: &DeriveInput) -> (out: Result<String, DeriveError>)
    ensures
        is_generated(declared(*input), out),
{
    let decl = read_declaration(input);
    generate(&decl)
}

} // verus!
