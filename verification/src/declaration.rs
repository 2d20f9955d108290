//! The declaration that a pool implementation is derived for, reduced to
//! what the derivation reads: its name, the kind and types of its fields,
//! and its attributes.

use vstd::prelude::*;

verus! {

/// The kind of item that was declared and, for a struct, the kind of its
/// fields.
#[derive(Clone, Copy, Debug, PartialEq, Eq, Structural)]
pub enum Shape {
    /// A struct with unnamed fields: `struct Db(Pool);`.
    Tuple,
    /// A struct with named fields: `struct Db { pool: Pool }`.
    Named,
    /// A struct without fields: `struct Db;`.
    Unit,
    /// An enum.
    Enum,
    /// A union.
    Union,
}

/// One argument between the parentheses of an attribute.
#[derive(Debug)]
pub enum MetaArg {
    /// A string literal standing alone, with the string it denotes.
    Str(String),
    /// Anything else: another literal, a path, a `key = value` pair, a
    /// nested list.
    Other,
}

/// An attribute of the declaration.
#[derive(Debug)]
pub struct Attribute {
    /// The path before the arguments, such as `database`.
    pub name: String,
    /// The arguments of `name(..)`, in order; `None` for an attribute that
    /// is not of that form, such as `#[name]` or `#[name = ".."]`.
    pub args: Option<Vec<MetaArg>>,
}

/// A declared type with the attributes attached to it.
#[derive(Debug)]
pub struct Declaration {
    /// The identifier of the declared type.
    pub name: String,
    /// What was declared.
    pub shape: Shape,
    /// The types of the fields, in order, as source text. Empty for an enum
    /// or a union.
    pub field_types: Vec<String>,
    /// The attributes, in order.
    pub attributes: Vec<Attribute>,
}

/// The mathematical value of a [`MetaArg`].
pub enum MetaArgView {
    Str(Seq<char>),
    Other,
}

/// The mathematical value of an [`Attribute`].
pub struct AttributeView {
    pub name: Seq<char>,
    pub args: Option<Seq<MetaArgView>>,
}

/// The mathematical value of a [`Declaration`].
pub struct DeclarationView {
    pub name: Seq<char>,
    pub shape: Shape,
    pub field_types: Seq<Seq<char>>,
    pub attributes: Seq<AttributeView>,
}

impl View for MetaArg {
    type V = MetaArgView;

    open spec fn view(&self) -> MetaArgView {
        match self {
            MetaArg::Str(s) => MetaArgView::Str(s@),
            MetaArg::Other => MetaArgView::Other,
        }
    }
}

impl View for Attribute {
    type V = AttributeView;

    open spec fn view(&self) -> AttributeView {
        AttributeView {
            name: self.name@,
            args: match self.args {
                Some(args) => Some(args@.map_values(|a: MetaArg| a@)),
                None => None,
            },
        }
    }
}

impl View for Declaration {
    type V = DeclarationView;

    open spec fn view(&self) -> DeclarationView {
        DeclarationView {
            name: self.name@,
            shape: self.shape,
            field_types: self.field_types@.map_values(|t: String| t@),
            attributes: self.attributes@.map_values(|a: Attribute| a@),
        }
    }
}

} // verus!
