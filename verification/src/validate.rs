//! The two rules that a declaration has to pass before code is emitted for
//! it: on its shape, and on its `database` attribute.

use vstd::prelude::*;
use vstd::string::*;

use crate::context::{GenerationContext, GenerationContextView};
use crate::declaration::{
    Attribute, AttributeView, Declaration, DeclarationView, MetaArg, MetaArgView, Shape,
};
use crate::error::DeriveError;

verus! {

/// The name of the attribute that carries the pool's logical name.
pub const DATABASE: &'static str = "database";

/// The shape rule: a struct with unnamed fields, and exactly one of them.
pub open spec fn has_one_unnamed_field(decl: DeclarationView) -> bool {
    decl.shape == Shape::Tuple && decl.field_types.len() == 1
}

/// Whether an attribute is an occurrence of `database`, whatever its
/// arguments.
pub open spec fn names_database(attr: AttributeView) -> bool {
    attr.name == DATABASE@
}

/// [`names_database`] as a value, to filter with.
pub open spec fn database_filter() -> spec_fn(AttributeView) -> bool {
    |attr: AttributeView| names_database(attr)
}

/// The occurrences of `database` among some attributes, in order.
pub open spec fn database_attributes(attrs: Seq<AttributeView>) -> Seq<AttributeView> {
    attrs.filter(database_filter())
}

/// The name that an attribute gives, if its arguments are exactly one
/// string literal and that string is not empty.
pub open spec fn given_name(attr: AttributeView) -> Option<Seq<char>> {
    match attr.args {
        Some(args) => if args.len() == 1 {
            match args[0] {
                MetaArgView::Str(name) => if name.len() > 0 {
                    Some(name)
                } else {
                    None
                },
                MetaArgView::Other => None,
            }
        } else {
            None
        },
        None => None,
    }
}

/// The metadata rule: the name given by the one occurrence of `database`.
/// There is none if `database` does not occur, occurs more than once, or
/// occurs once in another form than `database("name")`.
pub open spec fn resource_name_of(decl: DeclarationView) -> Option<Seq<char>> {
    let found = database_attributes(decl.attributes);
    if found.len() == 1 {
        given_name(found[0])
    } else {
        None
    }
}

/// What validation makes of a declaration. The shape is judged first, so
/// a declaration that breaks both rules is turned down for its shape.
pub open spec fn validated(decl: DeclarationView) -> Result<GenerationContextView, DeriveError> {
    if !has_one_unnamed_field(decl) {
        Err(DeriveError::Shape)
    } else {
        match resource_name_of(decl) {
            Some(name) => Ok(
                GenerationContextView {
                    decorated_type: decl.name,
                    pool_type: decl.field_types[0],
                    db_name: name,
                },
            ),
            None => Err(DeriveError::MissingAttribute),
        }
    }
}

/// Checks the shape rule.
pub fn check_shape(decl: &Declaration) -> (out: Result<(), DeriveError>)
    ensures
        out is Ok <==> has_one_unnamed_field(decl@),
        out matches Err(e) ==> e == DeriveError::Shape,
{
    if decl.shape == Shape::Tuple && decl.field_types.len() == 1 {
        Ok(())
    } else {
        Err(DeriveError::Shape)
    }
}

/// Reads the name out of one attribute: `Some` exactly for an attribute
/// whose arguments are one non-empty string literal.
pub fn attribute_name(attr: &Attribute) -> (out: Option<String>)
    ensures
        match given_name(attr@) {
            Some(name) => out matches Some(text) && text@ == name,
            None => out is None,
        },
{
    match &attr.args {
        Some(args) => {
            if args.len() == 1 {
                match &args[0] {
                    MetaArg::Str(name) => {
                        if name.as_str().is_empty() {
                            None
                        } else {
                            Some(name.clone())
                        }
                    },
                    MetaArg::Other => None,
                }
            } else {
                None
            }
        },
        None => None,
    }
}

/// Adding an attribute at the end adds it to the occurrences of
/// `database` exactly if it is one.
proof fn lemma_database_attributes_push(attrs: Seq<AttributeView>, attr: AttributeView)
    ensures
        database_attributes(attrs.push(attr)) == if names_database(attr) {
            database_attributes(attrs).push(attr)
        } else {
            database_attributes(attrs)
        },
{
    attrs.lemma_filter_push(attr, database_filter());
}

/// Checks the metadata rule and returns the pool's logical name.
pub fn resource_name(decl: &Declaration) -> (out: Result<String, DeriveError>)
    ensures
        match resource_name_of(decl@) {
            Some(name) => out matches Ok(text) && text@ == name,
            None => out matches Err(e) && e == DeriveError::MissingAttribute,
        },
{
    let key = String::from_str(DATABASE);
    let ghost attrs = decl@.attributes;
    let mut count: usize = 0;
    let mut first: usize = 0;
    let mut i: usize = 0;
    assert(attrs.take(0) =~= Seq::<AttributeView>::empty());
    while i < decl.attributes.len()
        invariant
            i <= decl.attributes.len(),
            attrs == decl@.attributes,
            key@ == DATABASE@,
            count == database_attributes(attrs.take(i as int)).len(),
            count <= i,
            count > 0 ==> first < i && database_attributes(attrs.take(i as int))[0]
                == attrs[first as int],
        decreases decl.attributes.len() - i,
    {
        proof {
            attrs.lemma_take_succ_push(i as int);
            lemma_database_attributes_push(attrs.take(i as int), attrs[i as int]);
        }
        if decl.attributes[i].name == key {
            if count == 0 {
                first = i;
            }
            count = count + 1;
        }
        i = i + 1;
    }
    assert(attrs.take(i as int) =~= attrs);
    if count == 1 {
        match attribute_name(&decl.attributes[first]) {
            Some(name) => Ok(name),
            None => Err(DeriveError::MissingAttribute),
        }
    } else {
        Err(DeriveError::MissingAttribute)
    }
}

/// Validates a declaration and derives what the emitted code is built
/// from: the declared name, the type of the single field, and the name in
/// the `database` attribute, which is never empty.
pub fn validate(decl: &Declaration) -> (out: Result<GenerationContext, DeriveError>)
    ensures
        match validated(decl@) {
            Ok(context) => out matches Ok(c) && c@ == context,
            Err(error) => out matches Err(e) && e == error,
        },
        out matches Ok(c) ==> c@.db_name.len() > 0,
{
    match check_shape(decl) {
        Err(e) => Err(e),
        Ok(()) => match resource_name(decl) {
            Err(e) => Err(e),
            Ok(db_name) => Ok(
                GenerationContext {
                    decorated_type: decl.name.clone(),
                    pool_type: decl.field_types[0].clone(),
                    db_name,
                },
            ),
        },
    }
}

} // verus!
