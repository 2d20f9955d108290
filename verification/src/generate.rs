//! Validation and emission put together, and what holds of the two.

use vstd::prelude::*;

use crate::context::GenerationContextView;
use crate::declaration::{AttributeView, Declaration, DeclarationView, MetaArgView};
use crate::emit::{synthesize, synthesized};
use crate::error::DeriveError;
use crate::validate::{
    database_attributes, database_filter, given_name, has_one_unnamed_field, names_database,
    validate, validated,
};

verus! {

/// What is made of a declaration: the emitted code if it passes both
/// rules, the error of the first rule that it breaks if not.
pub open spec fn generated(decl: DeclarationView) -> Result<Seq<char>, DeriveError> {
    match validated(decl) {
        Ok(context) => Ok(synthesized(context)),
        Err(error) => Err(error),
    }
}

/// Whether `out` is what generation returns for `decl`.
pub open spec fn is_generated(decl: DeclarationView, out: Result<String, DeriveError>) -> bool {
    match generated(decl) {
        Ok(code) => out matches Ok(text) && text@ == code,
        Err(error) => out matches Err(e) && e == error,
    }
}

/// Validates a declaration and emits the code for it. Nothing is emitted
/// for a declaration that is turned down.
pub fn generate(decl: &Declaration) -> (out: Result<String, DeriveError>)
    ensures
        is_generated(decl@, out),
{
    match validate(decl) {
        Ok(context) => Ok(synthesize(&context)),
        Err(error) => Err(error),
    }
}

/// The ways in which an occurrence of `database` can fail to give a name:
/// it has no argument list, the list does not hold exactly one argument,
/// the argument is not a string literal, or the string is empty.
pub open spec fn malformed(attr: AttributeView) -> bool {
    match attr.args {
        None => true,
        Some(args) => args.len() != 1 || match args[0] {
            MetaArgView::Other => true,
            MetaArgView::Str(name) => name.len() == 0,
        },
    }
}

/// An attribute gives a name exactly if it is not malformed.
pub proof fn lemma_malformed_gives_no_name(attr: AttributeView)
    ensures
        malformed(attr) <==> given_name(attr) is None,
{
}

/// A declaration with one unnamed field and exactly one occurrence of
/// `database`, which gives a name, is accepted, and the code emitted for
/// it is built from the declared name, the type of that field and the name
/// given.
pub proof fn lemma_valid_declaration_is_accepted(decl: DeclarationView, at: int)
    requires
        has_one_unnamed_field(decl),
        0 <= at < decl.attributes.len(),
        names_database(decl.attributes[at]),
        !malformed(decl.attributes[at]),
        forall|i: int| 0 <= i < decl.attributes.len() && i != at ==> !names_database(
            #[trigger] decl.attributes[i],
        ),
    ensures
        generated(decl) == Ok::<Seq<char>, DeriveError>(
            synthesized(
                GenerationContextView {
                    decorated_type: decl.name,
                    pool_type: decl.field_types[0],
                    db_name: given_name(decl.attributes[at])->0,
                },
            ),
        ),
{
    lemma_single_occurrence(decl.attributes, at);
}

/// A declaration that is not a struct with exactly one unnamed field is
/// turned down for its shape, whatever its attributes.
pub proof fn lemma_wrong_shape_is_shape_error(decl: DeclarationView)
    requires
        !has_one_unnamed_field(decl),
    ensures
        generated(decl) == Err::<Seq<char>, DeriveError>(DeriveError::Shape),
{
}

/// A declaration with no field, or with two or more, is turned down for
/// its shape.
pub proof fn lemma_wrong_field_count_is_shape_error(decl: DeclarationView)
    requires
        decl.field_types.len() != 1,
    ensures
        generated(decl) == Err::<Seq<char>, DeriveError>(DeriveError::Shape),
{
}

/// A declaration of the right shape is turned down for its attribute if it
/// has no attribute at all, or if an occurrence of `database` among its
/// attributes is malformed.
pub proof fn lemma_missing_or_malformed_attribute_is_error(decl: DeclarationView)
    requires
        has_one_unnamed_field(decl),
        decl.attributes.len() == 0 || exists|i: int|
            0 <= i < decl.attributes.len() && names_database(#[trigger] decl.attributes[i])
                && malformed(decl.attributes[i]),
    ensures
        generated(decl) == Err::<Seq<char>, DeriveError>(DeriveError::MissingAttribute),
{
    let found = database_attributes(decl.attributes);
    if decl.attributes.len() == 0 {
        decl.attributes.lemma_filter_len(database_filter());
    } else {
        let i = choose|i: int|
            0 <= i < decl.attributes.len() && names_database(#[trigger] decl.attributes[i])
                && malformed(decl.attributes[i]);
        if found.len() == 1 {
            decl.attributes.lemma_filter_contains(database_filter(), i);
            assert(found.contains(decl.attributes[i]));
            assert(found[0] == decl.attributes[i]);
        }
    }
}

/// A declaration of the right shape in which `database` does not occur, or
/// occurs more than once, is turned down for its attribute.
pub proof fn lemma_absent_or_repeated_attribute_is_error(decl: DeclarationView)
    requires
        has_one_unnamed_field(decl),
        database_attributes(decl.attributes).len() != 1,
    ensures
        generated(decl) == Err::<Seq<char>, DeriveError>(DeriveError::MissingAttribute),
{
}

/// Generating twice from one declaration gives the same outcome: the same
/// code, character for character, or the same error.
pub proof fn lemma_generation_is_repeatable(
    decl: DeclarationView,
    first: Result<String, DeriveError>,
    second: Result<String, DeriveError>,
)
    requires
        is_generated(decl, first),
        is_generated(decl, second),
    ensures
        first matches Ok(a) ==> second matches Ok(b) && a@ == b@,
        first matches Err(a) ==> second matches Err(b) && a == b,
{
}

/// Where `database` occurs at one place only, the occurrences are that one
/// attribute.
proof fn lemma_single_occurrence(attrs: Seq<AttributeView>, at: int)
    requires
        0 <= at < attrs.len(),
        names_database(attrs[at]),
        forall|i: int| 0 <= i < attrs.len() && i != at ==> !names_database(#[trigger] attrs[i]),
    ensures
        database_attributes(attrs) == seq![attrs[at]],
    decreases attrs.len(),
{
    let last = attrs.last();
    let front = attrs.drop_last();
    assert(front.push(last) =~= attrs);
    front.lemma_filter_push(last, database_filter());
    if at == attrs.len() - 1 {
        assert forall|i: int| 0 <= i < front.len() implies !database_filter()(
            #[trigger] front[i],
        ) by {
            assert(front[i] == attrs[i]);
        }
        front.lemma_all_neg_filter_empty(database_filter());
        assert(database_attributes(front) =~= Seq::<AttributeView>::empty());
        assert(database_attributes(attrs) =~= seq![attrs[at]]);
    } else {
        assert(front[at] == attrs[at]);
        assert forall|i: int| 0 <= i < front.len() && i != at implies !names_database(
            #[trigger] front[i],
        ) by {
            assert(front[i] == attrs[i]);
        }
        lemma_single_occurrence(front, at);
    }
}

} // verus!
