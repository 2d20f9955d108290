//! The two ways in which a declaration is turned down, and where each is
//! reported.

use vstd::prelude::*;
use vstd::string::*;

verus! {

/// The message of [`DeriveError::Shape`].
pub const ONE_UNNAMED_FIELD: &'static str = "struct must have exactly one unnamed field";

/// The message of [`DeriveError::MissingAttribute`].
pub const ONE_DATABASE_ATTR: &'static str = "missing `#[database(\"name\")]` attribute";

/// Why a declaration cannot be given a pool implementation.
#[derive(Clone, Copy, Debug, PartialEq, Eq, Structural)]
pub enum DeriveError {
    /// The declaration is not a struct with exactly one unnamed field.
    Shape,
    /// The declaration does not carry exactly one attribute of the form
    /// `database("name")` with a non-empty name.
    MissingAttribute,
}

/// The part of the declaration that a diagnostic points at.
#[derive(Clone, Copy, Debug, PartialEq, Eq, Structural)]
pub enum Anchor {
    /// The list of fields.
    FieldList,
    /// The declaration as a whole.
    Declaration,
}

impl DeriveError {
    /// The text shown to the user for this error.
    pub open spec fn message_text(self) -> Seq<char> {
        match self {
            DeriveError::Shape => ONE_UNNAMED_FIELD@,
            DeriveError::MissingAttribute => ONE_DATABASE_ATTR@,
        }
    }

    /// The part of the declaration that this error is reported on.
    pub open spec fn anchor_of(self) -> Anchor {
        match self {
            DeriveError::Shape => Anchor::FieldList,
            DeriveError::MissingAttribute => Anchor::Declaration,
        }
    }

    /// Returns the text shown to the user for this error.
    pub fn message(&self) -> (text: String)
        ensures
            text@ == self.message_text(),
    {
        match self {
            DeriveError::Shape => String::from_str(ONE_UNNAMED_FIELD),
            DeriveError::MissingAttribute => String::from_str(ONE_DATABASE_ATTR),
        }
    }

    /// Returns the part of the declaration on which this error is reported:
    /// the field list for a wrong shape, the whole declaration for a missing
    /// attribute.
    pub fn anchor(&self) -> (anchor: Anchor)
        ensures
            anchor == self.anchor_of(),
    {
        match self {
            DeriveError::Shape => Anchor::FieldList,
            DeriveError::MissingAttribute => Anchor::Declaration,
        }
    }
}

} // verus!
