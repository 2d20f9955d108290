//! Code generation for a derive of `rocket_db_pools::Database`.
//!
//! A declaration is accepted if it is a struct with exactly one unnamed
//! field that carries exactly one attribute `#[database("name")]`. For an
//! accepted declaration six implementations are emitted, as source text:
//! `From`, `Deref` and `DerefMut` for the wrapped pool, a request guard and
//! a startup check for references to the declared type, and `Database`
//! itself.

pub mod accessors;
pub mod context;
pub mod declaration;
pub mod emit;
pub mod error;
pub mod generate;
pub mod literal;
pub mod syntax;
pub mod validate;

pub use accessors::{fetch_outcome, sentinel_abort, Outcome, Status};
pub use context::GenerationContext;
pub use declaration::{Attribute, Declaration, MetaArg, Shape};
pub use emit::{
    database_impl, deref_impl, deref_mut_impl, fairing_name, from_impl, from_request_impl,
    lookup_call, sentinel_impl, synthesize,
};
pub use error::{Anchor, DeriveError, ONE_DATABASE_ATTR, ONE_UNNAMED_FIELD};
pub use generate::generate;
pub use literal::string_literal;
pub use syntax::{derive_database, read_declaration};
pub use validate::{attribute_name, check_shape, resource_name, validate};
