//! What the emitted code is built from, once a declaration has been
//! accepted.

use vstd::prelude::*;

verus! {

/// The three texts that are substituted into the emitted code.
#[derive(Debug)]
pub struct GenerationContext {
    /// The identifier of the declared type.
    pub decorated_type: String,
    /// The type of the single field: the pool that the declared type wraps.
    pub pool_type: String,
    /// The logical name of the pool, as given in the `database` attribute.
    pub db_name: String,
}

/// The mathematical value of a [`GenerationContext`].
pub struct GenerationContextView {
    pub decorated_type: Seq<char>,
    pub pool_type: Seq<char>,
    pub db_name: Seq<char>,
}

impl View for GenerationContext {
    type V = GenerationContextView;

    open spec fn view(&self) -> GenerationContextView {
        GenerationContextView {
            decorated_type: self.decorated_type@,
            pool_type: self.pool_type@,
            db_name: self.db_name@,
        }
    }
}

} // verus!
