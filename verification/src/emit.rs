//! The code that is emitted for an accepted declaration: six
//! implementations, each a fixed text around the declared type, the pool
//! type and the pool's name.

use vstd::prelude::*;
use vstd::string::*;

use crate::context::{GenerationContext, GenerationContextView};
use crate::literal::{
    denoted, lemma_literal_denotes_its_text, literal_text, string_literal,
};

verus! {

/// The application as the request guard reaches it.
pub const REQUEST_HANDLE: &'static str = "req.rocket()";

/// The application as the startup check is handed it.
pub const IGNITE_HANDLE: &'static str = "rocket";

/// The text of the label that the pool initializer carries for a pool name.
pub open spec fn fairing_label(name: Seq<char>) -> Seq<char> {
    "'"@ + name + "' Database Pool"@
}

/// Builds the label of the pool initializer: the pool's name between single
/// quotes, followed by ` Database Pool`. The name is inserted as it is, with
/// nothing escaped or removed.
pub fn fairing_name(db_name: &str) -> (label: String)
    ensures
        label@ == fairing_label(db_name@),
{
    let mut label = String::from_str("'");
    label.append(db_name);
    label.append("' Database Pool");
    label
}

/// The expression that looks the declared type up in the managed state of
/// an application.
pub open spec fn lookup_text(decorated_type: Seq<char>, handle: Seq<char>) -> Seq<char> {
    decorated_type + "::fetch("@ + handle + ")"@
}

/// Writes the lookup of the declared type in the managed state of the
/// application that `handle` names. The request guard and the startup
/// check both take their lookup from here, so the two cannot come apart.
pub fn lookup_call(decorated_type: &str, handle: &str) -> (code: String)
    ensures
        code@ == lookup_text(decorated_type@, handle@),
{
    let mut code = String::from_str(decorated_type);
    code.append("::fetch(");
    code.append(handle);
    code.append(")");
    code
}

/// The conversion from the pool into the declared type.
pub open spec fn from_impl_text(context: GenerationContextView) -> Seq<char> {
    "impl From<"@ + context.pool_type + "> for "@ + context.decorated_type + " {\n"@
        + "    fn from(pool: "@ + context.pool_type + ") -> Self {\n"@
        + "        Self(pool)\n"@
        + "    }\n"@
        + "}\n"@
}

/// Emits the conversion from the pool into the declared type: `From`
/// for the pool type, which wraps the value and checks nothing.
pub fn from_impl(context: &GenerationContext) -> (code: String)
    ensures
        code@ == from_impl_text(context@),
{
    let mut code = String::from_str("impl From<");
    code.append(context.pool_type.as_str());
    code.append("> for ");
    code.append(context.decorated_type.as_str());
    code.append(" {\n");
    code.append("    fn from(pool: ");
    code.append(context.pool_type.as_str());
    code.append(") -> Self {\n");
    code.append("        Self(pool)\n");
    code.append("    }\n");
    code.append("}\n");
    code
}

/// Read access to the pool through the declared type.
pub open spec fn deref_impl_text(context: GenerationContextView) -> Seq<char> {
    "impl std::ops::Deref for "@ + context.decorated_type + " {\n"@
        + "    type Target = "@ + context.pool_type + ";\n"@
        + "\n"@
        + "    fn deref(&self) -> &Self::Target {\n"@
        + "        &self.0\n"@
        + "    }\n"@
        + "}\n"@
}

/// Emits read access to the pool: `Deref` with the pool type as its
/// target.
pub fn deref_impl(context: &GenerationContext) -> (code: String)
    ensures
        code@ == deref_impl_text(context@),
{
    let mut code = String::from_str("impl std::ops::Deref for ");
    code.append(context.decorated_type.as_str());
    code.append(" {\n");
    code.append("    type Target = ");
    code.append(context.pool_type.as_str());
    code.append(";\n");
    code.append("\n");
    code.append("    fn deref(&self) -> &Self::Target {\n");
    code.append("        &self.0\n");
    code.append("    }\n");
    code.append("}\n");
    code
}

/// Write access to the pool through the declared type.
pub open spec fn deref_mut_impl_text(context: GenerationContextView) -> Seq<char> {
    "impl std::ops::DerefMut for "@ + context.decorated_type + " {\n"@
        + "    fn deref_mut(&mut self) -> &mut Self::Target {\n"@
        + "        &mut self.0\n"@
        + "    }\n"@
        + "}\n"@
}

/// Emits write access to the pool: `DerefMut`.
pub fn deref_mut_impl(context: &GenerationContext) -> (code: String)
    ensures
        code@ == deref_mut_impl_text(context@),
{
    let mut code = String::from_str("impl std::ops::DerefMut for ");
    code.append(context.decorated_type.as_str());
    code.append(" {\n");
    code.append("    fn deref_mut(&mut self) -> &mut Self::Target {\n");
    code.append("        &mut self.0\n");
    code.append("    }\n");
    code.append("}\n");
    code
}

/// The request guard up to its lookup.
pub open spec fn guard_before_lookup(decorated_type: Seq<char>) -> Seq<char> {
    "#[rocket::async_trait]\n"@
        + "impl<'r> rocket::request::FromRequest<'r> for &'r "@ + decorated_type + " {\n"@
        + "    type Error = ();\n"@
        + "\n"@
        + "    async fn from_request(\n"@
        + "        req: &'r rocket::request::Request<'_>,\n"@
        + "    ) -> rocket::request::Outcome<Self, Self::Error> {\n"@
        + "        match "@
}

/// The request guard after its lookup.
pub open spec fn guard_after_lookup() -> Seq<char> {
    " {\n"@
        + "            Some(db) => rocket::outcome::Outcome::Success(db),\n"@
        + "            None => rocket::outcome::Outcome::Failure((\n"@
        + "                rocket::http::Status::InternalServerError,\n"@
        + "                (),\n"@
        + "            )),\n"@
        + "        }\n"@
        + "    }\n"@
        + "}\n"@
}

/// The request guard: a reference to the declared type where [`lookup_text`]
/// on the request's application finds one, an internal server error where it
/// does not.
pub open spec fn from_request_impl_text(context: GenerationContextView) -> Seq<char> {
    guard_before_lookup(context.decorated_type) + lookup_text(context.decorated_type, REQUEST_HANDLE@)
        + guard_after_lookup()
}

/// Emits the request guard for a reference to the declared type. It
/// succeeds with what the lookup finds and fails with an internal server
/// error and the unit value where the lookup finds nothing.
pub fn from_request_impl(context: &GenerationContext) -> (code: String)
    ensures
        code@ == from_request_impl_text(context@),
{
    let mut code = String::from_str("#[rocket::async_trait]\n");
    code.append("impl<'r> rocket::request::FromRequest<'r> for &'r ");
    code.append(context.decorated_type.as_str());
    code.append(" {\n");
    code.append("    type Error = ();\n");
    code.append("\n");
    code.append("    async fn from_request(\n");
    code.append("        req: &'r rocket::request::Request<'_>,\n");
    code.append("    ) -> rocket::request::Outcome<Self, Self::Error> {\n");
    code.append("        match ");
    let lookup = lookup_call(context.decorated_type.as_str(), REQUEST_HANDLE);
    code.append(lookup.as_str());
    code.append(" {\n");
    code.append("            Some(db) => rocket::outcome::Outcome::Success(db),\n");
    code.append("            None => rocket::outcome::Outcome::Failure((\n");
    code.append("                rocket::http::Status::InternalServerError,\n");
    code.append("                (),\n");
    code.append("            )),\n");
    code.append("        }\n");
    code.append("    }\n");
    code.append("}\n");
    assert(code@ =~= from_request_impl_text(context@));
    code
}

/// The startup check up to its lookup.
pub open spec fn check_before_lookup(decorated_type: Seq<char>) -> Seq<char> {
    "impl rocket::Sentinel for &"@ + decorated_type + " {\n"@
        + "    fn abort(rocket: &rocket::Rocket<rocket::Ignite>) -> bool {\n"@
        + "        "@
}

/// The startup check after its lookup.
pub open spec fn check_after_lookup() -> Seq<char> {
    ".is_none()\n"@
        + "    }\n"@
        + "}\n"@
}

/// The startup check: abort exactly where [`lookup_text`] on the application
/// finds nothing.
pub open spec fn sentinel_impl_text(context: GenerationContextView) -> Seq<char> {
    check_before_lookup(context.decorated_type) + lookup_text(context.decorated_type, IGNITE_HANDLE@)
        + check_after_lookup()
}

/// Emits the startup check for a reference to the declared type. It
/// makes the same lookup as the request guard, on the application that is
/// starting, and aborts exactly where that finds nothing.
pub fn sentinel_impl(context: &GenerationContext) -> (code: String)
    ensures
        code@ == sentinel_impl_text(context@),
{
    let mut code = String::from_str("impl rocket::Sentinel for &");
    code.append(context.decorated_type.as_str());
    code.append(" {\n");
    code.append("    fn abort(rocket: &rocket::Rocket<rocket::Ignite>) -> bool {\n");
    code.append("        ");
    let lookup = lookup_call(context.decorated_type.as_str(), IGNITE_HANDLE);
    code.append(lookup.as_str());
    code.append(".is_none()\n");
    code.append("    }\n");
    code.append("}\n");
    assert(code@ =~= sentinel_impl_text(context@));
    code
}

/// The pool's own face: its type, its name, and the initializer with its
/// label.
pub open spec fn database_impl_text(context: GenerationContextView) -> Seq<char> {
    "#[rocket::async_trait]\n"@
        + "impl rocket_db_pools::Database for "@ + context.decorated_type + " {\n"@
        + "    type Pool = "@ + context.pool_type + ";\n"@
        + "\n"@
        + "    const NAME: &'static str = "@ + literal_text(context.db_name) + ";\n"@
        + "\n"@
        + "    fn init() -> rocket_db_pools::Initializer<Self> {\n"@
        + "        rocket_db_pools::Initializer::with_name("@
        + literal_text(fairing_label(context.db_name)) + ")\n"@
        + "    }\n"@
        + "}\n"@
}

/// Emits the implementation of `rocket_db_pools::Database`: the pool
/// type, the name as a string literal that stands for exactly the name
/// given, and an initializer labelled as [`fairing_name`] says.
pub fn database_impl(context: &GenerationContext) -> (code: String)
    ensures
        code@ == database_impl_text(context@),
{
    let mut code = String::from_str("#[rocket::async_trait]\n");
    code.append("impl rocket_db_pools::Database for ");
    code.append(context.decorated_type.as_str());
    code.append(" {\n");
    code.append("    type Pool = ");
    code.append(context.pool_type.as_str());
    code.append(";\n");
    code.append("\n");
    code.append("    const NAME: &'static str = ");
    let name = string_literal(context.db_name.as_str());
    code.append(name.as_str());
    code.append(";\n");
    code.append("\n");
    code.append("    fn init() -> rocket_db_pools::Initializer<Self> {\n");
    code.append("        rocket_db_pools::Initializer::with_name(");
    let label = fairing_name(context.db_name.as_str());
    let label_literal = string_literal(label.as_str());
    code.append(label_literal.as_str());
    code.append(")\n");
    code.append("    }\n");
    code.append("}\n");
    code
}
/// Whether `part` stands somewhere in `text`.
pub open spec fn occurs_in(part: Seq<char>, text: Seq<char>) -> bool {
    exists|at: int|
        0 <= at && at + part.len() <= text.len() && #[trigger] text.subrange(
            at,
            at + part.len(),
        ) == part
}

/// A text that is put between two others stands in the whole.
proof fn lemma_occurs_between(before: Seq<char>, part: Seq<char>, after: Seq<char>)
    ensures
        occurs_in(part, before + part + after),
{
    let text = before + part + after;
    let at = before.len() as int;
    assert(text.subrange(at, at + part.len()) =~= part);
}

/// The request guard and the startup check hold the same lookup of the
/// declared type, each on the application that it is given. What the
/// check reports is therefore decided by the very call whose result the
/// guard hands on.
pub proof fn lemma_guard_and_check_share_the_lookup(context: GenerationContextView)
    ensures
        occurs_in(
            lookup_text(context.decorated_type, REQUEST_HANDLE@),
            from_request_impl_text(context),
        ),
        occurs_in(
            lookup_text(context.decorated_type, IGNITE_HANDLE@),
            sentinel_impl_text(context),
        ),
{
    let decorated = context.decorated_type;
    lemma_occurs_between(
        guard_before_lookup(decorated),
        lookup_text(decorated, REQUEST_HANDLE@),
        guard_after_lookup(),
    );
    lemma_occurs_between(
        check_before_lookup(decorated),
        lookup_text(decorated, IGNITE_HANDLE@),
        check_after_lookup(),
    );
}

/// The two literals in the implementation of the pool stand for the name
/// exactly as it was given, and for the label exactly as [`fairing_label`]
/// has it: writing them as literals changes neither.
pub proof fn lemma_emitted_literals_denote_name_and_label(context: GenerationContextView)
    ensures
        denoted(literal_text(context.db_name)) == Some(context.db_name),
        denoted(literal_text(fairing_label(context.db_name))) == Some(
            fairing_label(context.db_name),
        ),
{
    lemma_literal_denotes_its_text(context.db_name);
    lemma_literal_denotes_its_text(fairing_label(context.db_name));
}

/// All that is emitted for a declaration: the five implementations on the
/// declared type, then the implementation of the pool, with an empty line
/// between each two.
pub open spec fn synthesized(context: GenerationContextView) -> Seq<char> {
    from_impl_text(context) + "\n"@ + deref_impl_text(context) + "\n"@ + deref_mut_impl_text(
        context,
    ) + "\n"@ + from_request_impl_text(context) + "\n"@ + sentinel_impl_text(context) + "\n"@
        + database_impl_text(context)
}

/// Emits the code for an accepted declaration. Every context gives code:
/// nothing is checked here and nothing can fail.
pub fn synthesize(context: &GenerationContext) -> (code: String)
    ensures
        code@ == synthesized(context@),
{
    let mut code = from_impl(context);
    code.append("\n");
    let deref = deref_impl(context);
    code.append(deref.as_str());
    code.append("\n");
    let deref_mut = deref_mut_impl(context);
    code.append(deref_mut.as_str());
    code.append("\n");
    let from_request = from_request_impl(context);
    code.append(from_request.as_str());
    code.append("\n");
    let sentinel = sentinel_impl(context);
    code.append(sentinel.as_str());
    code.append("\n");
    let database = database_impl(context);
    code.append(database.as_str());
    code
}

} // verus!
