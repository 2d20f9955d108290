use db_pools_codegen::{
    attribute_name, check_shape, generate, resource_name, synthesize, validate, Anchor, Attribute, Declaration,
    DeriveError, GenerationContext, MetaArg, Shape, ONE_DATABASE_ATTR, ONE_UNNAMED_FIELD,
};

fn database(name: &str) -> Attribute {
    Attribute { name: "database".to_string(), args: Some(vec![MetaArg::Str(name.to_string())]) }
}

fn declaration(name: &str, shape: Shape, types: &[&str], attributes: Vec<Attribute>) -> Declaration {
    Declaration {
        name: name.to_string(),
        shape,
        field_types: types.iter().map(|t| t.to_string()).collect(),
        attributes,
    }
}

fn wrapper(name: &str, types: &[&str], attributes: Vec<Attribute>) -> Declaration {
    declaration(name, Shape::Tuple, types, attributes)
}

fn count(haystack: &str, needle: &str) -> usize {
    haystack.matches(needle).count()
}

const DB_MAIN: &str = "\
impl From<Pool> for Db {
    fn from(pool: Pool) -> Self {
        Self(pool)
    }
}

impl std::ops::Deref for Db {
    type Target = Pool;

    fn deref(&self) -> &Self::Target {
        &self.0
    }
}

impl std::ops::DerefMut for Db {
    fn deref_mut(&mut self) -> &mut Self::Target {
        &mut self.0
    }
}

#[rocket::async_trait]
impl<'r> rocket::request::FromRequest<'r> for &'r Db {
    type Error = ();

    async fn from_request(
        req: &'r rocket::request::Request<'_>,
    ) -> rocket::request::Outcome<Self, Self::Error> {
        match Db::fetch(req.rocket()) {
            Some(db) => rocket::outcome::Outcome::Success(db),
            None => rocket::outcome::Outcome::Failure((
                rocket::http::Status::InternalServerError,
                (),
            )),
        }
    }
}

impl rocket::Sentinel for &Db {
    fn abort(rocket: &rocket::Rocket<rocket::Ignite>) -> bool {
        Db::fetch(rocket).is_none()
    }
}

#[rocket::async_trait]
impl rocket_db_pools::Database for Db {
    type Pool = Pool;

    const NAME: &'static str = \"main\";

    fn init() -> rocket_db_pools::Initializer<Self> {
        rocket_db_pools::Initializer::with_name(\"'main' Database Pool\")
    }
}
";

#[test]
fn wrapper_of_pool_named_main() {
    let decl = wrapper("Db", &["Pool"], vec![database("main")]);
    let code = generate(&decl).expect("the declaration is valid");
    assert!(code.contains("type Pool = Pool;"));
    assert!(code.contains("const NAME: &'static str = \"main\";"));
    assert!(code.contains("rocket_db_pools::Initializer::with_name(\"'main' Database Pool\")"));
    assert!(code.contains("Some(db) => rocket::outcome::Outcome::Success(db),"));
    assert!(code.contains("rocket::http::Status::InternalServerError,"));
    assert_eq!(code, DB_MAIN);
}

#[test]
fn each_text_stands_where_it_belongs() {
    let decl = wrapper("Logs", &["sqlx::SqlitePool"], vec![database("sqlite_logs")]);
    let code = generate(&decl).expect("the declaration is valid");
    assert_eq!(count(&code, "impl From<sqlx::SqlitePool> for Logs {"), 1);
    assert_eq!(count(&code, "fn from(pool: sqlx::SqlitePool) -> Self {"), 1);
    assert_eq!(count(&code, "impl std::ops::Deref for Logs {"), 1);
    assert_eq!(count(&code, "type Target = sqlx::SqlitePool;"), 1);
    assert_eq!(count(&code, "impl std::ops::DerefMut for Logs {"), 1);
    assert_eq!(count(&code, "FromRequest<'r> for &'r Logs {"), 1);
    assert_eq!(count(&code, "match Logs::fetch(req.rocket()) {"), 1);
    assert_eq!(count(&code, "impl rocket::Sentinel for &Logs {"), 1);
    assert_eq!(count(&code, "Logs::fetch(rocket).is_none()"), 1);
    assert_eq!(count(&code, "impl rocket_db_pools::Database for Logs {"), 1);
    assert_eq!(count(&code, "type Pool = sqlx::SqlitePool;"), 1);
    assert_eq!(count(&code, "const NAME: &'static str = \"sqlite_logs\";"), 1);
    assert_eq!(count(&code, "with_name(\"'sqlite_logs' Database Pool\")"), 1);
    assert_eq!(count(&code, "sqlite_logs"), 2);
    assert_eq!(count(&code, "sqlx::SqlitePool"), 4);
    assert_eq!(count(&code, "Logs"), 8);
}

#[test]
fn no_field_is_a_shape_error() {
    let decl = wrapper("Db", &[], vec![database("main")]);
    assert_eq!(generate(&decl), Err(DeriveError::Shape));
}

#[test]
fn two_or_more_fields_are_a_shape_error() {
    let two = wrapper("Db", &["Pool", "Pool"], vec![database("main")]);
    assert_eq!(generate(&two), Err(DeriveError::Shape));
    let three = wrapper("Db", &["Pool", "u8", "String"], vec![database("main")]);
    assert_eq!(generate(&three), Err(DeriveError::Shape));
}

#[test]
fn a_named_field_is_a_shape_error() {
    let decl = declaration("Db", Shape::Named, &["Pool"], vec![database("main")]);
    assert_eq!(generate(&decl), Err(DeriveError::Shape));
}

#[test]
fn unit_struct_enum_and_union_are_shape_errors() {
    for shape in [Shape::Unit, Shape::Enum, Shape::Union] {
        let decl = declaration("Db", shape, &[], vec![database("main")]);
        assert_eq!(generate(&decl), Err(DeriveError::Shape));
        let odd = declaration("Db", shape, &["Pool"], vec![database("main")]);
        assert_eq!(generate(&odd), Err(DeriveError::Shape));
    }
}

#[test]
fn the_shape_is_judged_before_the_attribute() {
    let decl = wrapper("Db", &["Pool", "Pool"], vec![]);
    assert_eq!(generate(&decl), Err(DeriveError::Shape));
    assert_eq!(validate(&decl).unwrap_err(), DeriveError::Shape);
}

#[test]
fn no_attribute_is_a_missing_attribute_error() {
    let decl = wrapper("Db", &["Pool"], vec![]);
    assert_eq!(generate(&decl), Err(DeriveError::MissingAttribute));
}

#[test]
fn other_attributes_do_not_count() {
    let derive = Attribute { name: "derive".to_string(), args: Some(vec![MetaArg::Other]) };
    let alone = wrapper("Db", &["Pool"], vec![derive]);
    assert_eq!(generate(&alone), Err(DeriveError::MissingAttribute));

    let doc = Attribute { name: "doc".to_string(), args: None };
    let allow = Attribute { name: "allow".to_string(), args: Some(vec![MetaArg::Other]) };
    let beside = wrapper("Db", &["Pool"], vec![doc, database("main"), allow]);
    assert_eq!(generate(&beside), generate(&wrapper("Db", &["Pool"], vec![database("main")])));
    assert!(generate(&beside).is_ok());
}

#[test]
fn an_attribute_without_a_list_is_malformed() {
    let bare = Attribute { name: "database".to_string(), args: None };
    let decl = wrapper("Db", &["Pool"], vec![bare]);
    assert_eq!(generate(&decl), Err(DeriveError::MissingAttribute));
}

#[test]
fn a_wrong_number_of_arguments_is_malformed() {
    let none = Attribute { name: "database".to_string(), args: Some(vec![]) };
    assert_eq!(generate(&wrapper("Db", &["Pool"], vec![none])), Err(DeriveError::MissingAttribute));

    let two = Attribute {
        name: "database".to_string(),
        args: Some(vec![MetaArg::Str("a".to_string()), MetaArg::Str("b".to_string())]),
    };
    assert_eq!(generate(&wrapper("Db", &["Pool"], vec![two])), Err(DeriveError::MissingAttribute));
}

#[test]
fn an_argument_that_is_no_string_is_malformed() {
    let number = Attribute { name: "database".to_string(), args: Some(vec![MetaArg::Other]) };
    let decl = wrapper("Db", &["Pool"], vec![number]);
    assert_eq!(generate(&decl), Err(DeriveError::MissingAttribute));
}

#[test]
fn an_empty_name_is_malformed() {
    let decl = wrapper("Db", &["Pool"], vec![database("")]);
    assert_eq!(generate(&decl), Err(DeriveError::MissingAttribute));
}

#[test]
fn a_repeated_attribute_is_rejected() {
    let decl = wrapper("Db", &["Pool"], vec![database("main"), database("main")]);
    assert_eq!(generate(&decl), Err(DeriveError::MissingAttribute));
    let mixed = wrapper("Db", &["Pool"], vec![database("main"), database("")]);
    assert_eq!(generate(&mixed), Err(DeriveError::MissingAttribute));
}

#[test]
fn generating_twice_gives_the_same_bytes() {
    let decl = wrapper("Logs", &["sqlx::SqlitePool"], vec![database("sqlite_logs")]);
    let first = generate(&decl).unwrap();
    let second = generate(&decl).unwrap();
    assert_eq!(first.as_bytes(), second.as_bytes());

    let bad = wrapper("Logs", &[], vec![]);
    assert_eq!(generate(&bad), generate(&bad));
}

#[test]
fn validation_derives_the_three_texts() {
    let doc = Attribute { name: "doc".to_string(), args: None };
    let decl = wrapper("Logs", &["sqlx::SqlitePool"], vec![doc, database("sqlite_logs")]);
    let context = validate(&decl).expect("the declaration is valid");
    assert_eq!(context.decorated_type, "Logs");
    assert_eq!(context.pool_type, "sqlx::SqlitePool");
    assert_eq!(context.db_name, "sqlite_logs");
}

#[test]
fn the_two_rules_on_their_own() {
    let decl = wrapper("Db", &["Pool"], vec![]);
    assert_eq!(check_shape(&decl), Ok(()));
    assert_eq!(resource_name(&decl), Err(DeriveError::MissingAttribute));

    let decl = wrapper("Db", &[], vec![database("main")]);
    assert_eq!(check_shape(&decl), Err(DeriveError::Shape));
    assert_eq!(resource_name(&decl), Ok("main".to_string()));
}

#[test]
fn the_name_is_taken_from_the_occurrence_wherever_it_stands() {
    let other = Attribute {
        name: "cfg".to_string(),
        args: Some(vec![MetaArg::Str("not this".to_string())]),
    };
    let last = wrapper("Db", &["Pool"], vec![other, database("second")]);
    assert_eq!(resource_name(&last), Ok("second".to_string()));
}

#[test]
fn one_attribute_on_its_own() {
    assert_eq!(attribute_name(&database("main")), Some("main".to_string()));
    assert_eq!(attribute_name(&database("")), None);
    let bare = Attribute { name: "database".to_string(), args: None };
    assert_eq!(attribute_name(&bare), None);
    let number = Attribute { name: "database".to_string(), args: Some(vec![MetaArg::Other]) };
    assert_eq!(attribute_name(&number), None);
    let elsewhere = Attribute {
        name: "cfg".to_string(),
        args: Some(vec![MetaArg::Str("x".to_string())]),
    };
    assert_eq!(attribute_name(&elsewhere), Some("x".to_string()));
}

#[test]
fn synthesis_needs_no_validation() {
    let context = GenerationContext {
        decorated_type: "Db".to_string(),
        pool_type: "Pool".to_string(),
        db_name: "main".to_string(),
    };
    assert_eq!(synthesize(&context), DB_MAIN);
}

#[test]
fn messages_and_anchors() {
    assert_eq!(DeriveError::Shape.message(), "struct must have exactly one unnamed field");
    assert_eq!(DeriveError::Shape.message(), ONE_UNNAMED_FIELD);
    assert_eq!(DeriveError::Shape.anchor(), Anchor::FieldList);
    assert_eq!(
        DeriveError::MissingAttribute.message(),
        "missing `#[database(\"name\")]` attribute"
    );
    assert_eq!(DeriveError::MissingAttribute.message(), ONE_DATABASE_ATTR);
    assert_eq!(DeriveError::MissingAttribute.anchor(), Anchor::Declaration);
}
