use pyrefly_types::data::{Type, TypeLevelDslCall};
use pyrefly_types::dsl::{ShapeError, ShapeTable};
use pyrefly_types::names::Name;
use pyrefly_types::styles::LitStyle;

fn call(function: &'static str, args: Vec<Type>) -> TypeLevelDslCall {
    TypeLevelDslCall {
        function: Name::new_static(function),
        args,
        result_schema: Type::any_implicit(),
    }
}

fn apply(function: &'static str, args: Vec<Type>) -> Type {
    Type::TypeLevelDslCall(Box::new(call(function, args)))
}

fn string() -> Type {
    Type::LiteralString(LitStyle::Implicit)
}

/// Knows `one()`, `two(one())` once `one()` is known, and nothing else.
fn table() -> ShapeTable {
    ShapeTable {
        entries: vec![
            (call("one", vec![]), Type::NoneType),
            (call("two", vec![Type::NoneType]), string()),
        ],
    }
}

fn messages(errors: Vec<ShapeError>) -> Vec<String> {
    errors.into_iter().map(|e| e.message.as_str().to_owned()).collect()
}

#[test]
fn applications_are_forced_from_the_inside_out() {
    let mut t = Type::type_of(apply("two", vec![apply("one", vec![])]));

    let errors = t.finalize_type_level_dsl_at_boundary(&table());

    assert_eq!(t, Type::type_of(string()));
    assert_eq!(messages(errors), Vec::<String>::new());
}

#[test]
fn an_invalid_application_becomes_its_result_schema() {
    let mut t = apply("two", vec![apply("bad", vec![]), apply("worse", vec![])]);

    let errors = t.finalize_type_level_dsl_at_boundary(&table());

    assert_eq!(t, Type::any_implicit());
    assert_eq!(messages(errors), vec!["bad"]);
}

#[test]
fn each_outermost_application_gives_one_error() {
    let mut t = Type::union(vec![
        apply("bad", vec![]),
        apply("one", vec![]),
        apply("two", vec![Type::type_of(apply("worse", vec![]))]),
    ]);

    let errors = t.finalize_type_level_dsl_at_boundary(&table());

    assert_eq!(
        t,
        Type::union(vec![Type::any_implicit(), Type::NoneType, Type::any_implicit()]),
    );
    assert_eq!(messages(errors), vec!["bad", "worse"]);
}

#[test]
fn applications_inside_callables_wait() {
    let mut t = Type::union(vec![
        Type::callable_ellipsis(apply("bad", vec![])),
        apply("two", vec![Type::callable_ellipsis(apply("one", vec![]))]),
    ]);

    let errors = t.finalize_type_level_dsl_at_boundary(&table());

    assert_eq!(
        t,
        Type::union(vec![
            Type::callable_ellipsis(apply("bad", vec![])),
            Type::any_implicit(),
        ]),
    );
    assert_eq!(messages(errors), vec!["two"]);
}

#[test]
fn types_without_applications_are_left_alone() {
    let mut t = Type::union(vec![string(), Type::callable_ellipsis(apply("bad", vec![]))]);
    let before = t.clone();

    let errors = t.finalize_type_level_dsl_at_boundary(&table());

    assert_eq!(t, before);
    assert_eq!(messages(errors), Vec::<String>::new());
    assert_eq!(call("one", vec![]).fallback(), Type::any_implicit());
}
