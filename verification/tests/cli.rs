use caseify::cli::Cli;

fn test(args: &[&str], input: &str, output: &str) {
    let owned_args: Vec<String> = args.iter().map(|arg| (*arg).to_owned()).collect();
    let cli = Cli::parse(owned_args).unwrap();
    assert_eq!(cli.case.caseify(input), output);
}

#[test]
fn camel() {
    test(
        &["Camel", "this_is_snake_case"],
        "this_is_snake_case",
        "thisIsSnakeCase",
    );
}

#[test]
fn pascal() {
    test(
        &["Pascal", "this_is_snake_case"],
        "this_is_snake_case",
        "ThisIsSnakeCase",
    );
}

#[test]
fn snake() {
    test(
        &["Snake", "ThisIsCamelCase"],
        "ThisIsCamelCase",
        "this_is_camel_case",
    );
}

#[test]
fn kebab() {
    test(
        &["Kebab", "This Is Capitalised Case"],
        "This Is Capitalised Case",
        "this-is-capitalised-case",
    );
}

#[test]
fn constant() {
    test(
        &["Constant", "this is sentence case"],
        "this is sentence case",
        "THIS_IS_SENTENCE_CASE",
    );
}

#[test]
fn capitalised() {
    test(
        &["Capitalised", "this.is.dot.case"],
        "this.is.dot.case",
        "This Is Dot Case",
    );
}

#[test]
fn sentence() {
    test(
        &["Sentence", "THIS_IS_CONSTANT_CASE"],
        "THIS_IS_CONSTANT_CASE",
        "This is constant case",
    );
}

#[test]
fn dot() {
    test(
        &["Dot", "This Is Kebab Case"],
        "This Is Capitalised Case",
        "this.is.capitalised.case",
    );
}
