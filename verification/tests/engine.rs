use caseify::parser::caseify::{
    decide, handle_func, push_all, push_lower, push_upper, to_new_case, Action, Emit, Fold,
};
use caseify::CharType::{CapitalOrNumber, Lowercase, Start, Symbol};
use caseify::{Case, Caseify, CharType};

const ALL: [Case; 8] = [
    Case::Camel,
    Case::Capitalised,
    Case::Constant,
    Case::Dot,
    Case::Kebab,
    Case::Pascal,
    Case::Sentence,
    Case::Snake,
];

#[test]
fn classifies_characters() {
    assert_eq!(CharType::from('_'), CharType::Symbol);
    assert_eq!(CharType::from(' '), CharType::Symbol);
    assert_eq!(CharType::from('a'), CharType::Lowercase);
    assert_eq!(CharType::from('ß'), CharType::Lowercase);
    assert_eq!(CharType::from('A'), CharType::CapitalOrNumber);
    assert_eq!(CharType::from('7'), CharType::CapitalOrNumber);
}

#[test]
fn capital_run_stays_joined() {
    assert_eq!(Case::Snake.caseify("ABCWord"), "abc_word");
    assert_eq!("ABCWord".to_snake_case(), "abc_word");
}

#[test]
fn snake_from_any_convention() {
    for input in ["fooBar", "FooBar", "foo_bar", "foo-bar", "Foo Bar", "FOO_BAR"] {
        assert_eq!(Case::Snake.caseify(input), "foo_bar");
    }
}

#[test]
fn already_in_the_case() {
    assert_eq!("already_snake".to_snake_case(), "already_snake");
    assert_eq!("alreadyCamel".to_camel_case(), "alreadyCamel");
    assert_eq!("AlreadyPascal".to_pascal_case(), "AlreadyPascal");
    assert_eq!("already-kebab".to_kebab_case(), "already-kebab");
    assert_eq!("already.dot".to_dot_case(), "already.dot");
    assert_eq!("ALREADY_CONSTANT".to_constant_case(), "ALREADY_CONSTANT");
    assert_eq!("Already Capitalised".to_capitalised_case(), "Already Capitalised");
    assert_eq!("Already sentence".to_sentence_case(), "Already sentence");
}

#[test]
fn empty_input_gives_empty_output() {
    for case in ALL {
        assert_eq!(case.caseify(""), "");
    }
}

#[test]
fn symbols_after_the_first_character_vanish() {
    for case in ALL {
        assert_eq!(case.caseify("-_. !"), "-");
        assert_eq!(case.caseify("!"), "!");
    }
    assert_eq!(Case::Snake.caseify("a--"), "a");
    assert_eq!(Case::Constant.caseify("a--"), "A");
}

#[test]
fn leading_symbol_is_kept() {
    assert_eq!(Case::Snake.caseify("_foo"), "__foo");
    assert_eq!(Case::Camel.caseify("-fooBar"), "-FooBar");
}

#[test]
fn runs_of_symbols_make_one_boundary() {
    assert_eq!(Case::Kebab.caseify("foo  __  bar"), "foo-bar");
    assert_eq!(Case::Camel.caseify("Hello, world!"), "helloWorld");
}

#[test]
fn digits_count_as_capitals() {
    assert_eq!(Case::Snake.caseify("foo1bar"), "foo_1bar");
    assert_eq!(Case::Snake.caseify("version2Beta"), "version_2_beta");
    assert_eq!(Case::Camel.caseify("a_b_c"), "aBC");
    assert_eq!(Case::Camel.caseify("aBC"), "aBc");
}

#[test]
fn single_character() {
    assert_eq!(Case::Pascal.caseify("a"), "A");
    assert_eq!(Case::Camel.caseify("A"), "a");
}

#[test]
fn full_case_mappings_may_grow() {
    assert_eq!(Case::Constant.caseify("straße"), "STRASSE");
    assert_eq!(Case::Pascal.caseify("ßa"), "SSa");
    assert_eq!(Case::Snake.caseify("İa"), "i\u{307}a");
}

#[test]
fn every_case_on_one_input() {
    let input = "someHTTPRequest id";
    assert_eq!(Case::Camel.caseify(input), "someHttpRequestId");
    assert_eq!(Case::Pascal.caseify(input), "SomeHttpRequestId");
    assert_eq!(Case::Snake.caseify(input), "some_http_request_id");
    assert_eq!(Case::Kebab.caseify(input), "some-http-request-id");
    assert_eq!(Case::Dot.caseify(input), "some.http.request.id");
    assert_eq!(Case::Constant.caseify(input), "SOME_HTTP_REQUEST_ID");
    assert_eq!(Case::Capitalised.caseify(input), "Some Http Request Id");
    assert_eq!(Case::Sentence.caseify(input), "Some http request id");
}

#[test]
fn trait_methods_agree_with_the_enum() {
    let input = "Mixed_input-Of manyKINDSHere";
    assert_eq!(input.to_camel_case(), Case::Camel.caseify(input));
    assert_eq!(input.to_capitalised_case(), Case::Capitalised.caseify(input));
    assert_eq!(input.to_constant_case(), Case::Constant.caseify(input));
    assert_eq!(input.to_dot_case(), Case::Dot.caseify(input));
    assert_eq!(input.to_kebab_case(), Case::Kebab.caseify(input));
    assert_eq!(input.to_pascal_case(), Case::Pascal.caseify(input));
    assert_eq!(input.to_sentence_case(), Case::Sentence.caseify(input));
    assert_eq!(input.to_snake_case(), Case::Snake.caseify(input));
}

#[test]
fn output_holds_only_what_the_case_permits() {
    let input = "  Some__mixed-INPUTWith 9 lives.and more ";
    let snake = Case::Snake.caseify(input);
    assert_eq!(snake, " _some_mixed_input_with_9_lives_and_more");
    assert!(snake.chars().skip(1).all(|ch| ch == '_' || ch.is_lowercase() || ch.is_numeric()));
    let constant = Case::Constant.caseify(input);
    assert_eq!(constant, " _SOME_MIXED_INPUT_WITH_9_LIVES_AND_MORE");
    assert!(constant.chars().skip(1).all(|ch| ch == '_' || ch.is_uppercase() || ch.is_numeric()));
}

#[test]
fn pushes_full_mappings() {
    let mut output = String::from("x");
    push_lower(&mut output, 'A');
    push_upper(&mut output, 'b');
    push_upper(&mut output, 'ß');
    push_lower(&mut output, '-');
    assert_eq!(output, "xaBSS-");
}

#[test]
fn one_step_of_the_scan() {
    let begin = Emit { separator: Some('_'), fold: Fold::Upper };
    let normal = Emit { separator: None, fold: Fold::Lower };
    let mut output = String::new();
    assert_eq!(
        handle_func(&mut output, &CharType::Start, begin, normal, false, 'A', true),
        CharType::CapitalOrNumber
    );
    assert_eq!(output, "a");
    assert_eq!(
        handle_func(&mut output, &CharType::CapitalOrNumber, begin, normal, false, 'B', false),
        CharType::CapitalOrNumber
    );
    assert_eq!(output, "ab");
    assert_eq!(
        handle_func(&mut output, &CharType::CapitalOrNumber, begin, normal, false, 'C', true),
        CharType::CapitalOrNumber
    );
    assert_eq!(output, "ab_C");
    assert_eq!(
        handle_func(&mut output, &CharType::CapitalOrNumber, begin, normal, false, 'd', false),
        CharType::Lowercase
    );
    assert_eq!(output, "ab_Cd");
    assert_eq!(
        handle_func(&mut output, &CharType::Lowercase, begin, normal, false, '.', true),
        CharType::Symbol
    );
    assert_eq!(output, "ab_Cd");
    assert_eq!(
        handle_func(&mut output, &CharType::Symbol, begin, normal, false, 'e', false),
        CharType::Lowercase
    );
    assert_eq!(output, "ab_Cd_E");
    assert_eq!(
        handle_func(&mut output, &CharType::Lowercase, begin, normal, false, 'F', false),
        CharType::CapitalOrNumber
    );
    assert_eq!(output, "ab_Cd_E_F");
    assert_eq!(
        handle_func(&mut output, &CharType::Lowercase, begin, normal, false, 'g', false),
        CharType::Lowercase
    );
    assert_eq!(output, "ab_Cd_E_Fg");
}

#[test]
fn a_policy_of_one_s_own() {
    let begin = Emit { separator: Some('/'), fold: Fold::Upper };
    let normal = Emit { separator: None, fold: Fold::Upper };
    assert_eq!(to_new_case("some path here", false, begin, normal), "sOME/PATH/HERE");
}

#[test]
fn names_select_cases() {
    for case in ALL {
        assert_eq!(Case::maybe_from(case.name()), Some(case));
    }
    assert_eq!(Case::maybe_from("snake"), None);
    assert_eq!(Case::maybe_from(" Snake"), None);
    assert_eq!(Case::maybe_from(""), None);
    assert_eq!(Case::maybe_from("--help"), None);
}

#[test]
fn category_from_the_two_properties() {
    assert_eq!(CharType::of(false, false), CharType::Symbol);
    assert_eq!(CharType::of(false, true), CharType::Symbol);
    assert_eq!(CharType::of(true, true), CharType::Lowercase);
    assert_eq!(CharType::of(true, false), CharType::CapitalOrNumber);
}

#[test]
fn decisions_of_the_scan() {
    for new in [CapitalOrNumber, Lowercase, Symbol, Start] {
        for next in [false, true] {
            assert_eq!(decide(&Start, &new, next), Action::First);
        }
    }
    for before in [CapitalOrNumber, Lowercase, Symbol] {
        for next in [false, true] {
            assert_eq!(decide(&before, &Symbol, next), Action::Skip);
        }
    }
    for next in [false, true] {
        assert_eq!(decide(&Symbol, &Lowercase, next), Action::WordBegin);
        assert_eq!(decide(&Symbol, &CapitalOrNumber, next), Action::WordBegin);
        assert_eq!(decide(&Lowercase, &CapitalOrNumber, next), Action::WordBegin);
        assert_eq!(decide(&Lowercase, &Lowercase, next), Action::Normal);
        assert_eq!(decide(&CapitalOrNumber, &Lowercase, next), Action::Normal);
    }
    assert_eq!(decide(&CapitalOrNumber, &CapitalOrNumber, true), Action::WordBegin);
    assert_eq!(decide(&CapitalOrNumber, &CapitalOrNumber, false), Action::Normal);
}

#[test]
fn pushes_characters_in_order() {
    let mut output = String::from("ab");
    push_all(&mut output, &vec!['c', 'd', 'e']);
    push_all(&mut output, &vec![]);
    assert_eq!(output, "abcde");
}
