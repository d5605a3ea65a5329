use caseify::cli::Cli;
use caseify::Case;

fn owned(args: &[&str]) -> Vec<String> {
    args.iter().map(|arg| (*arg).to_owned()).collect()
}

#[test]
fn simple_parse_takes_case_and_value() {
    let cli = Cli::parse(owned(&["Constant", "a value"])).unwrap();
    assert_eq!(cli.case, Case::Constant);
    assert_eq!(cli.value, Some("a value".to_owned()));
    let cli = Cli::parse(owned(&["Pascal"])).unwrap();
    assert_eq!(cli.case, Case::Pascal);
    assert_eq!(cli.value, None);
}

#[test]
fn simple_parse_ignores_further_arguments() {
    let cli = Cli::parse(owned(&["Snake", "--help", "more"])).unwrap();
    assert_eq!(cli.case, Case::Snake);
    assert_eq!(cli.value, Some("--help".to_owned()));
}

#[test]
fn simple_parse_reports_errors() {
    assert_eq!(Cli::parse(owned(&[])).unwrap_err(), "Missing `case` argument");
    assert_eq!(Cli::parse(owned(&["blob"])).unwrap_err(), "blob isn't a valid case");
    assert_eq!(Cli::parse(owned(&["--help"])).unwrap_err(), "--help isn't a valid case");
}
