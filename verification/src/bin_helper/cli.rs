use vstd::prelude::*;
use crate::bin_helper::status::{rendered, Status, StatusText};
use crate::cli::{invalid_case, invalid_case_text, missing_case_text, texts, value_in, value_of};
use crate::parser::case::Case;
use crate::parser::text::same_text;

verus! {

/// Options passed through the command line
#[derive(Debug)]
pub struct Cli {
    /// Case to convert to
    pub case: Case,
    /// If no value is provided, reads from stdin (e.g. for pipes).
    pub value: Option<String>,
}

impl View for Cli {
    type V = (Case, Option<Seq<char>>);

    open spec fn view(&self) -> (Case, Option<Seq<char>>) {
        (
            self.case,
            match self.value {
                Some(value) => Some(value@),
                None => None,
            },
        )
    }
}

/// The argument that asks for the help message.
pub open spec fn help_flag() -> Seq<char> {
    "--help"@
}

/// The message for a command line with more than two arguments.
pub open spec fn too_many_text() -> Seq<char> {
    "Too many arguments"@
}

/// What the first argument means: the case it selects, the request for
/// help, or the error that says why it is neither.
pub open spec fn parsed_case(first: Option<Seq<char>>) -> Result<Case, StatusText> {
    match first {
        None => Err(StatusText::Error(missing_case_text())),
        Some(name) => if name == help_flag() {
            Err(StatusText::Help)
        } else {
            match Case::named(name) {
                None => Err(StatusText::Error(invalid_case_text(name))),
                Some(case) => Ok(case),
            }
        },
    }
}

/// The first argument, if there is one.
pub open spec fn first_of(args: Seq<Seq<char>>) -> Option<Seq<char>> {
    if args.len() > 0 {
        Some(args[0])
    } else {
        None
    }
}

/// What the arguments mean. The first one decides first; then a second one
/// that asks for help does; then a third one, whatever it is, is one too
/// many; else the case stands with the second argument as its value.
pub open spec fn parsed(args: Seq<Seq<char>>) -> Result<(Case, Option<Seq<char>>), StatusText> {
    match parsed_case(first_of(args)) {
        Err(status) => Err(status),
        Ok(case) => if value_of(args) == Some(help_flag()) {
            Err(StatusText::Help)
        } else if args.len() > 2 {
            Err(StatusText::Error(too_many_text()))
        } else {
            Ok((case, value_of(args)))
        },
    }
}

/// What a whole command line means, the name of the program first: what
/// the arguments after the name mean, with the text shown to the user in
/// place of a status.
pub open spec fn parsed_line(line: Seq<Seq<char>>, ansi: bool) -> Result<
    (Case, Option<Seq<char>>),
    Seq<char>,
> {
    match parsed(line.skip(1)) {
        Ok(cli) => Ok(cli),
        Err(status) => Err(rendered(status, line[0], ansi)),
    }
}

/// Parses a whole command line, the name of the program first, into the
/// options to run with, or into the text to show in place of a run, with
/// colours where `ansi` is on.
pub fn parse_line(line: Vec<String>, ansi: bool) -> (outcome: Result<Cli, String>)
    requires
        line.len() > 0,
    ensures
        parsed_line(texts(line@), ansi) == match outcome {
            Ok(cli) => Ok(cli@),
            Err(text) => Err(text@),
        },
{
    let mut args = line;
    let program_name = args.remove(0);
    assert(texts(args@) == texts(line@).skip(1));
    match Cli::parse(args) {
        Ok(cli) => Ok(cli),
        Err(status) => Err(status.to_string(program_name.as_str(), ansi)),
    }
}

/// The first argument, if there is one.
pub fn first_in(args: &Vec<String>) -> (first: Option<String>)
    ensures
        first matches Some(text) ==> first_of(texts(args@)) == Some(text@),
        first is None ==> first_of(texts(args@)) is None,
{
    if args.len() > 0 {
        Some(args[0].clone())
    } else {
        None
    }
}

impl Cli {
    /// Parses the arguments into a [`Cli`] by checking their validity.
    pub fn parse(args: Vec<String>) -> (outcome: Result<Self, Status>)
        ensures
            parsed(texts(args@)) == match outcome {
                Ok(cli) => Ok(cli@),
                Err(status) => Err(status@),
            },
    {
        let case = match Self::parse_case(first_in(&args)) {
            Ok(case) => case,
            Err(status) => {
                return Err(status);
            },
        };
        let value = value_in(&args);
        if let Some(text) = &value {
            if same_text(text.as_str(), "--help") {
                return Err(Status::Help);
            }
        }
        if args.len() > 2 {
            return Err(Status::Error("Too many arguments".to_owned()));
        }
        Ok(Self { case, value })
    }

    /// Parses the first argument to check if it is a valid case, an option or erroneous.
    pub fn parse_case(first: Option<String>) -> (outcome: Result<Case, Status>)
        ensures
            parsed_case(
                match first {
                    Some(name) => Some(name@),
                    None => None,
                },
            ) == match outcome {
                Ok(case) => Ok(case),
                Err(status) => Err(status@),
            },
    {
        match first {
            None => Err(Status::Error("Missing `case` argument".to_owned())),
            Some(arg) => {
                if same_text(arg.as_str(), "--help") {
                    Err(Status::Help)
                } else {
                    match Case::maybe_from(arg.as_str()) {
                        None => Err(Status::Error(invalid_case(&arg))),
                        Some(case) => Ok(case),
                    }
                }
            },
        }
    }
}

} // verus!
