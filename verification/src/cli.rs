use vstd::prelude::*;
use vstd::string::StringExecFns;
use crate::parser::case::Case;

verus! {

/// Options passed through the command line
#[derive(Debug)]
pub struct Cli {
    /// Case to convert to
    pub case: Case,
    /// If no value is provided, reads from stdin (e.g. for pipes).
    pub value: Option<String>,
}

impl View for Cli {
    type V = (Case, Option<Seq<char>>);

    open spec fn view(&self) -> (Case, Option<Seq<char>>) {
        (
            self.case,
            match self.value {
                Some(value) => Some(value@),
                None => None,
            },
        )
    }
}

/// The arguments as sequences of characters.
pub open spec fn texts(args: Seq<String>) -> Seq<Seq<char>> {
    Seq::new(args.len(), |i: int| args[i]@)
}

/// The second argument, if there is one.
pub open spec fn value_of(args: Seq<Seq<char>>) -> Option<Seq<char>> {
    if args.len() > 1 {
        Some(args[1])
    } else {
        None
    }
}

/// The message for a command line without arguments.
pub open spec fn missing_case_text() -> Seq<char> {
    "Missing `case` argument"@
}

/// The message for a first argument that selects no case.
pub open spec fn invalid_case_text(name: Seq<char>) -> Seq<char> {
    name + " isn't a valid case"@
}

/// What the arguments mean: the case that the first one selects, with the
/// second one as the value if there is one, or the message that says why
/// they select none. Arguments past the second are ignored.
pub open spec fn parsed(args: Seq<Seq<char>>) -> Result<(Case, Option<Seq<char>>), Seq<char>> {
    if args.len() == 0 {
        Err(missing_case_text())
    } else {
        match Case::named(args[0]) {
            None => Err(invalid_case_text(args[0])),
            Some(case) => Ok((case, value_of(args))),
        }
    }
}

/// The message for a first argument that selects no case.
pub fn invalid_case(name: &String) -> (message: String)
    ensures
        message@ == invalid_case_text(name@),
{
    let mut message = name.clone();
    message.append(" isn't a valid case");
    message
}

/// The second argument, if there is one.
pub fn value_in(args: &Vec<String>) -> (value: Option<String>)
    ensures
        value matches Some(text) ==> value_of(texts(args@)) == Some(text@),
        value is None ==> value_of(texts(args@)) is None,
{
    if args.len() > 1 {
        Some(args[1].clone())
    } else {
        None
    }
}

impl Cli {
    /// Parses the arguments into a [`Cli`] by checking their validity.
    pub fn parse(args: Vec<String>) -> (outcome: Result<Self, String>)
        ensures
            parsed(texts(args@)) == match outcome {
                Ok(cli) => Ok(cli@),
                Err(message) => Err(message@),
            },
    {
        if args.len() == 0 {
            return Err("Missing `case` argument".to_owned());
        }
        match Case::maybe_from(args[0].as_str()) {
            None => Err(invalid_case(&args[0])),
            Some(case) => Ok(Self { case, value: value_in(&args) }),
        }
    }
}

} // verus!
