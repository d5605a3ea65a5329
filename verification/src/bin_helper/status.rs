use vstd::prelude::*;
use vstd::string::{StrSliceExecFns, StringExecFns};
use crate::parser::case::Case;
use crate::parser::text::same_text;

verus! {

/// Maximum length of the case names.
pub const MAX_CASE_NAME_LEN: usize = 11;

/// Status of the command, that determines what to print to the terminal.
#[derive(Debug)]
pub enum Status {
    /// An error occurred.
    Error(String),
    /// Display the help message
    Help,
}

/// A status with its message as a sequence of characters.
pub enum StatusText {
    /// An error, with its message.
    Error(Seq<char>),
    /// The request for the help message.
    Help,
}

impl View for Status {
    type V = StatusText;

    open spec fn view(&self) -> StatusText {
        match self {
            Status::Error(message) => StatusText::Error(message@),
            Status::Help => StatusText::Help,
        }
    }
}

/// The escape codes for red, green, cyan, magenta and for the end of a
/// colour, in this order, or five empty texts where `ansi` is off.
pub open spec fn colours_text(ansi: bool) -> (Seq<char>, Seq<char>, Seq<char>, Seq<char>, Seq<char>) {
    if ansi {
        ("\x1b[31m"@, "\x1b[32m"@, "\x1b[33m"@, "\x1b[35m"@, "\x1b[0m"@)
    } else {
        (""@, ""@, ""@, ""@, ""@)
    }
}

/// `n` spaces.
pub open spec fn spaces(n: nat) -> Seq<char> {
    Seq::new(n, |i: int| ' ')
}

/// `name`, with spaces after it up to `width` characters where it is
/// shorter.
pub open spec fn padded(name: Seq<char>, width: nat) -> Seq<char> {
    if name.len() >= width {
        name
    } else {
        name + spaces((width - name.len()) as nat)
    }
}

/// The line that tells how to call the program named `arg0`.
pub open spec fn usage_text(arg0: Seq<char>, ansi: bool) -> Seq<char> {
    let (_, green, _, magenta, nil) = colours_text(ansi);
    magenta + "Usage: "@ + arg0 + " <"@ + green + "case"@ + magenta + "> [value] [--help]"@ + nil
}

/// The line of the help message for one case: its name, padded to the
/// length of the longest name, and its example.
pub open spec fn case_line(case: Case, ansi: bool) -> Seq<char> {
    let (_, green, _, _, nil) = colours_text(ansi);
    "  "@ + green + padded(case.name_text(), MAX_CASE_NAME_LEN as nat) + nil + "  "@
        + case.example_text() + "\n"@
}

/// The lines of the help message for the first `n` of `cases`.
pub open spec fn case_lines(cases: Seq<Case>, n: int, ansi: bool) -> Seq<char>
    decreases n,
{
    if n <= 0 {
        Seq::empty()
    } else {
        case_lines(cases, n - 1, ansi) + case_line(cases[n - 1], ansi)
    }
}

/// The help message of the program named `arg0`.
pub open spec fn help_text(arg0: Seq<char>, ansi: bool) -> Seq<char> {
    let (_, green, cyan, magenta, nil) = colours_text(ansi);
    usage_text(arg0, ansi) + "\n"@ + magenta
        + "Omit `value` to read from stdin (e.g. for pipes)"@ + nil + "\n\nPossible "@ + green
        + "case"@ + nil + " values:\n"@ + case_lines(Case::listed(), 8, ansi) + "\nExamples\n"@
        + cyan + "$ caseify Camel \"Hello World\""@ + nil + "\n# Output: helloWorld\n"@ + cyan
        + "$ echo \"hello World\" | caseify Constant"@ + nil + "\n# Output: HELLO_WORLD"@
}

/// The report of an error of the program named `arg0`: the message, then
/// how to call the program.
pub open spec fn error_text(message: Seq<char>, arg0: Seq<char>, ansi: bool) -> Seq<char> {
    let (red, _, _, _, nil) = colours_text(ansi);
    red + "Failed to run "@ + arg0 + ": "@ + message + nil + "\n\n"@ + usage_text(arg0, ansi)
}

/// What is shown for a status by the program named `arg0`.
pub open spec fn rendered(status: StatusText, arg0: Seq<char>, ansi: bool) -> Seq<char> {
    match status {
        StatusText::Error(message) => error_text(message, arg0, ansi),
        StatusText::Help => help_text(arg0, ansi),
    }
}

/// No case has a longer name than `MAX_CASE_NAME_LEN`, and one has a name
/// of that length.
pub proof fn lemma_max_case_name_len(case: Case)
    ensures
        case.name_text().len() <= MAX_CASE_NAME_LEN,
        Case::Capitalised.name_text().len() == MAX_CASE_NAME_LEN,
{
    reveal_strlit("Camel");
    reveal_strlit("Capitalised");
    reveal_strlit("Constant");
    reveal_strlit("Dot");
    reveal_strlit("Kebab");
    reveal_strlit("Pascal");
    reveal_strlit("Sentence");
    reveal_strlit("Snake");
}

/// Returns `true` iff a terminal of the kind `term`, if the kind is known
/// at all, supports ANSI escape codes: every kind does but the empty one
/// and `dumb`.
pub fn supports_ansi(term: Option<&str>) -> (ansi: bool)
    ensures
        ansi == (term matches Some(kind) && kind@.len() > 0 && kind@ != "dumb"@),
{
    match term {
        Some(kind) => !kind.is_empty() && !same_text(kind, "dumb"),
        None => false,
    }
}

/// Returns the ansi escape codes if they are supported.
pub fn get_colours(ansi: bool) -> (colours: (
    &'static str,
    &'static str,
    &'static str,
    &'static str,
    &'static str,
))
    ensures
        (colours.0@, colours.1@, colours.2@, colours.3@, colours.4@) == colours_text(ansi),
{
    if ansi {
        ("\x1b[31m", "\x1b[32m", "\x1b[33m", "\x1b[35m", "\x1b[0m")
    } else {
        ("", "", "", "", "")
    }
}

/// `name`, with spaces after it up to `width` characters where it is
/// shorter.
pub fn pad(name: &str, width: usize) -> (text: String)
    ensures
        text@ == padded(name@, width as nat),
{
    let mut text = String::from_str(name);
    let len = name.unicode_len();
    if len < width {
        let mut i: usize = len;
        while i < width
            invariant
                len == name@.len(),
                len <= i <= width,
                text@ == name@ + spaces((i - len) as nat),
            decreases width - i,
        {
            text.push(' ');
            i += 1;
            assert(spaces((i - len) as nat) == spaces((i - 1 - len) as nat).push(' '));
        }
    } else {
        assert(spaces(0) == Seq::<char>::empty());
    }
    text
}

/// The line that tells how to call the program named `arg0`.
pub fn usage(arg0: &str, ansi: bool) -> (text: String)
    ensures
        text@ == usage_text(arg0@, ansi),
{
    let (_, green, _, magenta, nil) = get_colours(ansi);
    let mut text = String::from_str(magenta);
    text.append("Usage: ");
    text.append(arg0);
    text.append(" <");
    text.append(green);
    text.append("case");
    text.append(magenta);
    text.append("> [value] [--help]");
    text.append(nil);
    text
}

/// The lines of the help message, one for each case.
pub fn case_list(ansi: bool) -> (text: String)
    ensures
        text@ == case_lines(Case::listed(), 8, ansi),
{
    let (_, green, _, _, nil) = get_colours(ansi);
    let cases = Case::all();
    let mut text = String::new();
    let mut i: usize = 0;
    while i < 8
        invariant
            i <= 8,
            cases@ == Case::listed(),
            (green@, nil@) == (colours_text(ansi).1, colours_text(ansi).4),
            text@ == case_lines(Case::listed(), i as int, ansi),
        decreases 8 - i,
    {
        let case = cases[i];
        let mut line = String::from_str("  ");
        line.append(green);
        line.append(pad(case.name(), MAX_CASE_NAME_LEN).as_str());
        line.append(nil);
        line.append("  ");
        line.append(case.example());
        line.append("\n");
        text.append(line.as_str());
        i += 1;
    }
    text
}

impl Status {
    /// What is shown for the status by the program named `arg0`, with
    /// colours where `ansi` is on: for an error its message and how to call
    /// the program, else the help message.
    pub fn to_string(&self, arg0: &str, ansi: bool) -> (text: String)
        ensures
            text@ == rendered(self@, arg0@, ansi),
    {
        let (red, green, cyan, magenta, nil) = get_colours(ansi);
        match self {
            Self::Error(err) => {
                let mut text = String::from_str(red);
                text.append("Failed to run ");
                text.append(arg0);
                text.append(": ");
                text.append(err.as_str());
                text.append(nil);
                text.append("\n\n");
                text.append(usage(arg0, ansi).as_str());
                text
            },
            Self::Help => {
                let mut text = usage(arg0, ansi);
                text.append("\n");
                text.append(magenta);
                text.append("Omit `value` to read from stdin (e.g. for pipes)");
                text.append(nil);
                text.append("\n\nPossible ");
                text.append(green);
                text.append("case");
                text.append(nil);
                text.append(" values:\n");
                text.append(case_list(ansi).as_str());
                text.append("\nExamples\n");
                text.append(cyan);
                text.append("$ caseify Camel \"Hello World\"");
                text.append(nil);
                text.append("\n# Output: helloWorld\n");
                text.append(cyan);
                text.append("$ echo \"hello World\" | caseify Constant");
                text.append(nil);
                text.append("\n# Output: HELLO_WORLD");
                text
            },
        }
    }
}

} // verus!
