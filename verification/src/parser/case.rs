use vstd::prelude::*;
use crate::parser::caseify::{
    converted, first_fold, folded, in_mapping, is_separated_words, is_written_by,
    lemma_already_in_case, lemma_empty_input, lemma_output_is_permitted,
    lemma_symbols_after_first, lemma_unchanged_where_as_written, Caseify, Emit, Fold, Policy,
};
use crate::parser::char_type::CharType;
use crate::parser::text::{is_alphanumeric_of, same_text};

verus! {

/// Supported cases
#[derive(Copy, Clone, Debug, PartialEq, Eq, Structural)]
#[non_exhaustive]
pub enum Case {
    /// `camelCase`
    Camel,
    /// `Capitalised Case`
    Capitalised,
    /// `CONSTANT_CASE`
    Constant,
    /// `dot.case`
    Dot,
    /// `kebab-case`
    Kebab,
    /// `PascalCase`
    Pascal,
    /// `Sentence case`
    Sentence,
    /// `snake_case`
    Snake,
}

impl Case {
    /// The character written between two words, if there is one.
    pub open spec fn separator(self) -> Option<char> {
        match self {
            Case::Camel | Case::Pascal => None,
            Case::Snake | Case::Constant => Some('_'),
            Case::Kebab => Some('-'),
            Case::Dot => Some('.'),
            Case::Capitalised | Case::Sentence => Some(' '),
        }
    }

    /// Whether the first character of the whole output is in uppercase.
    pub open spec fn is_first_capitalised(self) -> bool {
        match self {
            Case::Camel | Case::Snake | Case::Kebab | Case::Dot => false,
            Case::Pascal | Case::Constant | Case::Capitalised | Case::Sentence => true,
        }
    }

    /// The mapping of the first character of each word but the first.
    pub open spec fn word_begin_fold(self) -> Fold {
        match self {
            Case::Camel | Case::Pascal | Case::Constant | Case::Capitalised => Fold::Upper,
            Case::Snake | Case::Kebab | Case::Dot | Case::Sentence => Fold::Lower,
        }
    }

    /// The mapping of the characters inside a word.
    pub open spec fn normal_fold(self) -> Fold {
        match self {
            Case::Constant => Fold::Upper,
            _ => Fold::Lower,
        }
    }

    /// The rules that define the case.
    pub open spec fn policy(self) -> Policy {
        Policy {
            is_first_capitalised: self.is_first_capitalised(),
            on_word_begin: Emit { separator: self.separator(), fold: self.word_begin_fold() },
            on_normal: Emit { separator: None, fold: self.normal_fold() },
        }
    }

    /// The input `s` written in this case.
    pub open spec fn converted(self, s: Seq<char>) -> Seq<char> {
        converted(s, self.policy())
    }

    /// The name that selects the case.
    pub open spec fn name_text(self) -> Seq<char> {
        match self {
            Case::Camel => "Camel"@,
            Case::Capitalised => "Capitalised"@,
            Case::Constant => "Constant"@,
            Case::Dot => "Dot"@,
            Case::Kebab => "Kebab"@,
            Case::Pascal => "Pascal"@,
            Case::Sentence => "Sentence"@,
            Case::Snake => "Snake"@,
        }
    }

    /// The case written in its own convention, between backquotes.
    pub open spec fn example_text(self) -> Seq<char> {
        match self {
            Case::Camel => "`camelCase`"@,
            Case::Capitalised => "`Capitalised Case`"@,
            Case::Constant => "`CONSTANT_CASE`"@,
            Case::Dot => "`dot.case`"@,
            Case::Kebab => "`kebab-case`"@,
            Case::Pascal => "`PascalCase`"@,
            Case::Sentence => "`Sentence case`"@,
            Case::Snake => "`snake_case`"@,
        }
    }

    /// The supported cases, in the order of their names.
    pub open spec fn listed() -> Seq<Case> {
        seq![
            Case::Camel,
            Case::Capitalised,
            Case::Constant,
            Case::Dot,
            Case::Kebab,
            Case::Pascal,
            Case::Sentence,
            Case::Snake,
        ]
    }

    /// The case that `name` selects, if it is one of the eight names. The
    /// match is exact: `snake` and ` Snake` select nothing.
    pub open spec fn named(name: Seq<char>) -> Option<Case> {
        if name == "Camel"@ {
            Some(Case::Camel)
        } else if name == "Capitalised"@ {
            Some(Case::Capitalised)
        } else if name == "Constant"@ {
            Some(Case::Constant)
        } else if name == "Dot"@ {
            Some(Case::Dot)
        } else if name == "Kebab"@ {
            Some(Case::Kebab)
        } else if name == "Pascal"@ {
            Some(Case::Pascal)
        } else if name == "Sentence"@ {
            Some(Case::Sentence)
        } else if name == "Snake"@ {
            Some(Case::Snake)
        } else {
            None
        }
    }

    /// The name that selects the case.
    pub fn name(self) -> (name: &'static str)
        ensures
            name@ == self.name_text(),
    {
        match self {
            Self::Camel => "Camel",
            Self::Capitalised => "Capitalised",
            Self::Constant => "Constant",
            Self::Dot => "Dot",
            Self::Kebab => "Kebab",
            Self::Pascal => "Pascal",
            Self::Sentence => "Sentence",
            Self::Snake => "Snake",
        }
    }

    /// The case written in its own convention, between backquotes.
    pub fn example(self) -> (example: &'static str)
        ensures
            example@ == self.example_text(),
    {
        match self {
            Self::Camel => "`camelCase`",
            Self::Capitalised => "`Capitalised Case`",
            Self::Constant => "`CONSTANT_CASE`",
            Self::Dot => "`dot.case`",
            Self::Kebab => "`kebab-case`",
            Self::Pascal => "`PascalCase`",
            Self::Sentence => "`Sentence case`",
            Self::Snake => "`snake_case`",
        }
    }

    /// The supported cases, in the order of their names.
    pub fn all() -> (cases: [Case; 8])
        ensures
            cases@ == Self::listed(),
    {
        let cases = [
            Self::Camel,
            Self::Capitalised,
            Self::Constant,
            Self::Dot,
            Self::Kebab,
            Self::Pascal,
            Self::Sentence,
            Self::Snake,
        ];
        assert(cases@ =~= Self::listed());
        cases
    }

    /// Creates a [`Case`] type by parsing from a string.
    pub fn maybe_from(case: &str) -> (found: Option<Self>)
        ensures
            found == Self::named(case@),
    {
        if same_text(case, "Camel") {
            Some(Self::Camel)
        } else if same_text(case, "Capitalised") {
            Some(Self::Capitalised)
        } else if same_text(case, "Constant") {
            Some(Self::Constant)
        } else if same_text(case, "Dot") {
            Some(Self::Dot)
        } else if same_text(case, "Kebab") {
            Some(Self::Kebab)
        } else if same_text(case, "Pascal") {
            Some(Self::Pascal)
        } else if same_text(case, "Sentence") {
            Some(Self::Sentence)
        } else if same_text(case, "Snake") {
            Some(Self::Snake)
        } else {
            None
        }
    }

    /// Each case is selected by its own name, and by no other case's name.
    pub proof fn lemma_named_by_its_name(self)
        ensures
            Self::named(self.name_text()) == Some(self),
    {
        reveal_strlit("Camel");
        reveal_strlit("Capitalised");
        reveal_strlit("Constant");
        reveal_strlit("Dot");
        reveal_strlit("Kebab");
        reveal_strlit("Pascal");
        reveal_strlit("Sentence");
        reveal_strlit("Snake");
        assert("Camel"@.len() == 5 && "Capitalised"@.len() == 11 && "Constant"@.len() == 8 && "Dot"@.len() == 3);
        assert("Kebab"@.len() == 5 && "Pascal"@.len() == 6 && "Sentence"@.len() == 8 && "Snake"@.len() == 5);
        assert("Camel"@[0] == 'C' && "Kebab"@[0] == 'K' && "Snake"@[0] == 'S');
        assert("Constant"@[0] == 'C' && "Sentence"@[0] == 'S');
    }

    /// Whether the case ever writes a character in the mapping `fold`.
    pub open spec fn writes(self, fold: Fold) -> bool {
        first_fold(self.is_first_capitalised()) == fold || self.word_begin_fold() == fold
            || self.normal_fold() == fold
    }

    /// Whether `ch` may stand in the output for the input `s`: it is the
    /// separator of the case, or it belongs to a mapping that the case
    /// writes, of the first character of `s` or of an alphanumeric one.
    pub open spec fn permits(self, s: Seq<char>, ch: char) -> bool {
        ||| self.separator() == Some(ch)
        ||| exists|i: int, fold: Fold|
            0 <= i < s.len() && (i == 0 || is_alphanumeric_of(s[i])) && self.writes(fold)
                && #[trigger] folded(fold, s[i]).contains(ch)
    }

    /// Every character of the output is permitted by the case. So the
    /// output for `snake_case`, which writes no uppercase mapping, holds
    /// only `_` and characters of lowercase mappings; symbols of the input
    /// other than a leading one never reach the output.
    pub proof fn lemma_output_is_permitted(self, s: Seq<char>, k: int)
        requires
            0 <= k < self.converted(s).len(),
        ensures
            self.permits(s, self.converted(s)[k]),
    {
        let ch = self.converted(s)[k];
        let policy = self.policy();
        lemma_output_is_permitted(s, policy, k);
        if self.separator() != Some(ch) {
            if s.len() > 0 && folded(first_fold(policy.is_first_capitalised), s[0]).contains(ch) {
                assert(self.writes(first_fold(policy.is_first_capitalised)));
            } else {
                let i = choose|i: int|
                    0 < i < s.len() && is_alphanumeric_of(s[i]) && #[trigger] in_mapping(
                        policy,
                        s[i],
                        ch,
                    );
                if folded(policy.on_word_begin.fold, s[i]).contains(ch) {
                    assert(self.writes(policy.on_word_begin.fold));
                } else {
                    assert(folded(policy.on_normal.fold, s[i]).contains(ch));
                    assert(self.writes(policy.on_normal.fold));
                }
            }
        }
    }

    /// An empty input gives an empty output in every case.
    pub proof fn lemma_empty_input(self)
        ensures
            self.converted(Seq::<char>::empty()) == Seq::<char>::empty(),
    {
        lemma_empty_input(self.policy());
    }

    /// Of an input in which only symbols follow the first character, the
    /// output in every case is the first character alone, in uppercase or
    /// lowercase as the case writes its first character.
    pub proof fn lemma_symbols_after_first(self, s: Seq<char>)
        requires
            s.len() > 0,
            forall|i: int| 0 < i < s.len() ==> !is_alphanumeric_of(#[trigger] s[i]),
        ensures
            self.converted(s) == folded(first_fold(self.is_first_capitalised()), s[0]),
    {
        lemma_symbols_after_first(s, self.policy());
    }

    /// Converting an input that already stands in the case gives the same
    /// input again: where every character stands as the case writes it,
    /// the output is the input.
    pub proof fn lemma_unchanged_where_as_written(self, s: Seq<char>)
        requires
            is_written_by(s, self.policy()),
        ensures
            self.converted(s) == s,
    {
        lemma_unchanged_where_as_written(s, self.policy());
    }

    /// Converting to `snake_case`, `kebab-case`, `dot.case` or
    /// `CONSTANT_CASE` an input that already stands in that case leaves it
    /// as it is: an input of words with one separator of the case between
    /// two of them, the words made of characters of one category that the
    /// mapping of the case does not change.
    pub proof fn lemma_already_in_case(self, s: Seq<char>, kind: CharType)
        requires
            self == Case::Snake || self == Case::Kebab || self == Case::Dot || self
                == Case::Constant,
            is_separated_words(s, self.separator()->0, self.normal_fold(), kind),
        ensures
            self.converted(s) == s,
    {
        lemma_already_in_case(s, self.policy(), self.separator()->0, kind);
    }

    /// Transforms the input in the given case and returns it.
    #[must_use]
    pub fn caseify(self, input: &str) -> (output: String)
        ensures
            output@ == self.converted(input@),
    {
        match self {
            Self::Camel => input.to_camel_case(),
            Self::Capitalised => input.to_capitalised_case(),
            Self::Constant => input.to_constant_case(),
            Self::Dot => input.to_dot_case(),
            Self::Kebab => input.to_kebab_case(),
            Self::Pascal => input.to_pascal_case(),
            Self::Sentence => input.to_sentence_case(),
            Self::Snake => input.to_snake_case(),
        }
    }
}

} // verus!
