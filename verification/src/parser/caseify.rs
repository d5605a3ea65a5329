use vstd::prelude::*;
use vstd::pervasive::unreached;
use vstd::string::group_string_axioms;
use crate::parser::case::Case;
use crate::parser::char_type::{classify, CharType};
use crate::parser::text::{
    is_alphanumeric_of, is_lowercase_of, lowercase, lowercase_of, uppercase, uppercase_of,
};

verus! {

/// Which of the two full case mappings a character is written in.
#[derive(Clone, Copy, Debug, PartialEq, Eq, Structural)]
pub enum Fold {
    /// The full uppercase mapping.
    Upper,
    /// The full lowercase mapping.
    Lower,
}

/// How one character is written to the output: after an optional separator,
/// in one of the two case mappings.
#[derive(Clone, Copy, Debug)]
pub struct Emit {
    /// Written before the character, if any.
    pub separator: Option<char>,
    /// The mapping the character is written in.
    pub fold: Fold,
}

/// What defines a target convention: the mapping of the very first
/// character, the rule for a character that begins a word, and the rule for
/// every other character of a word.
#[derive(Clone, Copy, Debug)]
pub struct Policy {
    /// Whether the first character of the input is written in uppercase.
    pub is_first_capitalised: bool,
    /// The rule for the first character of each word but the first.
    pub on_word_begin: Emit,
    /// The rule for the characters inside a word.
    pub on_normal: Emit,
}

/// The characters that `c` becomes under `fold`.
pub open spec fn folded(fold: Fold, c: char) -> Seq<char> {
    match fold {
        Fold::Upper => uppercase_of(c),
        Fold::Lower => lowercase_of(c),
    }
}

/// The characters that `rule` writes for `c`.
pub open spec fn emitted(rule: Emit, c: char) -> Seq<char> {
    match rule.separator {
        Some(separator) => seq![separator] + folded(rule.fold, c),
        None => folded(rule.fold, c),
    }
}

/// The mapping of the first character of the input.
pub open spec fn first_fold(is_first_capitalised: bool) -> Fold {
    if is_first_capitalised {
        Fold::Upper
    } else {
        Fold::Lower
    }
}

/// Whether a character of category `new`, met after one of category `before`,
/// begins a word: after a symbol, as a capital after a lowercase letter, or
/// as the last capital of a run, the one that a lowercase letter follows.
pub open spec fn begins_word(before: CharType, new: CharType, next_is_lowercase: bool) -> bool {
    new != CharType::Symbol && (before == CharType::Symbol || (before == CharType::Lowercase
        && new == CharType::CapitalOrNumber) || (before == CharType::CapitalOrNumber && new
        == CharType::CapitalOrNumber && next_is_lowercase))
}

/// What the scan does with a character.
#[derive(Clone, Copy, Debug, PartialEq, Eq, Structural)]
pub enum Action {
    /// It is the first character of the input: it is written in the
    /// mapping of the first character, whatever its category.
    First,
    /// It is a symbol: nothing is written.
    Skip,
    /// It begins a word: it is written by the rule for word beginnings.
    WordBegin,
    /// It stands inside a word: it is written by the rule for normal
    /// characters.
    Normal,
}

/// What the scan does with a character of category `new`, met after one of
/// category `before` (`CharType::Start` if there was none) and followed by
/// one that is lowercase or not.
pub open spec fn action_of(before: CharType, new: CharType, next_is_lowercase: bool) -> Action {
    if before == CharType::Start {
        Action::First
    } else if new == CharType::Symbol {
        Action::Skip
    } else if begins_word(before, new, next_is_lowercase) {
        Action::WordBegin
    } else {
        Action::Normal
    }
}

/// What `policy` writes for the character `c` on `action`.
pub open spec fn written(action: Action, c: char, policy: Policy) -> Seq<char> {
    match action {
        Action::First => folded(first_fold(policy.is_first_capitalised), c),
        Action::Skip => Seq::empty(),
        Action::WordBegin => emitted(policy.on_word_begin, c),
        Action::Normal => emitted(policy.on_normal, c),
    }
}

/// What one step of the scan writes: for the character `prev`, met after a
/// character of category `before` (`CharType::Start` if there was none) and
/// followed by one that is lowercase or not.
pub open spec fn step_text(
    before: CharType,
    prev: char,
    next_is_lowercase: bool,
    policy: Policy,
) -> Seq<char> {
    written(action_of(before, classify(prev), next_is_lowercase), prev, policy)
}

/// The category of the character before position `i` of `s`.
pub open spec fn kind_before(s: Seq<char>, i: int) -> CharType {
    if i <= 0 {
        CharType::Start
    } else {
        classify(s[i - 1])
    }
}

/// Whether a lowercase character stands right after position `i` of `s`.
pub open spec fn lowercase_after(s: Seq<char>, i: int) -> bool {
    i + 1 < s.len() && is_lowercase_of(s[i + 1])
}

/// What the character at position `i` of `s` contributes to the output. It
/// depends on that character and its two neighbours only.
pub open spec fn text_at(s: Seq<char>, i: int, policy: Policy) -> Seq<char> {
    step_text(kind_before(s, i), s[i], lowercase_after(s, i), policy)
}

/// The contributions of the first `n` characters of `s`, in order.
pub open spec fn converted_prefix(s: Seq<char>, n: int, policy: Policy) -> Seq<char>
    decreases n,
{
    if n <= 0 {
        Seq::empty()
    } else {
        converted_prefix(s, n - 1, policy) + text_at(s, n - 1, policy)
    }
}

/// The input `s` written under `policy`: the contributions of all its
/// characters, in order.
pub open spec fn converted(s: Seq<char>, policy: Policy) -> Seq<char> {
    converted_prefix(s, s.len() as int, policy)
}

/// Whether `ch` belongs to a case mapping of `c` that `policy` uses past
/// the first character.
pub open spec fn in_mapping(policy: Policy, c: char, ch: char) -> bool {
    folded(policy.on_word_begin.fold, c).contains(ch) || folded(policy.on_normal.fold, c).contains(
        ch,
    )
}

/// Whether `policy` can write `ch` for the input `s`: as the separator of a
/// word, or as part of a case mapping, one that the policy uses there, of
/// the first character of `s` or of an alphanumeric character of `s`.
pub open spec fn permitted(policy: Policy, s: Seq<char>, ch: char) -> bool {
    ||| policy.on_word_begin.separator == Some(ch)
    ||| policy.on_normal.separator == Some(ch)
    ||| s.len() > 0 && folded(first_fold(policy.is_first_capitalised), s[0]).contains(ch)
    ||| exists|i: int|
        0 < i < s.len() && is_alphanumeric_of(s[i]) && #[trigger] in_mapping(policy, s[i], ch)
}

/// A character that `rule` writes for `c` is the separator of the rule or
/// belongs to the mapping of `c`.
pub proof fn lemma_emitted_char(rule: Emit, c: char, k: int)
    requires
        0 <= k < emitted(rule, c).len(),
    ensures
        rule.separator == Some(emitted(rule, c)[k]) || folded(rule.fold, c).contains(
            emitted(rule, c)[k],
        ),
{
    match rule.separator {
        Some(separator) => {
            if k > 0 {
                assert(folded(rule.fold, c)[k - 1] == emitted(rule, c)[k]);
            }
        },
        None => {
            assert(folded(rule.fold, c)[k] == emitted(rule, c)[k]);
        },
    }
}

/// Each character of the output of the first `n` input characters was
/// contributed by one of them: the result is such a position.
pub proof fn lemma_prefix_char_source(s: Seq<char>, n: int, policy: Policy, k: int) -> (i: int)
    requires
        0 <= n <= s.len(),
        0 <= k < converted_prefix(s, n, policy).len(),
    ensures
        0 <= i < n,
        text_at(s, i, policy).contains(converted_prefix(s, n, policy)[k]),
    decreases n,
{
    let head = converted_prefix(s, n - 1, policy);
    if k < head.len() {
        lemma_prefix_char_source(s, n - 1, policy, k)
    } else {
        assert(text_at(s, n - 1, policy)[k - head.len()] == converted_prefix(s, n, policy)[k]);
        n - 1
    }
}

/// The output holds nothing but what the policy permits for the input: its
/// separators and the case mappings, as the policy uses them, of the first
/// character and of the alphanumeric characters of the input.
pub proof fn lemma_output_is_permitted(s: Seq<char>, policy: Policy, k: int)
    requires
        0 <= k < converted(s, policy).len(),
    ensures
        permitted(policy, s, converted(s, policy)[k]),
{
    let ch = converted(s, policy)[k];
    let i = lemma_prefix_char_source(s, s.len() as int, policy, k);
    let piece = text_at(s, i, policy);
    let j = choose|j: int| 0 <= j < piece.len() && piece[j] == ch;
    if i > 0 && classify(s[i]) != CharType::Symbol {
        if begins_word(kind_before(s, i), classify(s[i]), lowercase_after(s, i)) {
            lemma_emitted_char(policy.on_word_begin, s[i], j);
        } else {
            lemma_emitted_char(policy.on_normal, s[i], j);
        }
        if policy.on_word_begin.separator != Some(ch) && policy.on_normal.separator != Some(ch) {
            assert(is_alphanumeric_of(s[i]) && in_mapping(policy, s[i], ch));
        }
    }
}

/// An empty input gives an empty output, whatever the policy.
pub proof fn lemma_empty_input(policy: Policy)
    ensures
        converted(Seq::<char>::empty(), policy) == Seq::<char>::empty(),
{
}

/// Where only symbols follow the first `n` characters up to position `m`,
/// the output of the first `m` characters is that of the first `n`.
pub proof fn lemma_symbols_add_nothing(s: Seq<char>, n: int, m: int, policy: Policy)
    requires
        1 <= n <= m <= s.len(),
        forall|i: int| n <= i < m ==> !is_alphanumeric_of(#[trigger] s[i]),
    ensures
        converted_prefix(s, m, policy) == converted_prefix(s, n, policy),
    decreases m - n,
{
    if n < m {
        lemma_symbols_add_nothing(s, n, m - 1, policy);
        assert(classify(s[m - 1]) == CharType::Symbol);
        assert(text_at(s, m - 1, policy) == Seq::<char>::empty());
        assert(converted_prefix(s, m, policy) == converted_prefix(s, m - 1, policy)
            + Seq::<char>::empty());
    }
}

/// Of an input in which only symbols follow the first character, the output
/// is the first character alone, in the mapping that the policy gives the
/// first character. This holds whether or not the first one is a symbol.
pub proof fn lemma_symbols_after_first(s: Seq<char>, policy: Policy)
    requires
        s.len() > 0,
        forall|i: int| 0 < i < s.len() ==> !is_alphanumeric_of(#[trigger] s[i]),
    ensures
        converted(s, policy) == folded(first_fold(policy.is_first_capitalised), s[0]),
{
    lemma_symbols_add_nothing(s, 1, s.len() as int, policy);
    assert(converted_prefix(s, 0, policy) == Seq::<char>::empty());
    assert(converted_prefix(s, 1, policy) == Seq::<char>::empty() + text_at(s, 0, policy));
}

/// Whether the character at position `i` of `s` stands there as `policy`
/// writes it. A symbol past the first character does so as the separator
/// between two words: as the separator of the policy, with a character
/// after it that is no symbol. Another character does so where the scan
/// writes it alone and unchanged or, right after a separator, with that
/// separator before it.
pub open spec fn stands_as_written(s: Seq<char>, i: int, policy: Policy) -> bool {
    if i > 0 && classify(s[i]) == CharType::Symbol {
        policy.on_word_begin.separator == Some(s[i]) && i + 1 < s.len() && classify(s[i + 1])
            != CharType::Symbol
    } else if i > 1 && classify(s[i - 1]) == CharType::Symbol {
        text_at(s, i, policy) == seq![s[i - 1], s[i]]
    } else {
        text_at(s, i, policy) == seq![s[i]]
    }
}

/// Whether every character of `s` stands as `policy` writes it.
pub open spec fn is_written_by(s: Seq<char>, policy: Policy) -> bool {
    forall|i: int| 0 <= i < s.len() ==> stands_as_written(s, i, policy)
}

/// The output of the first `n` characters of an input of which every
/// character stands as the policy writes it: these same characters, but for
/// a separator at their end, which is written only with the word that
/// follows it.
pub proof fn lemma_prefix_as_written(s: Seq<char>, n: int, policy: Policy)
    requires
        0 <= n <= s.len(),
        is_written_by(s, policy),
    ensures
        converted_prefix(s, n, policy) == if n > 1 && classify(s[n - 1]) == CharType::Symbol {
            s.take(n - 1)
        } else {
            s.take(n)
        },
    decreases n,
{
    if n > 0 {
        lemma_prefix_as_written(s, n - 1, policy);
        let i = n - 1;
        let head = converted_prefix(s, i, policy);
        let piece = text_at(s, i, policy);
        assert(stands_as_written(s, i, policy));
        if i > 0 {
            assert(stands_as_written(s, i - 1, policy));
        }
        if i > 0 && classify(s[i]) == CharType::Symbol {
            assert(piece == Seq::<char>::empty());
            assert(head + piece == s.take(i));
        } else if i > 1 && classify(s[i - 1]) == CharType::Symbol {
            assert(head == s.take(i - 1));
            assert(head + piece == s.take(n));
        } else {
            assert(head == s.take(i));
            assert(head + piece == s.take(n));
        }
    } else {
        assert(s.take(0) == Seq::<char>::empty());
    }
}

/// Converting an input that already stands in the case of the policy gives
/// the same input again: where every character stands as the policy writes
/// it, the output is the input.
pub proof fn lemma_unchanged_where_as_written(s: Seq<char>, policy: Policy)
    requires
        is_written_by(s, policy),
    ensures
        converted(s, policy) == s,
{
    let n = s.len() as int;
    lemma_prefix_as_written(s, n, policy);
    if n > 1 {
        assert(stands_as_written(s, n - 1, policy));
    }
    assert(s.take(n) == s);
}

/// Whether `s` is made of words with one `separator` between two of them,
/// where a word is one or more alphanumeric characters that all have the
/// category `kind` and are each their own mapping under `fold`, and the
/// separator is neither alphanumeric nor lowercase.
pub open spec fn is_separated_words(
    s: Seq<char>,
    separator: char,
    fold: Fold,
    kind: CharType,
) -> bool {
    &&& kind == CharType::Lowercase || kind == CharType::CapitalOrNumber
    &&& !is_alphanumeric_of(separator) && !is_lowercase_of(separator)
    &&& s.len() > 0 ==> s[0] != separator && s.last() != separator
    &&& forall|i: int|
        0 <= i < s.len() ==> #[trigger] s[i] == separator || (classify(s[i]) == kind && folded(
            fold,
            s[i],
        ) == seq![s[i]])
    &&& forall|i: int| 0 < i < s.len() ==> !(s[i - 1] == separator && #[trigger] s[i] == separator)
}

/// In an input of words that the policy's one mapping does not change, with
/// the policy's separator between them, every character stands as the
/// policy writes it.
pub proof fn lemma_separated_words_as_written(
    s: Seq<char>,
    policy: Policy,
    separator: char,
    kind: CharType,
)
    requires
        policy.on_word_begin.separator == Some(separator),
        policy.on_normal.separator is None,
        policy.on_word_begin.fold == policy.on_normal.fold,
        policy.on_normal.fold == first_fold(policy.is_first_capitalised),
        is_separated_words(s, separator, policy.on_normal.fold, kind),
    ensures
        is_written_by(s, policy),
{
    assert forall|i: int| 0 <= i < s.len() implies stands_as_written(s, i, policy) by {
        let c = s[i];
        if i > 0 {
            assert(s[i - 1] == separator || classify(s[i - 1]) == kind);
        }
        if i + 1 < s.len() {
            assert(s[i + 1] == separator || classify(s[i + 1]) == kind);
        }
        if c == separator {
            assert(classify(c) == CharType::Symbol);
            assert(i > 0 && i + 1 < s.len());
            assert(s[i + 1] != separator);
        } else if i > 0 && s[i - 1] == separator {
            assert(classify(c) == kind && folded(policy.on_normal.fold, c) == seq![c]);
            assert(i > 1);
            assert(kind_before(s, i) == CharType::Symbol);
            assert(text_at(s, i, policy) == seq![separator] + seq![c]);
            assert(seq![separator] + seq![c] == seq![s[i - 1], c]);
        } else {
            assert(classify(c) == kind && folded(policy.on_normal.fold, c) == seq![c]);
            if i > 0 {
                assert(kind_before(s, i) == kind);
                assert(!begins_word(kind, classify(c), lowercase_after(s, i)));
            }
            assert(text_at(s, i, policy) == seq![c]);
        }
    }
}

/// An input that already stands in the policy's case is left as it is.
/// This is stated of the policies that write every character in one
/// mapping and a separator between the words, and of inputs whose words
/// are of one category and unchanged by that mapping.
pub proof fn lemma_already_in_case(s: Seq<char>, policy: Policy, separator: char, kind: CharType)
    requires
        policy.on_word_begin.separator == Some(separator),
        policy.on_normal.separator is None,
        policy.on_word_begin.fold == policy.on_normal.fold,
        policy.on_normal.fold == first_fold(policy.is_first_capitalised),
        is_separated_words(s, separator, policy.on_normal.fold, kind),
    ensures
        converted(s, policy) == s,
{
    lemma_separated_words_as_written(s, policy, separator, kind);
    lemma_unchanged_where_as_written(s, policy);
}

/// Converts the string to various cases.
pub trait Caseify {
    /// The characters of the value that is converted.
    spec fn text(&self) -> Seq<char>;

    /// Converts the string to `camelCase`.
    fn to_camel_case(&self) -> (output: String)
        ensures
            output@ == Case::Camel.converted(self.text()),
    ;

    /// Converts the string to `Capitalised Case`.
    fn to_capitalised_case(&self) -> (output: String)
        ensures
            output@ == Case::Capitalised.converted(self.text()),
    ;

    /// Converts the string to `CONSTANT_CASE`.
    fn to_constant_case(&self) -> (output: String)
        ensures
            output@ == Case::Constant.converted(self.text()),
    ;

    /// Converts the string to `dot.case`.
    fn to_dot_case(&self) -> (output: String)
        ensures
            output@ == Case::Dot.converted(self.text()),
    ;

    /// Converts the string to `kebab-case`.
    fn to_kebab_case(&self) -> (output: String)
        ensures
            output@ == Case::Kebab.converted(self.text()),
    ;

    /// Converts the string to `PascalCase`.
    fn to_pascal_case(&self) -> (output: String)
        ensures
            output@ == Case::Pascal.converted(self.text()),
    ;

    /// Converts the string to `Sentence case`.
    fn to_sentence_case(&self) -> (output: String)
        ensures
            output@ == Case::Sentence.converted(self.text()),
    ;

    /// Converts the string to `snake_case`.
    fn to_snake_case(&self) -> (output: String)
        ensures
            output@ == Case::Snake.converted(self.text()),
    ;
}

impl Caseify for str {
    open spec fn text(&self) -> Seq<char> {
        self@
    }

    fn to_camel_case(&self) -> (output: String) {
        to_new_case(
            self,
            false,
            Emit { separator: None, fold: Fold::Upper },
            Emit { separator: None, fold: Fold::Lower },
        )
    }

    fn to_capitalised_case(&self) -> (output: String) {
        to_new_case(
            self,
            true,
            Emit { separator: Some(' '), fold: Fold::Upper },
            Emit { separator: None, fold: Fold::Lower },
        )
    }

    fn to_constant_case(&self) -> (output: String) {
        to_new_case(
            self,
            true,
            Emit { separator: Some('_'), fold: Fold::Upper },
            Emit { separator: None, fold: Fold::Upper },
        )
    }

    fn to_dot_case(&self) -> (output: String) {
        to_new_case(
            self,
            false,
            Emit { separator: Some('.'), fold: Fold::Lower },
            Emit { separator: None, fold: Fold::Lower },
        )
    }

    fn to_kebab_case(&self) -> (output: String) {
        to_new_case(
            self,
            false,
            Emit { separator: Some('-'), fold: Fold::Lower },
            Emit { separator: None, fold: Fold::Lower },
        )
    }

    fn to_pascal_case(&self) -> (output: String) {
        to_new_case(
            self,
            true,
            Emit { separator: None, fold: Fold::Upper },
            Emit { separator: None, fold: Fold::Lower },
        )
    }

    fn to_sentence_case(&self) -> (output: String) {
        to_new_case(
            self,
            true,
            Emit { separator: Some(' '), fold: Fold::Lower },
            Emit { separator: None, fold: Fold::Lower },
        )
    }

    fn to_snake_case(&self) -> (output: String) {
        to_new_case(
            self,
            false,
            Emit { separator: Some('_'), fold: Fold::Lower },
            Emit { separator: None, fold: Fold::Lower },
        )
    }
}

/// Pushes the given characters to the output string, in order.
pub fn push_all(output: &mut String, chars: &Vec<char>)
    ensures
        final(output)@ == old(output)@ + chars@,
{
    let mut i: usize = 0;
    while i < chars.len()
        invariant
            i <= chars.len(),
            output@ == old(output)@ + chars@.subrange(0, i as int),
        decreases chars.len() - i,
    {
        output.push(chars[i]);
        i += 1;
        assert(chars@.subrange(0, i as int) == chars@.subrange(0, i - 1).push(chars@[i - 1]));
    }
    assert(chars@.subrange(0, i as int) == chars@);
}

/// Pushes the lowercase representation of the given character to the output string.
pub fn push_lower(output: &mut String, ch: char)
    ensures
        final(output)@ == old(output)@ + lowercase_of(ch),
{
    push_all(output, &lowercase(ch));
}

/// Pushes the uppercase representation of the given character to the output string.
pub fn push_upper(output: &mut String, ch: char)
    ensures
        final(output)@ == old(output)@ + uppercase_of(ch),
{
    push_all(output, &uppercase(ch));
}

/// Pushes the given character to the output string in the given mapping.
pub fn push_folded(output: &mut String, fold: Fold, ch: char)
    ensures
        final(output)@ == old(output)@ + folded(fold, ch),
{
    match fold {
        Fold::Upper => push_upper(output, ch),
        Fold::Lower => push_lower(output, ch),
    }
}

/// Pushes what `rule` writes for the given character to the output string.
pub fn push_emitted(output: &mut String, rule: Emit, ch: char)
    ensures
        final(output)@ == old(output)@ + emitted(rule, ch),
{
    if let Some(separator) = rule.separator {
        output.push(separator);
    }
    push_folded(output, rule.fold, ch);
}

/// Decides what the scan does with a character of category `new`, met
/// after one of category `before` and followed by one that is lowercase or
/// not. No character has the category `CharType::Start`, so `new` is
/// another one, unless `before` is `CharType::Start` too.
pub fn decide(before: &CharType, new: &CharType, next_is_lowercase: bool) -> (action: Action)
    requires
        *before == CharType::Start || *new != CharType::Start,
    ensures
        action == action_of(*before, *new, next_is_lowercase),
{
    match (before, new) {
        (CharType::Start, _) => Action::First,
        (_, CharType::Start) => unreached(),
        (_, CharType::Symbol) => Action::Skip,
        (CharType::Symbol, _) | (CharType::Lowercase, CharType::CapitalOrNumber) => {
            Action::WordBegin
        },
        (CharType::CapitalOrNumber, CharType::CapitalOrNumber) if next_is_lowercase => {
            Action::WordBegin
        },
        (CharType::Lowercase, CharType::Lowercase)
        | (CharType::CapitalOrNumber, CharType::CapitalOrNumber | CharType::Lowercase) => {
            Action::Normal
        },
    }
}

/// Determines if a character should be interpreted as a word beginning or not, and handles the push.
pub fn handle_func(
    output: &mut String,
    before: &CharType,
    on_word_begin: Emit,
    on_normal: Emit,
    is_first_capitalised: bool,
    prev: char,
    next_is_lowercase: bool,
) -> (new: CharType)
    ensures
        new == classify(prev),
        final(output)@ == old(output)@ + step_text(
            *before,
            prev,
            next_is_lowercase,
            (Policy { is_first_capitalised, on_word_begin, on_normal }),
        ),
{
    let new = CharType::from(prev);
    match decide(before, &new, next_is_lowercase) {
        Action::First => {
            if is_first_capitalised {
                push_upper(output, prev);
            } else {
                push_lower(output, prev);
            }
        },
        Action::Skip => (),
        Action::WordBegin => push_emitted(output, on_word_begin, prev),
        Action::Normal => push_emitted(output, on_normal, prev),
    }
    new
}

/// Converts a string to a new case based on the provided rules for word beginnings and normal characters.
///
/// Every casing method goes through this one scan. A character is handled
/// only once its successor has been read, since whether a capital begins a
/// word depends on the character after it.
pub fn to_new_case(
    value: &str,
    is_first_capitalised: bool,
    on_word_begin: Emit,
    on_normal: Emit,
) -> (output: String)
    ensures
        output@ == converted(
            value@,
            (Policy { is_first_capitalised, on_word_begin, on_normal }),
        ),
{
    broadcast use group_string_axioms;

    let ghost policy = Policy { is_first_capitalised, on_word_begin, on_normal };
    // The byte length is a hint for the capacity: an over-estimate in most
    // cases, and left out where no allocation could be that large.
    let hint = value.len();
    let mut output = if hint <= usize::MAX / 2 {
        String::with_capacity(hint)
    } else {
        String::new()
    };
    let mut before = CharType::Start;
    let mut current_char: Option<char> = None;
    for ch in iter: value.chars()
        invariant
            iter.seq() == value@,
            policy == (Policy { is_first_capitalised, on_word_begin, on_normal }),
            current_char is None <==> iter.index() == 0,
            current_char matches Some(prev) ==> prev == value@[iter.index() - 1],
            before == kind_before(value@, iter.index() - 1),
            output@ == converted_prefix(value@, iter.index() - 1, policy),
    {
        if let Some(prev) = current_char {
            before = handle_func(
                &mut output,
                &before,
                on_word_begin,
                on_normal,
                is_first_capitalised,
                prev,
                ch.is_lowercase(),
            );
        }
        current_char = Some(ch);
    }
    if let Some(prev) = current_char {
        handle_func(
            &mut output,
            &before,
            on_word_begin,
            on_normal,
            is_first_capitalised,
            prev,
            false,
        );
    }
    output
}

} // verus!
