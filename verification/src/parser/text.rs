use vstd::prelude::*;

verus! {

/// Whether `c` has the Unicode property `Alphabetic` or is a number:
/// the answer of `char::is_alphanumeric`.
pub uninterp spec fn is_alphanumeric_of(c: char) -> bool;

/// Whether `c` has the Unicode property `Lowercase`: the answer of
/// `char::is_lowercase`.
pub uninterp spec fn is_lowercase_of(c: char) -> bool;

/// The full lowercase mapping of `c`, one or more characters: what
/// `char::to_lowercase` yields, in order.
pub uninterp spec fn lowercase_of(c: char) -> Seq<char>;

/// The full uppercase mapping of `c`, one or more characters: what
/// `char::to_uppercase` yields, in order.
pub uninterp spec fn uppercase_of(c: char) -> Seq<char>;

/// `char::is_alphanumeric` depends on the character alone; its answer is
/// taken from the Unicode tables and is not defined here, only named.
pub assume_specification[ char::is_alphanumeric ](c: char) -> (b: bool)
    ensures
        b == is_alphanumeric_of(c),
;

/// `char::is_lowercase` depends on the character alone; its answer is
/// taken from the Unicode tables and is not defined here, only named.
pub assume_specification[ char::is_lowercase ](c: char) -> (b: bool)
    ensures
        b == is_lowercase_of(c),
;

/// Calls `char::to_lowercase` and collects what the iterator yields. The
/// mapping depends on the character alone and is only named.
#[verifier::external_body]
pub(crate) fn lowercase(c: char) -> (mapped: Vec<char>)
    ensures
        mapped@ == lowercase_of(c),
{
    c.to_lowercase().collect()
}

/// Calls `char::to_uppercase` and collects what the iterator yields. The
/// mapping depends on the character alone and is only named.
#[verifier::external_body]
pub(crate) fn uppercase(c: char) -> (mapped: Vec<char>)
    ensures
        mapped@ == uppercase_of(c),
{
    c.to_uppercase().collect()
}

/// `String::push` appends the character at the end and changes nothing
/// else.
pub assume_specification[ String::push ](s: &mut String, ch: char)
    ensures
        final(s)@ == old(s)@.push(ch),
;

/// `String::with_capacity` returns an empty string. It is asked for no
/// more than `isize::MAX` bytes, past which the allocation panics; of the
/// capacity it gave, which is a matter of the allocator, nothing is said.
pub assume_specification[ String::with_capacity ](capacity: usize) -> (s: String)
    requires
        capacity <= isize::MAX,
    ensures
        s@ == Seq::<char>::empty(),
;

/// `==` on two string slices holds exactly when they are made of the same
/// characters.
pub assume_specification[ <str as PartialEq>::eq ](a: &str, b: &str) -> (same: bool)
    ensures
        same == (a@ == b@),
;

/// Whether two string slices are made of the same characters.
pub fn same_text(a: &str, b: &str) -> (same: bool)
    ensures
        same == (a@ == b@),
{
    a.eq(b)
}

} // verus!
