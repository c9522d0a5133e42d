//! How names are written.
use vstd::prelude::*;

verus! {

/// `name` without the underscores it starts with.
pub open spec fn without_leading_underscores(name: Seq<char>) -> Seq<char>
    decreases name.len(),
{
    if name.len() > 0 && name[0] == '_' {
        without_leading_underscores(name.drop_first())
    } else {
        name
    }
}

/// What `char::is_lowercase` says of a character outside ASCII.
pub uninterp spec fn lowercase_beyond_ascii(c: char) -> bool;

/// The first character of a name that is no underscore.
pub open spec fn first_letter(name: Seq<char>) -> char {
    without_leading_underscores(name)[0]
}

/// Whether a name is written in UpperCamelCase: behind the underscores it starts with there
/// is no other underscore, and no lowercase letter comes first. `lowercase` says whether a
/// first letter outside ASCII is a lowercase one.
pub open spec fn camel_case_given(name: Seq<char>, lowercase: bool) -> bool {
    let trimmed = without_leading_underscores(name);
    !trimmed.contains('_') && !(trimmed.len() > 0 && (if (trimmed[0] as int) < 128 {
        'a' <= trimmed[0] <= 'z'
    } else {
        lowercase
    }))
}

/// Whether a name is written in UpperCamelCase.
pub open spec fn upper_camel_case(name: Seq<char>) -> bool {
    camel_case_given(name, lowercase_beyond_ascii(first_letter(name)))
}

/// Calls `sway_types::style::is_upper_camel_case`. Claimed of it: it drops the underscores
/// that the name starts with, and says yes if what is left holds no underscore and does not
/// start with a lowercase letter. Which letters outside ASCII are lowercase ones is what
/// `char::is_lowercase` says, and is not spelled out.
#[verifier::external_body]
pub(crate) fn is_upper_camel_case(name: &str) -> (is: bool)
    ensures
        is == camel_case_given(name@, lowercase_beyond_ascii(first_letter(name@))),
{
    sway_types::style::is_upper_camel_case(name)
}

} // verus!
