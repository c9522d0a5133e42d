//! How the names of traits are written.
use crate::style::{upper_camel_case, without_leading_underscores};
use vstd::prelude::*;

verus! {

/// Underscores in front of a name make no difference to its style.
pub proof fn law_leading_underscore(name: Seq<char>)
    ensures
        upper_camel_case(seq!['_'] + name) == upper_camel_case(name),
{
    assert((seq!['_'] + name).drop_first() =~= name);
    assert(without_leading_underscores(seq!['_'] + name) == without_leading_underscores(name));
}

/// A name that starts with another character is in UpperCamelCase exactly if there is no
/// underscore in it and it does not start with a lowercase letter. A name of underscores alone
/// is too.
pub proof fn law_camel_case(name: Seq<char>)
    ensures
        name.len() == 0 ==> upper_camel_case(name),
        name.len() > 0 && name[0] != '_' && name.contains('_') ==> !upper_camel_case(name),
        name.len() > 0 && name[0] != '_' && !name.contains('_') && (name[0] as int) < 128
            ==> upper_camel_case(name) == !('a' <= name[0] <= 'z'),
{
}

} // verus!
