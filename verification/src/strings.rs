//! What the library takes on trust of the standard string and character
//! functions that it calls.

use vstd::prelude::*;

verus! {

/// `char::is_alphanumeric` of `c`: whether Unicode classes `c` as a letter or
/// a number. The classification is the standard library's table and is not
/// written out here.
pub uninterp spec fn alphanumeric(c: char) -> bool;

/// `char::is_whitespace` of `c`: whether Unicode counts `c` as white space.
/// The list of such characters is the standard library's and is not written
/// out here.
pub uninterp spec fn whitespace(c: char) -> bool;

/// `char::is_alphanumeric` depends on the character alone; its result is
/// named [`alphanumeric`].
pub assume_specification[ char::is_alphanumeric ](c: char) -> (b: bool)
    ensures
        b == alphanumeric(c),
;

/// `char::is_whitespace` depends on the character alone; its result is named
/// [`whitespace`].
pub assume_specification[ char::is_whitespace ](c: char) -> (b: bool)
    ensures
        b == whitespace(c),
;

/// `String::push` appends the character to the end of the string.
pub assume_specification[ String::push ](s: &mut String, c: char)
    ensures
        final(s)@ == old(s)@.push(c),
;

/// `String::pop` removes the last character and returns it, or returns `None`
/// and leaves the string as it is when the string is empty.
pub assume_specification[ String::pop ](s: &mut String) -> (c: Option<char>)
    ensures
        old(s)@.len() == 0 ==> c == None::<char> && final(s)@ == old(s)@,
        old(s)@.len() > 0 ==> c == Some(old(s)@.last()) && final(s)@ == old(s)@.drop_last(),
;

} // verus!
