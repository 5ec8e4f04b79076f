//! Character classification, named abstractly.
//!
//! The word-separator rule and trimming depend on `char::is_whitespace` and
//! `char::is_alphanumeric`. Their exact behaviour is given by the Unicode
//! tables, which this crate does not restate: each classifier's result is
//! given a name, and every contract that depends on it speaks of that name.

use vstd::prelude::*;

verus! {

/// Whether `char::is_whitespace` holds of `c` (the `White_Space` property).
pub uninterp spec fn is_space(c: char) -> bool;

/// Whether `char::is_alphanumeric` holds of `c` (`Alphabetic` or a numeric
/// general category).
pub uninterp spec fn is_alnum(c: char) -> bool;

/// Relies on `char::is_whitespace`: the result depends on the character alone.
pub assume_specification[ char::is_whitespace ](c: char) -> (r: bool)
    ensures
        r == is_space(c),
;

/// Relies on `char::is_alphanumeric`: the result depends on the character alone.
pub assume_specification[ char::is_alphanumeric ](c: char) -> (r: bool)
    ensures
        r == is_alnum(c),
;

} // verus!
