//! Naming the fans that a search of the device tree turned up.

use vstd::prelude::*;
use vstd::string::*;

verus! {

/// The suffix of the file that reports a fan's current speed.
pub open spec fn input_suffix() -> Seq<char> {
    "_input"@
}

/// Whether `path` ends with the suffix of a fan's speed report.
pub open spec fn has_input_suffix(path: Seq<char>) -> bool {
    path.len() >= input_suffix().len() && path.skip(path.len() - input_suffix().len())
        == input_suffix()
}

/// The path with which all control files of a fan begin, given the path of
/// the file that reports its speed: that path without its `_input`. Nothing
/// where the path does not end so.
pub fn fan_path(input_path: &str) -> (base: Option<String>)
    ensures
        base is Some <==> has_input_suffix(input_path@),
        base matches Some(path) ==> path@ == input_path@.take(
            input_path@.len() - input_suffix().len(),
        ),
{
    let suffix = "_input";
    let len = input_path.unicode_len();
    let suffix_len = suffix.unicode_len();
    if len < suffix_len {
        return None;
    }
    let start = len - suffix_len;
    let mut at: usize = 0;
    while at < suffix_len
        invariant
            at <= suffix_len == suffix@.len(),
            start + suffix_len == len == input_path@.len(),
            suffix@ == input_suffix(),
            forall|i: int| 0 <= i < at ==> input_path@[start + i] == suffix@[i],
        decreases suffix_len - at,
    {
        if input_path.get_char(start + at) != suffix.get_char(at) {
            assert(input_path@.skip(start as int)[at as int] != suffix@[at as int]);
            return None;
        }
        at = at + 1;
    }
    assert(input_path@.skip(start as int) =~= suffix@);
    assert(input_path@.take(start as int) =~= input_path@.subrange(0, start as int));
    Some(input_path.substring_char(0, start).to_owned())
}

} // verus!
