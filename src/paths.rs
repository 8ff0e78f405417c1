//! Placeholders in configured paths.

use vstd::prelude::*;

verus! {

/// `s` with every match of `from` replaced by `to`, as `str::replace` does it:
/// matches are found from the left and do not overlap; an empty `from` matches
/// before every character and at the end.
pub open spec fn replaced(s: Seq<char>, from: Seq<char>, to: Seq<char>) -> Seq<char>
    decreases s.len(),
{
    if from.len() == 0 {
        if s.len() == 0 {
            to
        } else {
            to + seq![s[0]] + replaced(s.drop_first(), from, to)
        }
    } else if s.len() < from.len() {
        s
    } else if s.subrange(0, from.len() as int) == from {
        to + replaced(s.subrange(from.len() as int, s.len() as int), from, to)
    } else {
        seq![s[0]] + replaced(s.drop_first(), from, to)
    }
}

/// Relies on `str::replace`.
#[verifier::external_body]
fn replace_all(s: &str, from: &str, to: &str) -> (r: String)
    ensures
        r@ == replaced(s@, from@, to@),
{
    s.replace(from, to)
}

/// The path with each placeholder replaced by its value, one placeholder
/// after the other in the given order.
pub open spec fn with_placeholders(path: Seq<char>, placeholders: Seq<(String, String)>) -> Seq<char>
    decreases placeholders.len(),
{
    if placeholders.len() == 0 {
        path
    } else {
        replaced(
            with_placeholders(path, placeholders.drop_last()),
            placeholders.last().0@,
            placeholders.last().1@,
        )
    }
}

/// Replaces each placeholder (e.g. `{date}`) in a path by its value.
#[must_use]
pub fn replace_placeholders_in_path(original_path: &str, placeholders: &Vec<(String, String)>) -> (r: String)
    ensures
        r@ == with_placeholders(original_path@, placeholders@),
{
    let mut path_string = original_path.to_owned();
    let mut i: usize = 0;
    while i < placeholders.len()
        invariant
            i <= placeholders@.len(),
            path_string@ == with_placeholders(original_path@, placeholders@.subrange(0, i as int)),
        decreases placeholders@.len() - i,
    {
        let (key, value) = &placeholders[i];
        path_string = replace_all(path_string.as_str(), key.as_str(), value.as_str());
        proof {
            let next = placeholders@.subrange(0, i + 1);
            assert(next.drop_last() =~= placeholders@.subrange(0, i as int));
        }
        i = i + 1;
    }
    assert(placeholders@.subrange(0, i as int) =~= placeholders@);
    path_string
}

} // verus!
