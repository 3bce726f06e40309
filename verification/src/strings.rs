//! Owned strings made from whatever converts into one.

use vstd::prelude::*;
use vstd::string::*;

verus! {

/// The texts of a run of strings, in the same order.
pub open spec fn strings_view(strings: Seq<String>) -> Seq<Seq<char>> {
    strings.map_values(|s: String| s@)
}

/// The texts of a run of string slices, in the same order.
pub open spec fn strs_view(strs: Seq<&str>) -> Seq<Seq<char>> {
    strs.map_values(|s: &str| s@)
}

/// `to` is a string that converting `from` can give.
///
/// What a conversion gives is the business of the type that is converted:
/// nothing here depends on it.
pub open spec fn converted<I: Into<String>>(from: I, to: String) -> bool {
    call_ensures(I::into, (from,), to)
}

/// `to` holds, place for place, strings that converting the items of `from`
/// can give.
pub open spec fn converted_all<I: Into<String>>(from: Seq<I>, to: Seq<String>) -> bool {
    &&& to.len() == from.len()
    &&& forall|i: int| 0 <= i < from.len() ==> converted(from[i], #[trigger] to[i])
}

/// Converts every item of `items`, in order.
pub fn into_strings<I: Into<String>>(items: Vec<I>) -> (strings: Vec<String>)
    ensures
        converted_all(items@, strings@),
{
    let mut strings: Vec<String> = Vec::new();
    for item in it: items
        invariant
            strings@.len() == it.index(),
            forall|i: int| 0 <= i < strings@.len() ==> converted(items@[i], #[trigger] strings@[i]),
    {
        strings.push(item.into());
    }
    strings
}

/// Whether `text` is written exactly as `word`.
pub fn is_word(text: &String, word: &str) -> (same: bool)
    ensures
        same == (text@ == word@),
{
    let word = String::from_str(word);
    *text == word
}

} // verus!
