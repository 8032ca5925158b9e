//! Small operations on text.

use vstd::prelude::*;
use vstd::string::*;

verus! {

/// `prefix`, then `suffix`.
pub fn concat2(prefix: &str, suffix: &str) -> (text: String)
    ensures
        text@ == prefix@ + suffix@,
{
    let mut text = String::from_str(prefix);
    text.append(suffix);
    text
}

/// `prefix`, then `middle`, then `suffix`.
pub fn concat3(prefix: &str, middle: &str, suffix: &str) -> (text: String)
    ensures
        text@ == prefix@ + middle@ + suffix@,
{
    let mut text = String::from_str(prefix);
    text.append(middle);
    text.append(suffix);
    text
}

/// Whether a string slice and a string hold the same characters.
pub fn same_text(a: &str, b: &String) -> (same: bool)
    ensures
        same == (a@ == b@),
{
    let owned = String::from_str(a);
    owned == *b
}

} // verus!
