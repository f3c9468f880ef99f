//! The search for goods by name.

use vstd::prelude::*;
use vstd::string::*;

verus! {

/// The pattern that finds every name holding the given text: the text
/// between two signs for "anything". No text finds every name.
pub open spec fn pattern_for(name: Option<Seq<char>>) -> Seq<char> {
    match name {
        Some(text) => seq!['%'] + text + seq!['%'],
        None => seq!['%', '%'],
    }
}

/// The pattern to search names with.
pub fn name_pattern(name: Option<&str>) -> (pattern: String)
    ensures
        pattern@ == pattern_for(
            match name {
                Some(text) => Some(text@),
                None => None,
            },
        ),
{
    proof {
        reveal_strlit("%");
    }
    let mut pattern = String::from_str("%");
    if let Some(text) = name {
        pattern.append(text);
    }
    pattern.append("%");
    assert(pattern@ =~= pattern_for(
        match name {
            Some(text) => Some(text@),
            None => None,
        },
    ));
    pattern
}

} // verus!
