//! Blacklist matcher: exact, case-sensitive string matching of a window's
//! class and title against a configured block list.

use vstd::prelude::*;

verus! {

/// A window is blacklisted when its class or its title equals some entry of
/// the block list, character for character: no case folding, no trimming.
pub open spec fn spec_is_blacklisted(
    class: Seq<char>,
    title: Seq<char>,
    kill_list: Seq<String>,
) -> bool {
    exists|i: int|
        0 <= i < kill_list.len() && (kill_list[i]@ == class || kill_list[i]@ == title)
}

/// Decides whether the window described by `class` and `title` is on the
/// block list. Pure: no side effects, no error cases.
pub fn is_blacklisted(class: &String, title: &String, kill_list: &Vec<String>) -> (r: bool)
    ensures
        r == spec_is_blacklisted(class@, title@, kill_list@),
{
    let mut i: usize = 0;
    while i < kill_list.len()
        invariant
            0 <= i <= kill_list@.len(),
            forall|j: int|
                0 <= j < i ==> kill_list@[j]@ != class@ && kill_list@[j]@ != title@,
        decreases kill_list@.len() - i,
    {
        let entry = &kill_list[i];
        if *entry == *class || *entry == *title {
            return true;
        }
        i = i + 1;
    }
    false
}

} // verus!
