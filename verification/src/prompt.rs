use vstd::prelude::*;
use vstd::string::*;

use crate::text::str_equals;

verus! {

broadcast use vstd::string::group_string_axioms;

/// The answer to a yes/no question whose first option means yes.
pub fn yes_no_answer(selection: usize) -> (r: bool)
    ensures
        r == (selection == 0),
{
    selection == 0
}

/// The text of the option picked from a list.
pub fn chosen_option(options: &[&str], selection: usize) -> (r: String)
    requires
        selection < options@.len(),
    ensures
        r@ == options@[selection as int]@,
{
    String::from_str(options[selection])
}

/// Whether the command line asks for the text interface: one of its
/// arguments is `--fallback`.
pub fn wants_fallback(args: &Vec<String>) -> (r: bool)
    ensures
        r == exists|k: int| 0 <= k < args@.len() && #[trigger] args@[k]@ == "--fallback"@,
{
    let mut k: usize = 0;
    while k < args.len()
        invariant
            0 <= k <= args@.len(),
            forall|j: int| 0 <= j < k ==> #[trigger] args@[j]@ != "--fallback"@,
        decreases args@.len() - k,
    {
        if str_equals(args[k].as_str(), "--fallback") {
            return true;
        }
        k = k + 1;
    }
    false
}

} // verus!
