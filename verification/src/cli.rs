//! Command-line confirmations.

use vstd::prelude::*;

verus! {

/// Whether the line typed at a yes/no question confirms it: exactly `y`
/// followed by a line break.
pub fn is_confirmation(user_input: &String) -> (b: bool)
    ensures
        b == (user_input@ == "y\n"@),
{
    *user_input == "y\n".to_string()
}

} // verus!
