//! Preparing recognized text for injection.
//!
//! Recognized utterances are typed into the focused application one
//! character at a time by the surrounding platform code; each non-empty
//! utterance gets a single leading space so consecutive utterances do not
//! run together.

use vstd::prelude::*;
use vstd::string::StringExecFns;

verus! {

/// The exact character sequence to type for a recognized text: empty for
/// empty input, otherwise one space followed by the text.
pub fn prepare_typed_text(text: &str) -> (r: String)
    ensures
        text@.len() == 0 ==> r@ == text@,
        text@.len() > 0 ==> r@ == " "@ + text@,
{
    if text.is_empty() {
        text.to_owned()
    } else {
        let mut with_space = " ".to_owned();
        with_space.append(text);
        with_space
    }
}

} // verus!
