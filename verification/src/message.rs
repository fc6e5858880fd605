//! Error texts: a fixed lead followed by the detail the shell reported.

use vstd::prelude::*;

verus! {

/// The text `lead` followed by `detail`.
pub fn with_detail(lead: &str, detail: &str) -> (text: String)
    ensures
        text@ == lead@ + detail@,
{
    let mut text = String::from_str(lead);
    text.append(detail);
    text
}

} // verus!
