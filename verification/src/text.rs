//! Text that messages and representations are made of.
use vstd::prelude::*;

verus! {

/// What `{:?}` gives of a string: the text in double quotes, escaped as std escapes it.
pub uninterp spec fn debug_text(text: Seq<char>) -> Seq<char>;

/// Formats a string with std's `Debug` for `str`, through `format!`.
///
/// The result is named by [`debug_text`]; which characters std escapes is left unsaid.
#[verifier::external_body]
pub(crate) fn debug_string(text: &str) -> (quoted: String)
    ensures
        quoted@ == debug_text(text@),
{
    format!("{:?}", text)
}

} // verus!
