use convert_case::{Case, Casing};
use vstd::prelude::*;
use vstd::utf8::is_ascii_chars;

verus! {

/// The letter cases that generated names are written in.
#[derive(Clone, Copy, PartialEq, Eq, Structural, Debug)]
pub enum TextCase {
    /// `MyFieldName`
    Pascal,
    /// `my_field_name`
    Snake,
}

/// What `convert_case` makes of `text` when asked for `case`.
pub uninterp spec fn cased(text: Seq<char>, case: TextCase) -> Seq<char>;

pub open spec fn pascal(text: Seq<char>) -> Seq<char> {
    cased(text, TextCase::Pascal)
}

pub open spec fn snake(text: Seq<char>) -> Seq<char> {
    cased(text, TextCase::Snake)
}

/// Calls `convert_case::Casing::to_case` on `text` with `Case::Pascal` or
/// `Case::Snake`. The crate finds word boundaries by counting characters and
/// then splits the text at those counts as byte offsets, so it panics on some
/// non-ASCII text; the text must therefore be ASCII. The contract claims that
/// the result is a function of the text and the case, and that it is ASCII
/// too (the words of ASCII text are changed only by `to_uppercase` and
/// `to_lowercase`, and joined with `""` or `"_"`).
#[verifier::external_body]
pub(crate) fn convert_case(text: &str, case: TextCase) -> (res: String)
    requires
        is_ascii_chars(text@),
    ensures
        res@ == cased(text@, case),
        is_ascii_chars(res@),
{
    match case {
        TextCase::Pascal => text.to_case(Case::Pascal),
        TextCase::Snake => text.to_case(Case::Snake),
    }
}

} // verus!
