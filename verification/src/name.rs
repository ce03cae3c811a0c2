//! Names of variables, tags and collections, as Pilatus accepts them.
use vstd::prelude::*;

verus! {

/// A character Pilatus allows in a name: ASCII letters and digits, `-`, `_`,
/// space and `.`.
pub open spec fn is_name_char(c: char) -> bool {
    ('a' <= c && c <= 'z') || ('A' <= c && c <= 'Z') || ('0' <= c && c <= '9') || c == '-' || c
        == '_' || c == ' ' || c == '.'
}

/// The rules of `pilatus::Name`: one to thirty allowed characters, neither
/// starting nor ending with a space.
pub open spec fn name_rules(s: Seq<char>) -> bool {
    &&& 1 <= s.len() <= 30
    &&& s[0] != ' '
    &&& s[s.len() - 1] != ' '
    &&& forall|i: int| 0 <= i < s.len() ==> #[trigger] is_name_char(s[i])
}

/// Asks `pilatus::Name::new` whether `s` is a valid name.
///
/// Trusted: `Name::new` seals the text with `Name::check_str`, which accepts
/// exactly the texts of one to thirty bytes that neither start nor end with a
/// space and hold only ASCII letters, digits, `-`, `_`, space and `.`. Such a
/// text is ASCII, so its byte length is its length in characters; this is
/// [`name_rules`].
#[verifier::external_body]
pub(crate) fn is_valid_name(s: &str) -> (r: bool)
    ensures
        r == name_rules(s@),
{
    pilatus::Name::new(s).is_ok()
}

} // verus!
