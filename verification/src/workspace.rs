//! Fresh workspace file names.
//!
//! Every request stages its source in a file of its own inside the shared
//! scratch directory. Collisions between concurrent requests are avoided by
//! the width of the random identifier space, not by locking.

use vstd::prelude::*;

use crate::lang::Lang;

verus! {

/// A character that may appear in a fresh workspace token: a lowercase
/// hexadecimal digit or a hyphen. In particular no dot, so the extension
/// appended after it is the name's only one, and no path separator.
pub open spec fn is_token_char(c: char) -> bool {
    ('0' <= c && c <= '9') || ('a' <= c && c <= 'f') || c == '-'
}

/// The shape of a fresh workspace token: 36 characters, hexadecimal digits
/// and hyphens.
pub open spec fn is_token(t: Seq<char>) -> bool {
    t.len() == 36 && (forall|i: int| 0 <= i < t.len() ==> is_token_char(#[trigger] t[i]))
}

/// Relies on uuid::Uuid::new_v4 and its hyphenated lowercase text form (the
/// crate's Debug formatting): 36 characters, 32 hexadecimal digits and 4
/// hyphens. The value is random, so nothing relates one call to another;
/// only the shape of the text is stated.
#[verifier::external_body]
pub(crate) fn fresh_token() -> (r: String)
    ensures
        is_token(r@),
{
    format!("{:?}", uuid::Uuid::new_v4())
}

/// The workspace file name staged for a token and a language.
pub open spec fn source_name_of(token: Seq<char>, lang: Lang) -> Seq<char> {
    token + "."@ + lang.spec_extension()
}

/// Builds the workspace file name: the token, a dot, and the language's
/// source extension.
pub fn source_name(token: &String, lang: &Lang) -> (r: String)
    ensures
        r@ == source_name_of(token@, *lang),
{
    let mut s = token.clone();
    s.append(".");
    s.append(lang.get_extension());
    s
}

} // verus!
