//! Text helpers shared by the resolvers.
use vstd::prelude::*;

verus! {

/// What `str::to_lowercase` returns for a string: the Unicode lowercase
/// mapping of every character, which depends on the characters alone.
pub uninterp spec fn lower_of(s: Seq<char>) -> Seq<char>;

/// Relies on `str::to_lowercase`: the result is the lowercase mapping of the
/// characters of `s`, and the empty string stays empty.
#[verifier::external_body]
pub(crate) fn lowercase(s: &str) -> (r: String)
    ensures
        r@ == lower_of(s@),
        s@.len() == 0 ==> r@.len() == 0,
{
    s.to_lowercase()
}

/// Whether `key` holds exactly the characters of `lit`.
pub fn same_text(key: &String, lit: &str) -> (r: bool)
    ensures
        r == (key@ == lit@),
{
    let other = lit.to_owned();
    *key == other
}

} // verus!
