use vstd::prelude::*;

verus! {

/// Compares two string slices by their character sequences.
///
/// Both sides are first turned into owned strings, whose equality vstd
/// relates to the equality of their views.
pub(crate) fn str_eq(a: &str, b: &str) -> (r: bool)
    ensures
        r == (a@ == b@),
{
    let owned_a: String = a.to_owned();
    let owned_b: String = b.to_owned();
    owned_a == owned_b
}

} // verus!
