//! Sizes in bytes as a person reads them.

use vstd::prelude::*;

verus! {

/// The text that `humansize::format_size` makes of a size in bytes with its
/// `DECIMAL` options: the size scaled by powers of 1000 with the unit that
/// belongs to the scale.
pub uninterp spec fn size_text(size: u64) -> Seq<char>;

/// Calls `humansize::format_size` with the options `humansize::DECIMAL`.
/// The contract claims only that the text is a function of the size, and
/// gives that function its name.
#[verifier::external_body]
fn format_size_decimal(size: u64) -> (r: String)
    ensures
        r@ == size_text(size),
{
    humansize::format_size(size, humansize::DECIMAL)
}

/// A size in bytes as a person reads it.
pub fn human_size(size: u64) -> (r: String)
    ensures
        r@ == size_text(size),
{
    format_size_decimal(size)
}

} // verus!
