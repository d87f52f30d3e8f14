//! Human-readable rendering of byte counts, done by the `humansize` crate.

use vstd::prelude::*;

verus! {

/// The text that `humansize` renders for a byte count under its Windows
/// conventions (binary magnitudes, e.g. 1024 bytes as "1 KB").
pub uninterp spec fn human_size_text(n: u64) -> Seq<char>;

/// Relies on `humansize::format_size` with the `WINDOWS` options, a constant:
/// the rendered text depends on the byte count alone.
#[verifier::external_body]
pub(crate) fn format_size_text(n: u64) -> (r: String)
    ensures
        r@ == human_size_text(n),
{
    humansize::format_size(n, humansize::WINDOWS)
}

} // verus!
