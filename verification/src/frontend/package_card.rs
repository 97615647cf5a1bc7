//! Package card layout.
use vstd::prelude::*;

verus! {

/// Grid class string for package card layouts: three columns at most for
/// `max_cols == 3`, four otherwise.
pub fn grid(max_cols: u8) -> (classes: &'static str)
    ensures
        classes@ == if max_cols == 3 {
            "grid grid-cols-1 sm:grid-cols-2 lg:grid-cols-3 gap-4"@
        } else {
            "grid grid-cols-1 sm:grid-cols-2 md:grid-cols-3 lg:grid-cols-4 gap-4"@
        },
{
    match max_cols {
        3 => "grid grid-cols-1 sm:grid-cols-2 lg:grid-cols-3 gap-4",
        _ => "grid grid-cols-1 sm:grid-cols-2 md:grid-cols-3 lg:grid-cols-4 gap-4",
    }
}

} // verus!
