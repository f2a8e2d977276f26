use vstd::prelude::*;

verus! {

/// The interface counts cursor rows from the bottom of the window; the window system counts
/// them from the top. A cursor below the window's bottom edge maps to row zero.
pub fn flip_cursor_y(y: u32, window_height: u32) -> (r: u32)
    ensures
        r == (if y > window_height { 0 } else { window_height - y }),
{
    if y > window_height {
        0
    } else {
        window_height - y
    }
}

} // verus!
