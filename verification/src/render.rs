//! Rendering helpers that carry no styling: the common footer and the
//! virtual-scroll window computation.
use vstd::prelude::*;

verus! {

/// The help footer shared by several panels.
pub const FOOTER_TEXT: &'static str = "Press Tab to switch panels, ':' for commands, 'q' to quit.";

/// Rows rendered above and below the visible region of a virtually scrolled list.
pub const VIRTUAL_SCROLL_BUFFER: usize = 5;

/// The half-open index window `[start, end)` that a list of `total` items renders
/// for the given scroll offset and viewport height.
pub open spec fn scroll_window_spec(total: int, scroll_offset: int, visible_rows: int) -> (int, int) {
    if total == 0 || visible_rows == 0 {
        (0, 0)
    } else {
        let off = if scroll_offset < total - 1 { scroll_offset } else { total - 1 };
        let start = if off >= VIRTUAL_SCROLL_BUFFER { off - VIRTUAL_SCROLL_BUFFER } else { 0 };
        let end = if off + visible_rows + VIRTUAL_SCROLL_BUFFER < total {
            off + visible_rows + VIRTUAL_SCROLL_BUFFER
        } else {
            total
        };
        (start, end)
    }
}

/// Computes the range of list indices to render: the viewport starting at the
/// (clamped) scroll offset, widened by [`VIRTUAL_SCROLL_BUFFER`] rows on each side
/// and cut to the list.
pub fn virtual_scroll_window(total_items: usize, scroll_offset: usize, visible_rows: usize) -> (r: (
    usize,
    usize,
))
    ensures
        (r.0 as int, r.1 as int) == scroll_window_spec(total_items as int, scroll_offset as int, visible_rows as int),
        r.0 <= r.1 <= total_items,
        // every row of the viewport lies inside the window
        total_items > 0 && visible_rows > 0 ==> {
            let off = if scroll_offset < total_items - 1 { scroll_offset as int } else { total_items - 1 };
            r.0 <= off && (off + visible_rows <= total_items ==> off + visible_rows <= r.1)
        },
{
    if total_items == 0 || visible_rows == 0 {
        return (0, 0);
    }
    let clamped_offset = if scroll_offset < total_items - 1 { scroll_offset } else { total_items - 1 };
    let start = clamped_offset.saturating_sub(VIRTUAL_SCROLL_BUFFER);
    let end0 = clamped_offset.saturating_add(visible_rows).saturating_add(VIRTUAL_SCROLL_BUFFER);
    let end = if end0 < total_items { end0 } else { total_items };
    (start, end)
}

} // verus!
