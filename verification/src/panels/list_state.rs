//! Selection and scroll helpers shared by the scrollable list panels.
use vstd::prelude::*;
use crate::input::{KeyCode, MouseEventKind};

verus! {

/// Rows moved by one PageUp / PageDown.
pub const PAGE_SIZE: usize = 10;

/// The index `selected` clamped into `[0, max)`; 0 when the list is empty.
pub open spec fn clamp_spec(selected: int, max: int) -> int {
    if max <= 0 {
        0
    } else if selected >= max {
        max - 1
    } else if selected < 0 {
        0
    } else {
        selected
    }
}

/// Clamps a selection index into `[0, max)`; an empty list gives 0.
pub fn clamp_selected(selected: usize, max: usize) -> (r: usize)
    ensures
        r == clamp_spec(selected as int, max as int),
        max == 0 ==> r == 0,
        max > 0 ==> r < max,
        r <= selected,
{
    if max == 0 {
        0
    } else if selected >= max {
        max - 1
    } else {
        selected
    }
}

/// The scroll offset after moving the viewport just enough to show `selected`.
pub open spec fn adjust_scroll_spec(selected: int, scroll_offset: int, visible_rows: int) -> int {
    if visible_rows == 0 {
        scroll_offset
    } else if selected < scroll_offset {
        selected
    } else if selected >= scroll_offset + visible_rows {
        selected - (visible_rows - 1)
    } else {
        scroll_offset
    }
}

/// Adjusts the scroll offset so that the selected row lies in the viewport.
pub fn adjust_scroll(selected: usize, scroll_offset: usize, visible_rows: usize) -> (r: usize)
    ensures
        r == adjust_scroll_spec(selected as int, scroll_offset as int, visible_rows as int),
        // the selected row is visible whenever there is a viewport at all
        visible_rows > 0 ==> r <= selected < r + visible_rows,
{
    if visible_rows == 0 {
        return scroll_offset;
    }
    if selected < scroll_offset {
        selected
    } else if selected - scroll_offset >= visible_rows {
        selected - (visible_rows - 1)
    } else {
        scroll_offset
    }
}

/// Moves the selection by `delta` rows, clamped into the list; 0 for an empty list.
pub fn move_selection(selected: usize, delta: isize, item_count: usize) -> (r: usize)
    ensures
        r == clamp_spec(selected + delta, item_count as int),
        item_count == 0 ==> r == 0,
        item_count > 0 ==> r < item_count,
{
    if item_count == 0 {
        return 0;
    }
    let new: usize = if delta < 0 {
        let magnitude: usize = ((-(delta + 1)) as usize) + 1;
        selected.saturating_sub(magnitude)
    } else {
        selected.saturating_add(delta as usize)
    };
    clamp_selected(new, item_count)
}

/// One page up, clamped into `[0, item_count)`.
pub fn page_up(selected: usize, page_size: usize, item_count: usize) -> (r: usize)
    requires
        page_size <= isize::MAX,
    ensures
        r == clamp_spec(selected - page_size, item_count as int),
{
    move_selection(selected, -(page_size as isize), item_count)
}

/// One page down, clamped into `[0, item_count)`.
pub fn page_down(selected: usize, page_size: usize, item_count: usize) -> (r: usize)
    requires
        page_size <= isize::MAX,
    ensures
        r == clamp_spec(selected + page_size, item_count as int),
{
    move_selection(selected, page_size as isize, item_count)
}

/// Up / Down move the selection by one row; any other key gives `None`.
pub fn handle_key_navigation(key: KeyCode, selected: usize, item_count: usize) -> (r: Option<usize>)
    ensures
        key == KeyCode::Up ==> r == Some(clamp_spec(selected - 1, item_count as int) as usize),
        key == KeyCode::Down ==> r == Some(clamp_spec(selected + 1, item_count as int) as usize),
        key != KeyCode::Up && key != KeyCode::Down ==> r.is_none(),
{
    match key {
        KeyCode::Up => Some(move_selection(selected, -1, item_count)),
        KeyCode::Down => Some(move_selection(selected, 1, item_count)),
        _ => None,
    }
}

/// PageUp / PageDown move the selection by [`PAGE_SIZE`] rows; any other key gives `None`.
pub fn handle_key_page_navigation(key: KeyCode, selected: usize, item_count: usize) -> (r: Option<usize>)
    ensures
        key == KeyCode::PageUp ==> r == Some(
            clamp_spec(selected - PAGE_SIZE, item_count as int) as usize,
        ),
        key == KeyCode::PageDown ==> r == Some(
            clamp_spec(selected + PAGE_SIZE, item_count as int) as usize,
        ),
        key != KeyCode::PageUp && key != KeyCode::PageDown ==> r.is_none(),
{
    match key {
        KeyCode::PageUp => Some(page_up(selected, PAGE_SIZE, item_count)),
        KeyCode::PageDown => Some(page_down(selected, PAGE_SIZE, item_count)),
        _ => None,
    }
}

/// The wheel moves the selection by one row; other mouse events give `None`.
pub fn handle_mouse_scroll(kind: MouseEventKind, selected: usize, item_count: usize) -> (r: Option<usize>)
    ensures
        kind == MouseEventKind::ScrollUp ==> r == Some(
            clamp_spec(selected - 1, item_count as int) as usize,
        ),
        kind == MouseEventKind::ScrollDown ==> r == Some(
            clamp_spec(selected + 1, item_count as int) as usize,
        ),
        kind == MouseEventKind::Other ==> r.is_none(),
{
    match kind {
        MouseEventKind::ScrollUp => Some(move_selection(selected, -1, item_count)),
        MouseEventKind::ScrollDown => Some(move_selection(selected, 1, item_count)),
        _ => None,
    }
}

} // verus!
