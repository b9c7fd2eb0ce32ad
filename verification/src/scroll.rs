use vstd::prelude::*;

verus! {

/// The number of rows kept free below the selected row while the list
/// scrolls, in a picker whose configuration sets no other.
pub const SCROLL_MARGIN: usize = 2;

/// The number of rows of a viewport of `height` rows that lie above the
/// selected row once the list has scrolled.
pub open spec fn rows_above(height: int, margin: int) -> int {
    if height > margin {
        height - margin - 1
    } else {
        0
    }
}

/// Whether a list that shows `start` as its first row has the selected row
/// on screen with `margin` rows of the viewport below it.
pub open spec fn keeps_in_view(start: int, selected: int, height: int, margin: int) -> bool {
    0 <= start <= selected && selected - start <= rows_above(height, margin)
}

/// The first row shown: the list scrolls no further than the selected row
/// asks for.
pub open spec fn window_start(selected: int, height: int, margin: int) -> int {
    if selected > rows_above(height, margin) {
        selected - rows_above(height, margin)
    } else {
        0
    }
}

/// The row after the last one shown: `height` rows from the first, or the end
/// of the list where that comes sooner.
pub open spec fn window_end(count: int, selected: int, height: int, margin: int) -> int {
    let start = window_start(selected, height, margin);
    if start + height < count {
        start + height
    } else if start < count {
        count
    } else {
        start
    }
}

/// The rows of a list of `count` rows that a viewport of `height` rows shows
/// when row `selected` is the selected one, as the first row shown and the row
/// after the last.
///
/// Where the selected row is a row of the list and the viewport has a row at
/// all, the selected row is shown. The list scrolls only as far as it must to
/// keep `margin` rows below the selected one, so the viewport has more than
/// `margin` unused rows only where the whole list is shorter than it.
pub fn scroll_window(count: usize, selected: usize, height: usize, margin: usize) -> (window: (
    usize,
    usize,
))
    ensures
        window.0 == window_start(selected as int, height as int, margin as int),
        window.1 == window_end(count as int, selected as int, height as int, margin as int),
        window.0 <= window.1,
        window.1 - window.0 <= height,
        selected < count && height > 0 ==> window.0 <= selected < window.1,
        selected < count ==> window.0 + height - window.1 <= margin || count < height,
        forall|start: int| #[trigger]
            keeps_in_view(start, selected as int, height as int, margin as int) ==> window.0
                <= start,
{
    let above = if height > margin {
        height - margin - 1
    } else {
        0
    };
    let start = if selected > above {
        selected - above
    } else {
        0
    };
    let end = if start >= count {
        start
    } else if height < count - start {
        start + height
    } else {
        count
    };
    (start, end)
}

} // verus!
