//! The two layout computations that rendering takes from `ratatui`.

use crate::surface::Rect;
use vstd::prelude::*;

verus! {

/// The cells inside a border round `area`.
///
/// Calls `ratatui::widgets::Block::inner` on a block with all four borders
/// and neither title nor padding. The contract is what that function
/// computes for such a block: the left and top edge move in by one cell,
/// but not past the far edge of `area` nor out of the coordinate range, and
/// width and height shrink by two, not below zero.
#[verifier::external_body]
pub(crate) fn bordered_inner(area: Rect) -> (inner: Rect)
    ensures
        inner == area.inside_border(),
{
    let (x, y, width, height) = (area.x, area.y, area.width, area.height);
    let outer = ratatui::layout::Rect { x, y, width, height };
    let inner = ratatui::widgets::Block::bordered().inner(outer);
    Rect { x: inner.x, y: inner.y, width: inner.width, height: inner.height }
}

/// Splits `area` into rows, from top to bottom, one for each entry of
/// `heights`, which says how many cells high the row is to be.
///
/// Calls `ratatui::layout::Layout::split` on a vertical layout of `Length`
/// constraints, which aligns its rows to the start. Of every outcome the
/// contract says that there is one row for each constraint, each as wide
/// as `area` and between its top and bottom. Where `area` has room for the
/// heights, each row has the height asked for, and the rows stand one below
/// the other from the top of `area`. Where it has not, the heights are the
/// choice of the layout's solver, and nothing more is claimed.
#[verifier::external_body]
pub(crate) fn split_rows(area: Rect, heights: &Vec<u16>) -> (rows: Vec<Rect>)
    ensures
        rows.len() == heights.len(),
        forall|k: int| 0 <= k < rows.len() ==> area.has_row(#[trigger] rows[k]),
        area.has_room_for(heights@) ==> forall|k: int|
            0 <= k < rows.len() ==> #[trigger] rows[k] == area.stacked_row(heights@, k),
{
    let (x, y, width, height) = (area.x, area.y, area.width, area.height);
    let whole = ratatui::layout::Rect { x, y, width, height };
    let rows = ratatui::layout::Layout::vertical(heights.iter().copied()).split(whole);
    rows.iter().map(|r| Rect { x: r.x, y: r.y, width: r.width, height: r.height }).collect()
}

} // verus!
