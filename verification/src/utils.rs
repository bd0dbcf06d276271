//! Helpers for placing widgets.

use vstd::prelude::*;
use crate::layout::{Constraint, Direction, Layout, Rect, parts_view, splits};

verus! {

/// The three bands that put a band of `percent` percent in the middle.
pub open spec fn centering(percent: u16) -> Seq<Constraint> {
    seq![
        Constraint::Percentage(((100 - percent) / 2) as u16),
        Constraint::Percentage(percent),
        Constraint::Percentage(((100 - percent) / 2) as u16),
    ]
}

/// Whether centring in `r` gives `frame` when the two divisions come out
/// as `rows` and `columns`: the middle column of the middle row, or nothing
/// where one of the two divisions cannot be made.
pub open spec fn centers_by(
    percent_x: u16,
    percent_y: u16,
    r: Rect,
    frame: Option<Rect>,
    rows: Option<Seq<Rect>>,
    columns: Option<Seq<Rect>>,
) -> bool {
    &&& splits(Direction::Vertical, 0, centering(percent_y), r, rows)
    &&& match rows {
        None => frame is None,
        Some(rows) => {
            &&& splits(Direction::Horizontal, 0, centering(percent_x), rows[1], columns)
            &&& match columns {
                None => frame is None,
                Some(columns) => frame == Some(columns[1]),
            }
        },
    }
}

/// Whether `frame` is an outcome of centring in `r`.
pub open spec fn centers(percent_x: u16, percent_y: u16, r: Rect, frame: Option<Rect>) -> bool {
    exists|rows: Option<Seq<Rect>>, columns: Option<Seq<Rect>>| #[trigger]
        centers_by(percent_x, percent_y, r, frame, rows, columns)
}

fn centering_bands(percent: u16) -> (bands: Vec<Constraint>)
    requires
        percent <= 100,
    ensures
        bands@ == centering(percent),
{
    let side: u16 = (100 - percent) / 2;
    let bands = vec![Constraint::Percentage(side), Constraint::Percentage(percent), Constraint::Percentage(side)];
    assert(bands@ =~= centering(percent));
    bands
}

/// The rectangle in the middle of `r` that takes `percent_x` percent of
/// its width and `percent_y` percent of its height, or `None` where `r`
/// is too large to be divided.
pub fn centered_rect(percent_x: u16, percent_y: u16, r: Rect) -> (frame: Option<Rect>)
    requires
        percent_x <= 100,
        percent_y <= 100,
    ensures
        centers(percent_x, percent_y, r, frame),
{
    let rows = Layout::default().direction(Direction::Vertical).constraints(centering_bands(percent_y)).split(r);
    let ghost rows_view = parts_view(rows);
    match rows {
        None => {
            assert(centers_by(percent_x, percent_y, r, None, rows_view, None));
            None
        },
        Some(rows) => {
            let middle = rows[1];
            let columns = Layout::default().direction(Direction::Horizontal).constraints(
                centering_bands(percent_x),
            ).split(middle);
            let ghost columns_view = parts_view(columns);
            let frame = match columns {
                None => None,
                Some(columns) => Some(columns[1]),
            };
            assert(centers_by(percent_x, percent_y, r, frame, rows_view, columns_view));
            frame
        },
    }
}

} // verus!
