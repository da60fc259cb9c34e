//! What holds of the rows that a shape selects: they come in the shape's
//! order, each is the view of a report that the shape keeps, and none that
//! the shape keeps is missing.

use vstd::prelude::*;
use crate::pagination::page_of;
use crate::query::{after, ordered, place, precedes, slot, strictly_ordered, PublishedOrder, QueryShape};
use crate::report_view::CommentReportView;
use crate::store::EntityStore;
use crate::table::{lemma_first_index, unique_keys};

verus! {

/// The slot of a row lies after every row that does not come after it, and
/// at a row that does.
pub proof fn lemma_slot(rows: Seq<CommentReportView>, row: CommentReportView, order: PublishedOrder)
    ensures
        0 <= slot(rows, row, order) <= rows.len(),
        forall|j: int|
            0 <= j < slot(rows, row, order) ==> !precedes(
                row.comment_report,
                (#[trigger] rows[j]).comment_report,
                order,
            ),
        slot(rows, row, order) < rows.len() ==> precedes(
            row.comment_report,
            rows[slot(rows, row, order)].comment_report,
            order,
        ),
{
    let wanted = after(row, order);
    lemma_first_index(rows, wanted);
    let k = slot(rows, row, order);
    assert forall|j: int| 0 <= j < k implies !precedes(
        row.comment_report,
        (#[trigger] rows[j]).comment_report,
        order,
    ) by {
        assert(!wanted(rows[j]));
    }
    if k < rows.len() {
        assert(wanted(rows[k]));
    }
}

/// Placing a row keeps the rows in order.
pub proof fn lemma_place_ordered(
    rows: Seq<CommentReportView>,
    row: CommentReportView,
    order: PublishedOrder,
)
    requires
        ordered(rows, order),
    ensures
        ordered(place(rows, row, order), order),
{
    lemma_slot(rows, row, order);
    let k = slot(rows, row, order);
    let placed = place(rows, row, order);
    assert forall|i: int, j: int| 0 <= i < j < placed.len() implies !precedes(
        (#[trigger] placed[j]).comment_report,
        (#[trigger] placed[i]).comment_report,
        order,
    ) by {
        if j < k {
            assert(placed[i] == rows[i] && placed[j] == rows[j]);
        } else if j == k {
            assert(placed[i] == rows[i] && placed[j] == row);
        } else if i < k {
            assert(placed[i] == rows[i] && placed[j] == rows[j - 1]);
        } else if i == k {
            assert(placed[i] == row && placed[j] == rows[j - 1]);
            assert(precedes(row.comment_report, rows[k].comment_report, order));
            if j - 1 > k {
                assert(!precedes(rows[j - 1].comment_report, rows[k].comment_report, order));
            }
        } else {
            assert(placed[i] == rows[i - 1] && placed[j] == rows[j - 1]);
        }
    }
}

/// Placing a row whose report id no other row has keeps the rows in strict
/// order.
pub proof fn lemma_place_strictly_ordered(
    rows: Seq<CommentReportView>,
    row: CommentReportView,
    order: PublishedOrder,
)
    requires
        strictly_ordered(rows, order),
        forall|j: int|
            0 <= j < rows.len() ==> (#[trigger] rows[j]).comment_report.id
                != row.comment_report.id,
    ensures
        strictly_ordered(place(rows, row, order), order),
{
    lemma_slot(rows, row, order);
    let k = slot(rows, row, order);
    let placed = place(rows, row, order);
    assert forall|i: int, j: int| 0 <= i < j < placed.len() implies precedes(
        (#[trigger] placed[i]).comment_report,
        (#[trigger] placed[j]).comment_report,
        order,
    ) by {
        if j < k {
            assert(placed[i] == rows[i] && placed[j] == rows[j]);
        } else if j == k {
            assert(placed[i] == rows[i] && placed[j] == row);
            assert(!precedes(row.comment_report, rows[i].comment_report, order));
            assert(rows[i].comment_report.id != row.comment_report.id);
        } else if i < k {
            assert(placed[i] == rows[i] && placed[j] == rows[j - 1]);
        } else if i == k {
            assert(placed[i] == row && placed[j] == rows[j - 1]);
            assert(precedes(row.comment_report, rows[k].comment_report, order));
            if j - 1 > k {
                assert(precedes(rows[k].comment_report, rows[j - 1].comment_report, order));
            }
        } else {
            assert(placed[i] == rows[i - 1] && placed[j] == rows[j - 1]);
        }
    }
}

/// Rows in order come by the instant of filing: never later before earlier
/// when the oldest comes first, never earlier before later when the newest
/// comes first.
pub proof fn lemma_ordered_by_published(rows: Seq<CommentReportView>, order: PublishedOrder)
    requires
        ordered(rows, order),
    ensures
        forall|i: int, j: int|
            0 <= i < j < rows.len() ==> match order {
                PublishedOrder::OldestFirst => (#[trigger] rows[i]).comment_report.published <= (
                #[trigger] rows[j]).comment_report.published,
                PublishedOrder::NewestFirst => rows[i].comment_report.published
                    >= rows[j].comment_report.published,
            },
{
    assert forall|i: int, j: int| 0 <= i < j < rows.len() implies match order {
        PublishedOrder::OldestFirst => (#[trigger] rows[i]).comment_report.published <= (
        #[trigger] rows[j]).comment_report.published,
        PublishedOrder::NewestFirst => rows[i].comment_report.published
            >= rows[j].comment_report.published,
    } by {
        assert(!precedes(rows[j].comment_report, rows[i].comment_report, order));
    }
}

impl EntityStore {
    /// `row` is what one of the first `n` reports gives under `shape`.
    pub open spec fn given_by(&self, shape: QueryShape, row: CommentReportView, n: int) -> bool {
        exists|i: int|
            0 <= i < n && i < self.comment_reports@.len() && self.row_for(
                shape,
                #[trigger] self.comment_reports@[i],
            ) == Some(row)
    }
}

/// The rows selected from the first `n` reports are in the shape's order.
pub proof fn lemma_selected_upto_ordered(store: &EntityStore, shape: QueryShape, n: int)
    ensures
        ordered(store.selected_upto(shape, n), shape.order),
    decreases n,
{
    if n > 0 {
        lemma_selected_upto_ordered(store, shape, n - 1);
        let earlier = store.selected_upto(shape, n - 1);
        if let Some(row) = store.row_for(shape, store.comment_reports@[n - 1]) {
            lemma_place_ordered(earlier, row, shape.order);
        }
    }
}

/// Every row selected from the first `n` reports is the view of one of
/// them, and the shape keeps it.
pub proof fn lemma_selected_upto_sound(store: &EntityStore, shape: QueryShape, n: int)
    requires
        n <= store.comment_reports@.len(),
    ensures
        forall|k: int|
            0 <= k < store.selected_upto(shape, n).len() ==> store.given_by(
                shape,
                #[trigger] store.selected_upto(shape, n)[k],
                n,
            ),
    decreases n,
{
    if n > 0 {
        lemma_selected_upto_sound(store, shape, n - 1);
        let earlier = store.selected_upto(shape, n - 1);
        let now = store.selected_upto(shape, n);
        assert forall|k: int| 0 <= k < now.len() implies store.given_by(shape, #[trigger] now[k], n) by {
            match store.row_for(shape, store.comment_reports@[n - 1]) {
                Some(row) => {
                    lemma_slot(earlier, row, shape.order);
                    let s = slot(earlier, row, shape.order);
                    if k < s {
                        assert(now[k] == earlier[k]);
                        assert(store.given_by(shape, earlier[k], n - 1));
                    } else if k == s {
                        assert(now[k] == row);
                    } else {
                        assert(now[k] == earlier[k - 1]);
                        assert(store.given_by(shape, earlier[k - 1], n - 1));
                    }
                },
                None => {
                    assert(store.given_by(shape, earlier[k], n - 1));
                },
            }
        }
    }
}

/// Every row that one of the first `n` reports gives is among the rows
/// selected from them.
pub proof fn lemma_selected_upto_complete(store: &EntityStore, shape: QueryShape, n: int)
    requires
        n <= store.comment_reports@.len(),
    ensures
        forall|i: int|
            0 <= i < n ==> (store.row_for(shape, #[trigger] store.comment_reports@[i]) matches Some(
                row,
            ) ==> store.selected_upto(shape, n).contains(row)),
    decreases n,
{
    if n > 0 {
        lemma_selected_upto_complete(store, shape, n - 1);
        let earlier = store.selected_upto(shape, n - 1);
        let now = store.selected_upto(shape, n);
        assert forall|i: int| 0 <= i < n implies (store.row_for(
            shape,
            #[trigger] store.comment_reports@[i],
        ) matches Some(row) ==> now.contains(row)) by {
            if let Some(row) = store.row_for(shape, store.comment_reports@[i]) {
                match store.row_for(shape, store.comment_reports@[n - 1]) {
                    Some(last) => {
                        lemma_slot(earlier, last, shape.order);
                        let s = slot(earlier, last, shape.order);
                        if i == n - 1 {
                            assert(now[s] == row);
                        } else {
                            assert(earlier.contains(row));
                            let k = choose|k: int| 0 <= k < earlier.len() && earlier[k] == row;
                            if k < s {
                                assert(now[k] == row);
                            } else {
                                assert(now[k + 1] == row);
                            }
                        }
                    },
                    None => {
                        assert(earlier.contains(row));
                    },
                }
            }
        }
    }
}

/// Where no two reports share an id, the rows selected from the first `n`
/// reports are in strict order: no two of them tie.
pub proof fn lemma_selected_upto_strictly_ordered(store: &EntityStore, shape: QueryShape, n: int)
    requires
        n <= store.comment_reports@.len(),
        unique_keys(store.comment_reports@),
    ensures
        strictly_ordered(store.selected_upto(shape, n), shape.order),
    decreases n,
{
    if n > 0 {
        lemma_selected_upto_strictly_ordered(store, shape, n - 1);
        lemma_selected_upto_sound(store, shape, n - 1);
        let earlier = store.selected_upto(shape, n - 1);
        if let Some(row) = store.row_for(shape, store.comment_reports@[n - 1]) {
            assert forall|j: int| 0 <= j < earlier.len() implies (#[trigger] earlier[j]).comment_report.id
                != row.comment_report.id by {
                assert(store.given_by(shape, earlier[j], n - 1));
                let i = choose|i: int|
                    0 <= i < n - 1 && i < store.comment_reports@.len() && store.row_for(
                        shape,
                        #[trigger] store.comment_reports@[i],
                    ) == Some(earlier[j]);
                assert(earlier[j].comment_report == store.comment_reports@[i]);
                assert(row.comment_report == store.comment_reports@[n - 1]);
            }
            lemma_place_strictly_ordered(earlier, row, shape.order);
        }
    }
}

/// A window of ordered rows is ordered.
pub proof fn lemma_page_ordered(
    rows: Seq<CommentReportView>,
    order: PublishedOrder,
    limit: u64,
    offset: u128,
)
    ensures
        ordered(rows, order) ==> ordered(page_of(rows, limit, offset), order),
        strictly_ordered(rows, order) ==> strictly_ordered(page_of(rows, limit, offset), order),
{
    let page = page_of(rows, limit, offset);
    let lo: int = if offset < rows.len() {
        offset as int
    } else {
        rows.len() as int
    };
    if ordered(rows, order) {
        assert forall|i: int, j: int| 0 <= i < j < page.len() implies !precedes(
            (#[trigger] page[j]).comment_report,
            (#[trigger] page[i]).comment_report,
            order,
        ) by {
            assert(page[i] == rows[lo + i] && page[j] == rows[lo + j]);
        }
    }
    if strictly_ordered(rows, order) {
        assert forall|i: int, j: int| 0 <= i < j < page.len() implies precedes(
            (#[trigger] page[i]).comment_report,
            (#[trigger] page[j]).comment_report,
            order,
        ) by {
            assert(page[i] == rows[lo + i] && page[j] == rows[lo + j]);
        }
    }
}

} // verus!
