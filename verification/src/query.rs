//! The shape of a query on report views, and the one function that executes
//! it. The point lookup and the listing are two shapes over the same join.

use vstd::prelude::*;
use crate::entities::CommentReport;
use crate::error::ReportError;
use crate::ids::{CommentId, CommentReportId, CommunityId, PersonId};
use crate::pagination::{
    limit_and_offset, limit_for, offset_for, page_of, take_page, valid_limit, valid_page,
};
use crate::report_view::{CommentReportView, LocalUserView};
use crate::store::EntityStore;
use crate::laws::{lemma_answer_is_moderated, lemma_answer_sound, lemma_lookup_by_id};
use crate::ordering::{
    lemma_page_ordered, lemma_selected_upto_ordered, lemma_selected_upto_strictly_ordered,
};
use crate::table::{
    first_index, is_first, lemma_first_found, lemma_none_found, row_of, unique_keys,
};

verus! {

/// The order in which rows come out: by the instant at which the report
/// was filed, reports filed at the same instant by their id in the same
/// direction.
#[derive(Clone, Copy, Debug, PartialEq, Eq, Structural)]
pub enum PublishedOrder {
    /// The longest-waiting report first.
    OldestFirst,
    /// The most recent report first.
    NewestFirst,
}

/// What is layered on top of the join: which rows are kept, in which order
/// they come, and which window of them is returned.
#[derive(Clone, Copy, Debug, PartialEq, Eq)]
pub struct QueryShape {
    /// The person from whose standpoint the rows are composed.
    pub viewer: PersonId,
    /// Keep only the report with this id.
    pub report_id: Option<CommentReportId>,
    /// Keep only reports in this community.
    pub community_id: Option<CommunityId>,
    /// Keep only reports against this comment.
    pub comment_id: Option<CommentId>,
    /// Keep only open reports.
    pub unresolved_only: bool,
    /// Keep only reports in communities that the viewer moderates.
    pub moderated_only: bool,
    pub order: PublishedOrder,
    /// The most rows to return.
    pub limit: u64,
    /// The number of leading rows to leave out.
    pub offset: u128,
}

/// `a` comes strictly before `b` in `order`.
pub open spec fn precedes(a: CommentReport, b: CommentReport, order: PublishedOrder) -> bool {
    match order {
        PublishedOrder::OldestFirst => a.published < b.published || (a.published == b.published
            && a.id.0 < b.id.0),
        PublishedOrder::NewestFirst => a.published > b.published || (a.published == b.published
            && a.id.0 > b.id.0),
    }
}

/// The rows that come strictly after `row` in `order`.
pub open spec fn after(row: CommentReportView, order: PublishedOrder) -> spec_fn(
    CommentReportView,
) -> bool {
    |other: CommentReportView| precedes(row.comment_report, other.comment_report, order)
}

/// Where `row` goes among `rows`: before the first row that comes strictly
/// after it, at the end where there is none.
pub open spec fn slot(rows: Seq<CommentReportView>, row: CommentReportView, order: PublishedOrder)
    -> int {
    match first_index(rows, after(row, order)) {
        Some(i) => i,
        None => rows.len() as int,
    }
}

/// `rows` with `row` put in its slot.
pub open spec fn place(rows: Seq<CommentReportView>, row: CommentReportView, order: PublishedOrder)
    -> Seq<CommentReportView> {
    rows.insert(slot(rows, row, order), row)
}

/// No row of `rows` comes strictly before an earlier one.
pub open spec fn ordered(rows: Seq<CommentReportView>, order: PublishedOrder) -> bool {
    forall|i: int, j: int|
        0 <= i < j < rows.len() ==> !precedes(
            (#[trigger] rows[j]).comment_report,
            (#[trigger] rows[i]).comment_report,
            order,
        )
}

/// Every row of `rows` comes strictly before the later ones.
pub open spec fn strictly_ordered(rows: Seq<CommentReportView>, order: PublishedOrder) -> bool {
    forall|i: int, j: int|
        0 <= i < j < rows.len() ==> precedes(
            (#[trigger] rows[i]).comment_report,
            (#[trigger] rows[j]).comment_report,
            order,
        )
}

impl QueryShape {
    /// Whether `row` passes the filters of the shape: the ids asked for and
    /// the resolution state. The viewer's role plays no part in this.
    pub open spec fn filters_keep(&self, row: CommentReportView) -> bool {
        &&& self.report_id matches Some(id) ==> row.comment_report.id == id
        &&& self.community_id matches Some(id) ==> row.post.community_id == id
        &&& self.comment_id matches Some(id) ==> row.comment_report.comment_id == id
        &&& self.unresolved_only ==> !row.comment_report.resolved
    }

    /// Whether the shape keeps `row`: it passes the filters and, where only
    /// moderated communities are kept, the row that the join on the viewer
    /// and the community matched says that the viewer moderates it.
    pub open spec fn admits(&self, store: &EntityStore, row: CommentReportView) -> bool {
        &&& self.filters_keep(row)
        &&& self.moderated_only ==> (row_of(
            store.community_actions@,
            (self.viewer, row.post.community_id),
        ) matches Some(actions) && actions.is_moderator())
    }

    /// The shape of a point lookup: the one report `report_id`, whoever the
    /// viewer is.
    pub open spec fn point_spec(report_id: CommentReportId, viewer: PersonId) -> QueryShape {
        QueryShape {
            viewer,
            report_id: Some(report_id),
            community_id: None,
            comment_id: None,
            unresolved_only: false,
            moderated_only: false,
            order: PublishedOrder::OldestFirst,
            limit: 1,
            offset: 0,
        }
    }

    /// The shape of a point lookup.
    pub fn point(report_id: CommentReportId, viewer: PersonId) -> (shape: QueryShape)
        ensures
            shape == Self::point_spec(report_id, viewer),
    {
        QueryShape {
            viewer,
            report_id: Some(report_id),
            community_id: None,
            comment_id: None,
            unresolved_only: false,
            moderated_only: false,
            order: PublishedOrder::OldestFirst,
            limit: 1,
            offset: 0,
        }
    }

    /// Decides whether the shape keeps `row`.
    pub fn keeps(&self, store: &EntityStore, row: &CommentReportView) -> (yes: bool)
        ensures
            yes == self.admits(store, *row),
    {
        let by_report = match self.report_id {
            Some(id) => row.comment_report.id == id,
            None => true,
        };
        let by_community = match self.community_id {
            Some(id) => row.post.community_id == id,
            None => true,
        };
        let by_comment = match self.comment_id {
            Some(id) => row.comment_report.comment_id == id,
            None => true,
        };
        let by_state = !self.unresolved_only || !row.comment_report.resolved;
        by_report && by_community && by_comment && by_state && (!self.moderated_only
            || store.is_moderator(self.viewer, row.post.community_id))
    }
}

/// Decides whether `a` comes strictly before `b` in `order`.
pub fn comes_before(a: &CommentReport, b: &CommentReport, order: PublishedOrder) -> (yes: bool)
    ensures
        yes == precedes(*a, *b, order),
{
    match order {
        PublishedOrder::OldestFirst => a.published < b.published || (a.published == b.published
            && a.id.0 < b.id.0),
        PublishedOrder::NewestFirst => a.published > b.published || (a.published == b.published
            && a.id.0 > b.id.0),
    }
}

/// Finds the slot of `row` among `rows`.
fn find_slot(rows: &Vec<CommentReportView>, row: &CommentReportView, order: PublishedOrder) -> (k:
    usize)
    ensures
        k as int == slot(rows@, *row, order),
        k <= rows.len(),
{
    let ghost wanted = after(*row, order);
    let mut k: usize = 0;
    while k < rows.len()
        invariant
            k <= rows.len(),
            wanted == after(*row, order),
            forall|j: int| 0 <= j < k ==> !wanted(#[trigger] rows@[j]),
        decreases rows.len() - k,
    {
        if comes_before(&row.comment_report, &rows[k].comment_report, order) {
            proof {
                assert(wanted(rows@[k as int]));
                assert(is_first(rows@, wanted, k as int));
                lemma_first_found(rows@, wanted, k as int);
            }
            return k;
        }
        k += 1;
    }
    proof {
        lemma_none_found(rows@, wanted);
    }
    k
}

impl EntityStore {
    /// The row that `report` gives under `shape`: its view, where it composes
    /// and the shape keeps it.
    pub open spec fn row_for(&self, shape: QueryShape, report: CommentReport) -> Option<
        CommentReportView,
    > {
        match self.view_of(report, shape.viewer) {
            Some(row) => if shape.admits(self, row) {
                Some(row)
            } else {
                None
            },
            None => None,
        }
    }

    /// The rows that the first `n` reports give under `shape`, in the shape's
    /// order.
    pub open spec fn selected_upto(&self, shape: QueryShape, n: int) -> Seq<CommentReportView>
        decreases n,
    {
        if n <= 0 {
            Seq::empty()
        } else {
            let earlier = self.selected_upto(shape, n - 1);
            match self.row_for(shape, self.comment_reports@[n - 1]) {
                Some(row) => place(earlier, row, shape.order),
                None => earlier,
            }
        }
    }

    /// All rows that `shape` keeps, in its order, before the window is cut.
    pub open spec fn selected(&self, shape: QueryShape) -> Seq<CommentReportView> {
        self.selected_upto(shape, self.comment_reports@.len() as int)
    }

    /// What executing `shape` returns: the window of the kept rows.
    pub open spec fn answer(&self, shape: QueryShape) -> Seq<CommentReportView> {
        page_of(self.selected(shape), shape.limit, shape.offset)
    }

    /// What a point lookup of `report_id` finds for `viewer`.
    pub open spec fn lookup(&self, report_id: CommentReportId, viewer: PersonId) -> Option<
        CommentReportView,
    > {
        let rows = self.answer(QueryShape::point_spec(report_id, viewer));
        if rows.len() > 0 {
            Some(rows[0])
        } else {
            None
        }
    }

    /// The view of the first report with the id `report_id`, for `viewer`.
    pub open spec fn view_by_id(&self, report_id: CommentReportId, viewer: PersonId) -> Option<
        CommentReportView,
    > {
        match row_of(self.comment_reports@, report_id) {
            Some(report) => self.view_of(report, viewer),
            None => None,
        }
    }

    /// Executes `shape`: composes the view of every report, keeps the rows
    /// that the shape admits, orders them and cuts the window.
    ///
    /// The rows come in the shape's order, without ties where report ids
    /// are unique. Each is the view of a report of the snapshot that the
    /// shape keeps. A shape that keeps moderated communities only returns no
    /// report of a community that the viewer does not moderate.
    pub fn execute(&self, shape: &QueryShape) -> (rows: Vec<CommentReportView>)
        ensures
            rows@ == self.answer(*shape),
            ordered(rows@, shape.order),
            unique_keys(self.comment_reports@) ==> strictly_ordered(rows@, shape.order),
            forall|k: int|
                0 <= k < rows@.len() ==> self.given_by(
                    *shape,
                    #[trigger] rows@[k],
                    self.comment_reports@.len() as int,
                ),
            shape.moderated_only ==> forall|k: int|
                0 <= k < rows@.len() ==> self.moderates(
                    shape.viewer,
                    (#[trigger] rows@[k]).community.id,
                ),
    {
        proof {
            let n = self.comment_reports@.len() as int;
            lemma_selected_upto_ordered(self, *shape, n);
            if unique_keys(self.comment_reports@) {
                lemma_selected_upto_strictly_ordered(self, *shape, n);
            }
            lemma_page_ordered(self.selected(*shape), shape.order, shape.limit, shape.offset);
            lemma_answer_sound(self, *shape);
            if shape.moderated_only {
                lemma_answer_is_moderated(self, *shape);
            }
        }
        let mut rows: Vec<CommentReportView> = Vec::new();
        let mut i: usize = 0;
        while i < self.comment_reports.len()
            invariant
                i <= self.comment_reports.len(),
                rows@ == self.selected_upto(*shape, i as int),
            decreases self.comment_reports.len() - i,
        {
            match self.compose(&self.comment_reports[i], shape.viewer) {
                Some(row) => {
                    if shape.keeps(self, &row) {
                        let k = find_slot(&rows, &row, shape.order);
                        rows.insert(k, row);
                    }
                },
                None => {},
            }
            i += 1;
        }
        take_page(rows, shape.limit, shape.offset)
    }
}

/// The outcome of a point lookup: the row, or `NotFound`.
pub open spec fn found_or_not(row: Option<CommentReportView>) -> Result<
    CommentReportView,
    ReportError,
> {
    match row {
        Some(row) => Ok(row),
        None => Err(ReportError::NotFound),
    }
}

impl CommentReportView {
    /// Returns the view of the report `report_id` for the viewer
    /// `my_person_id`, or `NotFound`. No role is checked here: a caller that
    /// needs access control reads the community from the row, or lists.
    pub fn read(store: &EntityStore, report_id: CommentReportId, my_person_id: PersonId) -> (r:
        Result<CommentReportView, ReportError>)
        ensures
            r == found_or_not(store.lookup(report_id, my_person_id)),
            unique_keys(store.comment_reports@) ==> r == found_or_not(
                store.view_by_id(report_id, my_person_id),
            ),
            r matches Ok(row) ==> row.comment_report.id == report_id,
    {
        proof {
            if unique_keys(store.comment_reports@) {
                lemma_lookup_by_id(store, report_id, my_person_id);
            }
        }
        let shape = QueryShape::point(report_id, my_person_id);
        let mut rows = store.execute(&shape);
        if rows.len() > 0 {
            Ok(rows.remove(0))
        } else {
            Err(ReportError::NotFound)
        }
    }
}

/// The filters and the page of a listing of report views.
#[derive(Clone, Copy, Debug, PartialEq, Eq)]
pub struct CommentReportQuery {
    pub community_id: Option<CommunityId>,
    pub comment_id: Option<CommentId>,
    pub page: Option<i64>,
    pub limit: Option<i64>,
    pub unresolved_only: bool,
}

impl Default for CommentReportQuery {
    fn default() -> (query: Self)
        ensures
            query == (CommentReportQuery {
                community_id: None,
                comment_id: None,
                page: None,
                limit: None,
                unresolved_only: false,
            }),
    {
        CommentReportQuery {
            community_id: None,
            comment_id: None,
            page: None,
            limit: None,
            unresolved_only: false,
        }
    }
}

impl CommentReportQuery {
    /// The order of a listing: an open queue is worked oldest first, the
    /// full history is read newest first.
    pub open spec fn order(&self) -> PublishedOrder {
        if self.unresolved_only {
            PublishedOrder::OldestFirst
        } else {
            PublishedOrder::NewestFirst
        }
    }

    /// The pagination parameters are in range.
    pub open spec fn valid(&self) -> bool {
        valid_page(self.page) && valid_limit(self.limit)
    }

    /// The shape of this listing for `user`. Whoever is no admin sees only
    /// reports in communities that they moderate.
    pub open spec fn shape(&self, user: &LocalUserView) -> QueryShape {
        QueryShape {
            viewer: user.person.id,
            report_id: None,
            community_id: self.community_id,
            comment_id: self.comment_id,
            unresolved_only: self.unresolved_only,
            moderated_only: !user.local_user.admin,
            order: self.order(),
            limit: limit_for(self.limit) as u64,
            offset: offset_for(self.page, self.limit) as u128,
        }
    }

    /// Builds the shape of this listing for `user`, or rejects its
    /// pagination parameters.
    pub fn to_shape(&self, user: &LocalUserView) -> (r: Result<QueryShape, ReportError>)
        ensures
            match r {
                Ok(shape) => self.valid() && shape == self.shape(user),
                Err(e) => e == ReportError::InvalidArgument && !self.valid(),
            },
    {
        let (limit, offset) = match limit_and_offset(self.page, self.limit) {
            Ok(pair) => pair,
            Err(e) => { return Err(e); },
        };
        Ok(
            QueryShape {
                viewer: user.person.id,
                report_id: None,
                community_id: self.community_id,
                comment_id: self.comment_id,
                unresolved_only: self.unresolved_only,
                moderated_only: !user.local_user.admin,
                order: if self.unresolved_only {
                    PublishedOrder::OldestFirst
                } else {
                    PublishedOrder::NewestFirst
                },
                limit,
                offset,
            },
        )
    }

    /// Lists the report views that `user` may see under this query. An
    /// empty list is no error; only pagination parameters out of range are.
    pub fn list(self, store: &EntityStore, user: &LocalUserView) -> (r: Result<
        Vec<CommentReportView>,
        ReportError,
    >)
        ensures
            match r {
                Ok(rows) => {
                    &&& self.valid()
                    &&& rows@ == store.answer(self.shape(user))
                    &&& ordered(rows@, self.order())
                    &&& unique_keys(store.comment_reports@) ==> strictly_ordered(
                        rows@,
                        self.order(),
                    )
                    &&& forall|k: int|
                        0 <= k < rows@.len() ==> store.given_by(
                            self.shape(user),
                            #[trigger] rows@[k],
                            store.comment_reports@.len() as int,
                        )
                    &&& !user.local_user.admin ==> forall|k: int|
                        0 <= k < rows@.len() ==> store.moderates(
                            user.person.id,
                            (#[trigger] rows@[k]).community.id,
                        )
                },
                Err(e) => e == ReportError::InvalidArgument && !self.valid(),
            },
    {
        match self.to_shape(user) {
            Ok(shape) => Ok(store.execute(&shape)),
            Err(e) => Err(e),
        }
    }
}

} // verus!
