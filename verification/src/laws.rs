//! Laws that relate the operations to each other and to the relationship
//! tables, for well-formed snapshots.

use vstd::prelude::*;
use crate::entities::{CommentActions, CommentReport, CommunityActions, PersonActions};
use crate::ids::{CommentId, CommentReportId, CommunityId, PersonId};
use crate::ordering::{lemma_selected_upto_complete, lemma_selected_upto_sound, lemma_slot};
use crate::query::{after, place, slot, QueryShape};
use crate::report_view::{banned_in, CommentReportView};
use crate::resolution::resolve_in;
use crate::store::EntityStore;
use crate::table::{
    first_index, has_row, lemma_first_index, lemma_none_found, lemma_row_of_has_row,
    lemma_row_of_unique, row_of, unique_keys, with_key, Keyed,
};

verus! {

/// Reading the moderator and the ban relation from the row that a join on
/// (person, community) matches gives what the relation itself says. The
/// listing does the first, the count the second.
pub proof fn lemma_community_relations_by_row(
    store: &EntityStore,
    person: PersonId,
    community: CommunityId,
)
    requires
        unique_keys(store.community_actions@),
    ensures
        store.moderates(person, community) == (row_of(
            store.community_actions@,
            (person, community),
        ) matches Some(row) && row.is_moderator()),
        store.banned_from(person, community) == banned_in(
            row_of(store.community_actions@, (person, community)),
            store.now,
        ),
{
    let rows = store.community_actions@;
    let wanted = with_key::<CommunityActions>((person, community));
    lemma_first_index(rows, wanted);
    match first_index(rows, wanted) {
        Some(i) => {
            assert(wanted(rows[i]));
            assert forall|j: int|
                0 <= j < rows.len() && (#[trigger] rows[j]).person_id == person
                    && rows[j].community_id == community implies j == i by {
                if j != i {
                    assert(rows[i].key() != rows[j].key());
                }
            }
        },
        None => {
            assert forall|j: int| 0 <= j < rows.len() implies !((#[trigger] rows[j]).person_id
                == person && rows[j].community_id == community) by {
                assert(!wanted(rows[j]));
            }
        },
    }
}

/// Reading the block relation from the row that a join on (person, target)
/// matches gives what the relation itself says.
pub proof fn lemma_blocks_by_row(store: &EntityStore, person: PersonId, target: PersonId)
    requires
        unique_keys(store.person_actions@),
    ensures
        store.blocks(person, target) == (row_of(store.person_actions@, (person, target)) matches Some(
            row,
        ) && row.blocked.is_some()),
{
    let rows = store.person_actions@;
    let wanted = with_key::<PersonActions>((person, target));
    lemma_first_index(rows, wanted);
    match first_index(rows, wanted) {
        Some(i) => {
            assert(wanted(rows[i]));
            assert forall|j: int|
                0 <= j < rows.len() && (#[trigger] rows[j]).person_id == person && rows[j].target_id
                    == target implies j == i by {
                if j != i {
                    assert(rows[i].key() != rows[j].key());
                }
            }
        },
        None => {
            assert forall|j: int| 0 <= j < rows.len() implies !((#[trigger] rows[j]).person_id
                == person && rows[j].target_id == target) by {
                assert(!wanted(rows[j]));
            }
        },
    }
}

/// Reading the save relation from the row that a join on (person, comment)
/// matches gives what the relation itself says.
pub proof fn lemma_saved_by_row(store: &EntityStore, person: PersonId, comment: CommentId)
    requires
        unique_keys(store.comment_actions@),
    ensures
        store.has_saved(person, comment) == (row_of(store.comment_actions@, (person, comment)) matches Some(
            row,
        ) && row.saved.is_some()),
{
    let rows = store.comment_actions@;
    let wanted = with_key::<CommentActions>((person, comment));
    lemma_first_index(rows, wanted);
    match first_index(rows, wanted) {
        Some(i) => {
            assert(wanted(rows[i]));
            assert forall|j: int|
                0 <= j < rows.len() && (#[trigger] rows[j]).person_id == person
                    && rows[j].comment_id == comment implies j == i by {
                if j != i {
                    assert(rows[i].key() != rows[j].key());
                }
            }
        },
        None => {
            assert forall|j: int| 0 <= j < rows.len() implies !((#[trigger] rows[j]).person_id
                == person && rows[j].comment_id == comment) by {
                assert(!wanted(rows[j]));
            }
        },
    }
}

/// A person is an admin exactly when the join on their admin account
/// matches a row.
pub proof fn lemma_admin_by_row(store: &EntityStore, person: PersonId)
    ensures
        store.is_admin(person) == (row_of(store.local_users@, (person, true)) is Some),
{
    let rows = store.local_users@;
    lemma_row_of_has_row(rows, (person, true));
    if has_row(rows, (person, true)) {
        let i = choose|i: int| 0 <= i < rows.len() && (#[trigger] rows[i]).key() == (person, true);
        assert(rows[i].person_id == person && rows[i].admin);
    }
    if store.is_admin(person) {
        let i = choose|i: int|
            0 <= i < rows.len() && {
                let row = #[trigger] rows[i];
                row.person_id == person && row.admin
            };
        assert(rows[i].key() == (person, true));
    }
}

/// A view row holds the rows that its report refers to: each joined row has
/// the key that the join asked for.
pub proof fn lemma_view_joins(store: &EntityStore, report: CommentReport, viewer: PersonId)
    requires
        store.view_of(report, viewer) is Some,
    ensures
        ({
            let row = store.view_of(report, viewer).unwrap();
            &&& row.comment_report == report
            &&& row.comment.id == report.comment_id
            &&& row.post.id == row.comment.post_id
            &&& row.community.id == row.post.community_id
            &&& row.creator.id == report.creator_id
            &&& row.comment_creator.id == row.comment.creator_id
            &&& row.counts.comment_id == report.comment_id
            &&& store.community_of(report) == Some(row.community.id)
            &&& row.resolver matches Some(resolver) ==> report.resolver_id == Some(resolver.id)
            &&& report.resolver_id is None ==> row.resolver is None
        }),
{
    let row = store.view_of(report, viewer).unwrap();
    lemma_row_of_has_row(store.comments@, report.comment_id);
    lemma_row_of_has_row(store.posts@, row.comment.post_id);
    lemma_row_of_has_row(store.communities@, row.post.community_id);
    lemma_row_of_has_row(store.persons@, report.creator_id);
    lemma_row_of_has_row(store.persons@, row.comment.creator_id);
    lemma_row_of_has_row(store.comment_aggregates@, report.comment_id);
    if let Some(resolver) = report.resolver_id {
        lemma_row_of_has_row(store.persons@, resolver);
    }
}

/// In a well-formed snapshot every flag of a view row says what the
/// relationship tables say when they are asked directly.
pub proof fn lemma_view_matches_relations(
    store: &EntityStore,
    report: CommentReport,
    viewer: PersonId,
)
    requires
        store.well_formed(),
        store.view_of(report, viewer) is Some,
    ensures
        ({
            let row = store.view_of(report, viewer).unwrap();
            let author = row.comment_creator.id;
            let community = row.community.id;
            &&& row.creator_is_moderator == store.moderates(author, community)
            &&& row.creator_banned_from_community == store.banned_from(author, community)
            &&& row.creator_is_admin == store.is_admin(author)
            &&& row.creator_blocked == store.blocks(viewer, author)
            &&& row.saved == store.has_saved(viewer, row.comment.id)
            &&& row.subscribed == store.subscription_of(viewer, community)
            &&& row.my_vote == store.vote_of(viewer, row.comment.id)
        }),
{
    let row = store.view_of(report, viewer).unwrap();
    lemma_view_joins(store, report, viewer);
    lemma_community_relations_by_row(store, row.comment.creator_id, row.post.community_id);
    lemma_admin_by_row(store, row.comment.creator_id);
    lemma_blocks_by_row(store, viewer, row.comment.creator_id);
    lemma_saved_by_row(store, viewer, report.comment_id);
}

/// In a well-formed snapshot every report has a view, whoever looks.
pub proof fn lemma_view_exists(store: &EntityStore, i: int, viewer: PersonId)
    requires
        store.well_formed(),
        0 <= i < store.comment_reports@.len(),
    ensures
        store.view_of(store.comment_reports@[i], viewer) is Some,
{
    let report = store.comment_reports@[i];
    assert(store.references_resolve(report));
    lemma_row_of_has_row(store.comments@, report.comment_id);
    let comment = row_of(store.comments@, report.comment_id).unwrap();
    lemma_row_of_has_row(store.posts@, comment.post_id);
    let post = row_of(store.posts@, comment.post_id).unwrap();
    lemma_row_of_has_row(store.communities@, post.community_id);
    lemma_row_of_has_row(store.persons@, report.creator_id);
    lemma_row_of_has_row(store.persons@, comment.creator_id);
    lemma_row_of_has_row(store.comment_aggregates@, report.comment_id);
}

/// While no report has the id, a point lookup selects nothing.
pub proof fn lemma_point_selects_nothing(
    store: &EntityStore,
    id: CommentReportId,
    viewer: PersonId,
    n: int,
)
    requires
        n <= store.comment_reports@.len(),
        forall|j: int| 0 <= j < n ==> (#[trigger] store.comment_reports@[j]).id != id,
    ensures
        store.selected_upto(QueryShape::point_spec(id, viewer), n) == Seq::<CommentReportView>::empty(),
    decreases n,
{
    if n > 0 {
        lemma_point_selects_nothing(store, id, viewer, n - 1);
        let report = store.comment_reports@[n - 1];
        assert(report.id != id);
    }
}

/// The rows that a point lookup selects, once the one report with the id
/// has been passed: its view, if it has one.
pub proof fn lemma_point_selects_one(
    store: &EntityStore,
    i: int,
    viewer: PersonId,
    n: int,
)
    requires
        unique_keys(store.comment_reports@),
        0 <= i < n <= store.comment_reports@.len(),
    ensures
        store.selected_upto(QueryShape::point_spec(store.comment_reports@[i].id, viewer), n)
            == match store.view_of(store.comment_reports@[i], viewer) {
            Some(row) => seq![row],
            None => Seq::empty(),
        },
    decreases n,
{
    let report = store.comment_reports@[i];
    let shape = QueryShape::point_spec(report.id, viewer);
    if n == i + 1 {
        assert forall|j: int| 0 <= j < i implies (#[trigger] store.comment_reports@[j]).id
            != report.id by {
            assert(store.comment_reports@[j].key() != store.comment_reports@[i].key());
        }
        lemma_point_selects_nothing(store, report.id, viewer, i);
        let earlier = store.selected_upto(shape, i);
        assert(earlier.len() == 0);
        if let Some(row) = store.view_of(report, viewer) {
            lemma_none_found(earlier, after(row, shape.order));
            assert(slot(earlier, row, shape.order) == 0);
            assert(place(earlier, row, shape.order) =~= seq![row]);
        }
    } else {
        lemma_point_selects_one(store, i, viewer, n - 1);
        assert(store.comment_reports@[n - 1].key() != store.comment_reports@[i].key());
    }
}

/// Where no two reports share an id, a point lookup finds the view of the
/// report with the id.
pub proof fn lemma_lookup_of_existing(store: &EntityStore, i: int, viewer: PersonId)
    requires
        unique_keys(store.comment_reports@),
        0 <= i < store.comment_reports@.len(),
    ensures
        store.lookup(store.comment_reports@[i].id, viewer) == store.view_of(
            store.comment_reports@[i],
            viewer,
        ),
{
    lemma_point_selects_one(store, i, viewer, store.comment_reports@.len() as int);
}

/// A point lookup of an id that no report has finds nothing.
pub proof fn lemma_lookup_of_missing(store: &EntityStore, id: CommentReportId, viewer: PersonId)
    requires
        !has_row(store.comment_reports@, id),
    ensures
        store.lookup(id, viewer) is None,
{
    assert forall|j: int| 0 <= j < store.comment_reports@.len() implies (
    #[trigger] store.comment_reports@[j]).id != id by {
        if store.comment_reports@[j].id == id {
            assert(store.comment_reports@[j].key() == id);
        }
    }
    lemma_point_selects_nothing(store, id, viewer, store.comment_reports@.len() as int);
}

/// Where no two reports share an id, a point lookup finds the view of the
/// report with the id, and nothing where no report has it.
pub proof fn lemma_lookup_by_id(store: &EntityStore, id: CommentReportId, viewer: PersonId)
    requires
        unique_keys(store.comment_reports@),
    ensures
        store.lookup(id, viewer) == store.view_by_id(id, viewer),
{
    let reports = store.comment_reports@;
    lemma_row_of_has_row(reports, id);
    if has_row(reports, id) {
        let i = choose|i: int| 0 <= i < reports.len() && (#[trigger] reports[i]).key() == id;
        lemma_row_of_unique(reports, i);
        lemma_lookup_of_existing(store, i, viewer);
    } else {
        lemma_lookup_of_missing(store, id, viewer);
    }
}

/// Every row that executing a shape returns is the view of a report of the
/// snapshot, and the shape keeps it.
pub proof fn lemma_answer_sound(store: &EntityStore, shape: QueryShape)
    ensures
        forall|k: int|
            0 <= k < store.answer(shape).len() ==> store.given_by(
                shape,
                #[trigger] store.answer(shape)[k],
                store.comment_reports@.len() as int,
            ),
{
    let n = store.comment_reports@.len() as int;
    lemma_selected_upto_sound(store, shape, n);
    let all = store.selected(shape);
    let page = store.answer(shape);
    let lo: int = if shape.offset < all.len() {
        shape.offset as int
    } else {
        all.len() as int
    };
    assert forall|k: int| 0 <= k < page.len() implies store.given_by(shape, #[trigger] page[k], n) by {
        assert(page[k] == all[lo + k]);
    }
}

/// Whoever lists under a shape that keeps moderated communities only
/// receives no report of a community that they do not moderate.
pub proof fn lemma_answer_is_moderated(store: &EntityStore, shape: QueryShape)
    requires
        shape.moderated_only,
    ensures
        forall|k: int|
            0 <= k < store.answer(shape).len() ==> store.moderates(
                shape.viewer,
                (#[trigger] store.answer(shape)[k]).community.id,
            ),
{
    lemma_answer_sound(store, shape);
    let page = store.answer(shape);
    let n = store.comment_reports@.len() as int;
    assert forall|k: int| 0 <= k < page.len() implies store.moderates(
        shape.viewer,
        (#[trigger] page[k]).community.id,
    ) by {
        let row = page[k];
        assert(store.given_by(shape, row, n));
        let i = choose|i: int|
            0 <= i < n && i < store.comment_reports@.len() && store.row_for(
                shape,
                #[trigger] store.comment_reports@[i],
            ) == Some(row);
        let report = store.comment_reports@[i];
        lemma_view_joins(store, report, shape.viewer);
        let key = (shape.viewer, row.post.community_id);
        lemma_row_of_has_row(store.community_actions@, key);
        let actions = row_of(store.community_actions@, key).unwrap();
        let j = choose|j: int|
            0 <= j < store.community_actions@.len() && store.community_actions@[j] == actions;
        assert(store.community_actions@[j].key() == key);
    }
}

/// In a well-formed snapshot the count of open reports is the number of
/// rows that the listing of open reports selects for the same viewer and
/// community: the two ways of asking who moderates agree.
pub proof fn lemma_count_is_queue_length(store: &EntityStore, shape: QueryShape)
    requires
        store.well_formed(),
        shape.unresolved_only,
        shape.report_id is None,
        shape.comment_id is None,
    ensures
        store.unresolved_count(shape.viewer, !shape.moderated_only, shape.community_id)
            == store.selected(shape).len(),
{
    lemma_count_upto_is_queue_length(store, shape, store.comment_reports@.len() as int);
}

/// The count over the first `n` reports is the number of rows selected from
/// them.
pub proof fn lemma_count_upto_is_queue_length(store: &EntityStore, shape: QueryShape, n: int)
    requires
        store.well_formed(),
        shape.unresolved_only,
        shape.report_id is None,
        shape.comment_id is None,
        0 <= n <= store.comment_reports@.len(),
    ensures
        store.unresolved_upto(shape.viewer, !shape.moderated_only, shape.community_id, n)
            == store.selected_upto(shape, n).len(),
    decreases n,
{
    if n > 0 {
        lemma_count_upto_is_queue_length(store, shape, n - 1);
        let report = store.comment_reports@[n - 1];
        lemma_view_exists(store, n - 1, shape.viewer);
        lemma_view_joins(store, report, shape.viewer);
        let row = store.view_of(report, shape.viewer).unwrap();
        lemma_community_relations_by_row(store, shape.viewer, row.post.community_id);
        let earlier = store.selected_upto(shape, n - 1);
        lemma_slot(earlier, row, shape.order);
        assert(store.row_for(shape, report) is Some <==> store.counted(
            report,
            shape.viewer,
            !shape.moderated_only,
            shape.community_id,
        ));
    }
}

/// What resolving does to each report: it keeps the id, puts the reports
/// with the id into the resolved state with the resolver and the time, and
/// leaves the others as they were.
pub proof fn lemma_resolve_in(
    reports: Seq<CommentReport>,
    id: CommentReportId,
    resolver: PersonId,
    now: i64,
)
    ensures
        resolve_in(reports, id, resolver, now).len() == reports.len(),
        forall|i: int|
            0 <= i < reports.len() ==> {
                let after = #[trigger] resolve_in(reports, id, resolver, now)[i];
                &&& after.id == reports[i].id
                &&& reports[i].id != id ==> after == reports[i]
                &&& reports[i].id == id ==> {
                    &&& after.resolved
                    &&& after.resolver_id == Some(resolver)
                    &&& after.updated == Some(now)
                    &&& after.well_formed()
                    &&& after.published == reports[i].published
                    &&& after.creator_id == reports[i].creator_id
                    &&& after.comment_id == reports[i].comment_id
                    &&& after.reason == reports[i].reason
                    &&& after.original_comment_text == reports[i].original_comment_text
                }
            },
{
}

/// Resolving is idempotent in the shape of the state, and the last resolver
/// wins: resolving twice leaves what the second resolution alone leaves.
pub proof fn lemma_resolve_last_wins(
    reports: Seq<CommentReport>,
    id: CommentReportId,
    first: PersonId,
    first_at: i64,
    second: PersonId,
    second_at: i64,
)
    ensures
        resolve_in(resolve_in(reports, id, first, first_at), id, second, second_at) == resolve_in(
            reports,
            id,
            second,
            second_at,
        ),
{
    assert(resolve_in(resolve_in(reports, id, first, first_at), id, second, second_at)
        =~= resolve_in(reports, id, second, second_at));
}

/// Resolving a report of another id leaves a report as it is.
pub proof fn lemma_resolve_other(
    reports: Seq<CommentReport>,
    id: CommentReportId,
    resolver: PersonId,
    now: i64,
)
    requires
        !has_row(reports, id),
    ensures
        resolve_in(reports, id, resolver, now) == reports,
{
    assert forall|i: int| 0 <= i < reports.len() implies reports[i].id != id by {
        if reports[i].id == id {
            assert(reports[i].key() == id);
        }
    }
    assert(resolve_in(reports, id, resolver, now) =~= reports);
}

/// Resolving keeps a snapshot well formed.
pub proof fn lemma_resolve_keeps_well_formed(
    before: &EntityStore,
    after: &EntityStore,
    id: CommentReportId,
    resolver: PersonId,
)
    requires
        before.well_formed(),
        after.same_but_reports(before),
        after.comment_reports@ == resolve_in(before.comment_reports@, id, resolver, before.now),
    ensures
        after.well_formed(),
{
    lemma_resolve_in(before.comment_reports@, id, resolver, before.now);
    assert forall|i: int| 0 <= i < after.comment_reports@.len() implies {
        &&& (#[trigger] after.comment_reports@[i]).well_formed()
        &&& after.references_resolve(after.comment_reports@[i])
    } by {
        let was = before.comment_reports@[i];
        assert(was.well_formed() && before.references_resolve(was));
    }
    assert forall|i: int, j: int|
        0 <= i < after.comment_reports@.len() && 0 <= j < after.comment_reports@.len() && i
            != j implies (#[trigger] after.comment_reports@[i]).key() != (
    #[trigger] after.comment_reports@[j]).key() by {
        assert(before.comment_reports@[i].key() != before.comment_reports@[j].key());
    }
}

/// The row that a point lookup finds is the view of a report with the id
/// that was asked for.
pub proof fn lemma_lookup_has_id(store: &EntityStore, id: CommentReportId, viewer: PersonId)
    requires
        store.lookup(id, viewer) is Some,
    ensures
        store.lookup(id, viewer).unwrap().comment_report.id == id,
        store.comment_reports@.contains(store.lookup(id, viewer).unwrap().comment_report),
{
    let shape = QueryShape::point_spec(id, viewer);
    lemma_answer_sound(store, shape);
    let row = store.answer(shape)[0];
    let n = store.comment_reports@.len() as int;
    assert(store.given_by(shape, row, n));
    let i = choose|i: int|
        0 <= i < n && i < store.comment_reports@.len() && store.row_for(
            shape,
            #[trigger] store.comment_reports@[i],
        ) == Some(row);
    assert(row.comment_report == store.comment_reports@[i]);
}

/// In a well-formed snapshot a point lookup of any report of the snapshot
/// finds a row, and every flag of the row says what the relationship tables
/// say when they are asked directly.
pub proof fn lemma_read_matches_relations(store: &EntityStore, i: int, viewer: PersonId)
    requires
        store.well_formed(),
        0 <= i < store.comment_reports@.len(),
    ensures
        store.lookup(store.comment_reports@[i].id, viewer) is Some,
        ({
            let row = store.lookup(store.comment_reports@[i].id, viewer).unwrap();
            let author = row.comment_creator.id;
            let community = row.community.id;
            &&& row.comment_report == store.comment_reports@[i]
            &&& row.creator_is_moderator == store.moderates(author, community)
            &&& row.creator_banned_from_community == store.banned_from(author, community)
            &&& row.creator_is_admin == store.is_admin(author)
            &&& row.creator_blocked == store.blocks(viewer, author)
            &&& row.saved == store.has_saved(viewer, row.comment.id)
            &&& row.subscribed == store.subscription_of(viewer, community)
            &&& row.my_vote == store.vote_of(viewer, row.comment.id)
        }),
{
    let report = store.comment_reports@[i];
    lemma_lookup_of_existing(store, i, viewer);
    lemma_view_exists(store, i, viewer);
    lemma_view_joins(store, report, viewer);
    lemma_view_matches_relations(store, report, viewer);
}

/// Whether a viewer sees a report in a listing is decided by the filters
/// and by the viewer's role alone: in a well-formed snapshot a report is
/// among the selected rows exactly when it passes the filters and, where
/// only moderated communities are kept, the viewer moderates its community.
/// A shape that keeps all communities, as an admin's does, selects every
/// report that passes the filters.
pub proof fn lemma_visibility(store: &EntityStore, shape: QueryShape, i: int)
    requires
        store.well_formed(),
        0 <= i < store.comment_reports@.len(),
    ensures
        store.view_of(store.comment_reports@[i], shape.viewer) is Some,
        ({
            let row = store.view_of(store.comment_reports@[i], shape.viewer).unwrap();
            store.selected(shape).contains(row) <==> shape.filters_keep(row) && (
            !shape.moderated_only || store.moderates(shape.viewer, row.community.id))
        }),
{
    let n = store.comment_reports@.len() as int;
    let report = store.comment_reports@[i];
    lemma_view_exists(store, i, shape.viewer);
    lemma_view_joins(store, report, shape.viewer);
    let row = store.view_of(report, shape.viewer).unwrap();
    lemma_community_relations_by_row(store, shape.viewer, row.post.community_id);
    lemma_selected_upto_sound(store, shape, n);
    lemma_selected_upto_complete(store, shape, n);
    let all = store.selected(shape);
    if all.contains(row) {
        let k = choose|k: int| 0 <= k < all.len() && all[k] == row;
        assert(store.given_by(shape, all[k], n));
        let j = choose|j: int|
            0 <= j < n && j < store.comment_reports@.len() && store.row_for(
                shape,
                #[trigger] store.comment_reports@[j],
            ) == Some(row);
        assert(shape.admits(store, row));
    }
}

/// A report that is counted for a viewer who is no admin lies in a
/// community that the viewer moderates, and is open.
pub proof fn lemma_counted_by_role(
    store: &EntityStore,
    report: CommentReport,
    viewer: PersonId,
    admin: bool,
    only: Option<CommunityId>,
)
    requires
        store.counted(report, viewer, admin, only),
    ensures
        !report.resolved,
        store.community_of(report) is Some,
        admin || store.moderates(viewer, store.community_of(report).unwrap()),
        only matches Some(wanted) ==> store.community_of(report) == Some(wanted),
{
}

} // verus!
