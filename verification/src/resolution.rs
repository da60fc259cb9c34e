//! Resolving a report: the one transition of its state, from open or
//! resolved to resolved by the latest actor.

use vstd::prelude::*;
use crate::entities::CommentReport;
use crate::error::ReportError;
use crate::ids::{CommentReportId, PersonId};
use crate::query::found_or_not;
use crate::report_view::CommentReportView;
use crate::store::EntityStore;
use crate::laws::{
    lemma_lookup_has_id, lemma_lookup_of_existing, lemma_resolve_in,
    lemma_resolve_keeps_well_formed, lemma_view_exists,
};
use crate::table::{has_row, Keyed};

verus! {

/// `reports` after every report with the id `id` was resolved by `resolver`
/// at `now`. A report that was resolved before gets the new resolver and
/// time: the last resolver wins.
pub open spec fn resolve_in(
    reports: Seq<CommentReport>,
    id: CommentReportId,
    resolver: PersonId,
    now: i64,
) -> Seq<CommentReport> {
    Seq::new(
        reports.len(),
        |i: int|
            if reports[i].id == id {
                reports[i].resolved_by(resolver, now)
            } else {
                reports[i]
            },
    )
}

impl EntityStore {
    /// This snapshot holds what `before` holds in every table but the
    /// reports, and was taken at the same instant.
    pub open spec fn same_but_reports(&self, before: &EntityStore) -> bool {
        &&& self.persons@ == before.persons@
        &&& self.local_users@ == before.local_users@
        &&& self.communities@ == before.communities@
        &&& self.posts@ == before.posts@
        &&& self.comments@ == before.comments@
        &&& self.comment_aggregates@ == before.comment_aggregates@
        &&& self.community_actions@ == before.community_actions@
        &&& self.person_actions@ == before.person_actions@
        &&& self.comment_actions@ == before.comment_actions@
        &&& self.post_actions@ == before.post_actions@
        &&& self.now == before.now
    }

    /// Resolves the report `report_id` in the name of `resolver_id`, at the
    /// snapshot's instant, and returns its view for the resolver.
    ///
    /// `NotFound` where no report has the id; the snapshot is then as it
    /// was. Resolving a resolved report is allowed and overwrites resolver
    /// and time. A well-formed snapshot stays well formed, and in it the
    /// resolution succeeds exactly when a report has the id.
    pub fn resolve(&mut self, report_id: CommentReportId, resolver_id: PersonId) -> (r: Result<
        CommentReportView,
        ReportError,
    >)
        ensures
            final(self).same_but_reports(old(self)),
            final(self).comment_reports@ == resolve_in(
                old(self).comment_reports@,
                report_id,
                resolver_id,
                old(self).now,
            ),
            r == if has_row(old(self).comment_reports@, report_id) {
                found_or_not(final(self).lookup(report_id, resolver_id))
            } else {
                Err(ReportError::NotFound)
            },
            !has_row(old(self).comment_reports@, report_id) ==> final(self).comment_reports@ == old(
                self,
            ).comment_reports@,
            r matches Ok(row) ==> {
                &&& row.comment_report.id == report_id
                &&& row.comment_report.resolved
                &&& row.comment_report.resolver_id == Some(resolver_id)
                &&& row.comment_report.updated == Some(old(self).now)
            },
            old(self).well_formed() ==> final(self).well_formed() && (r is Ok <==> has_row(
                old(self).comment_reports@,
                report_id,
            )),
    {
        let ghost before = old(self).comment_reports@;
        let now = self.now;
        let mut hit = false;
        let mut i: usize = 0;
        while i < self.comment_reports.len()
            invariant
                i <= self.comment_reports.len(),
                self.same_but_reports(old(self)),
                now == old(self).now,
                before == old(self).comment_reports@,
                self.comment_reports@.len() == before.len(),
                forall|j: int|
                    0 <= j < i ==> #[trigger] self.comment_reports@[j] == resolve_in(
                        before,
                        report_id,
                        resolver_id,
                        now,
                    )[j],
                forall|j: int|
                    i <= j < before.len() ==> #[trigger] self.comment_reports@[j] == before[j],
                hit <==> exists|j: int| 0 <= j < i && (#[trigger] before[j]).id == report_id,
            decreases self.comment_reports.len() - i,
        {
            if self.comment_reports[i].id == report_id {
                self.comment_reports[i].resolve(resolver_id, now);
                hit = true;
            }
            i += 1;
        }
        assert(self.comment_reports@ =~= resolve_in(before, report_id, resolver_id, now));
        proof {
            lemma_resolve_in(before, report_id, resolver_id, now);
            if old(self).well_formed() {
                lemma_resolve_keeps_well_formed(&*old(self), &*self, report_id, resolver_id);
            }
            if hit {
                let j = choose|j: int| 0 <= j < before.len() && (#[trigger] before[j]).id == report_id;
                assert(before[j].key() == report_id);
                if old(self).well_formed() {
                    lemma_lookup_of_existing(&*self, j, resolver_id);
                    lemma_view_exists(&*self, j, resolver_id);
                }
                if self.lookup(report_id, resolver_id) is Some {
                    lemma_lookup_has_id(&*self, report_id, resolver_id);
                    let found = self.lookup(report_id, resolver_id).unwrap().comment_report;
                    let k = choose|k: int|
                        0 <= k < self.comment_reports@.len() && self.comment_reports@[k] == found;
                    assert(before[k].id == report_id);
                }
            } else {
                assert forall|j: int| 0 <= j < before.len() implies (#[trigger] before[j]).key()
                    != report_id by {
                    assert(before[j].id != report_id);
                }
                assert(self.comment_reports@ =~= before);
            }
        }
        if hit {
            CommentReportView::read(self, report_id, resolver_id)
        } else {
            Err(ReportError::NotFound)
        }
    }
}

} // verus!
