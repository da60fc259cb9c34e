//! The count of open reports that a viewer may see.
//!
//! The count joins a report with its comment and post only, and asks the
//! moderator relation directly; the listing reads the same relation from the
//! row that its join matched.

use vstd::prelude::*;
use crate::entities::CommentReport;
use crate::ids::{CommunityId, PersonId};
use crate::report_view::CommentReportView;
use crate::store::EntityStore;
use crate::table::position;

verus! {

impl EntityStore {
    /// Whether `report` is counted for the viewer: it is open, its comment
    /// and post are there, its community is the one asked for where one is
    /// asked for, and the viewer is an admin or moderates its community.
    pub open spec fn counted(
        &self,
        report: CommentReport,
        viewer: PersonId,
        admin: bool,
        only: Option<CommunityId>,
    ) -> bool {
        &&& !report.resolved
        &&& match self.community_of(report) {
            Some(community) => {
                &&& only matches Some(wanted) ==> community == wanted
                &&& admin || self.moderates(viewer, community)
            },
            None => false,
        }
    }

    /// How many of the first `n` reports are counted for the viewer.
    pub open spec fn unresolved_upto(
        &self,
        viewer: PersonId,
        admin: bool,
        only: Option<CommunityId>,
        n: int,
    ) -> nat
        decreases n,
    {
        if n <= 0 {
            0
        } else {
            let earlier = self.unresolved_upto(viewer, admin, only, n - 1);
            if self.counted(self.comment_reports@[n - 1], viewer, admin, only) {
                earlier + 1
            } else {
                earlier
            }
        }
    }

    /// How many reports are counted for the viewer.
    pub open spec fn unresolved_count(&self, viewer: PersonId, admin: bool, only: Option<CommunityId>)
        -> nat {
        self.unresolved_upto(viewer, admin, only, self.comment_reports@.len() as int)
    }

    /// Asks the moderator relation whether `person` moderates `community`.
    pub fn has_moderator(&self, person: PersonId, community: CommunityId) -> (yes: bool)
        ensures
            yes == self.moderates(person, community),
    {
        let mut i: usize = 0;
        while i < self.community_actions.len()
            invariant
                i <= self.community_actions.len(),
                forall|j: int|
                    0 <= j < i ==> {
                        let row = #[trigger] self.community_actions@[j];
                        !(row.person_id == person && row.community_id == community
                            && row.is_moderator())
                    },
            decreases self.community_actions.len() - i,
        {
            let row = &self.community_actions[i];
            if row.person_id == person && row.community_id == community
                && row.became_moderator.is_some() {
                return true;
            }
            i += 1;
        }
        false
    }

    /// Finds the community of the comment that `report` is about.
    pub fn find_community_of(&self, report: &CommentReport) -> (community: Option<CommunityId>)
        ensures
            community == self.community_of(*report),
    {
        let comment = match position(&self.comments, &report.comment_id) {
            Some(i) => &self.comments[i],
            None => { return None; },
        };
        match position(&self.posts, &comment.post_id) {
            Some(i) => Some(self.posts[i].community_id),
            None => None,
        }
    }
}

impl CommentReportView {
    /// Returns the number of open reports in the communities that
    /// `my_person_id` moderates, or in all communities for an admin; only
    /// those of `community_id` where one is given.
    pub fn get_report_count(
        store: &EntityStore,
        my_person_id: PersonId,
        admin: bool,
        community_id: Option<CommunityId>,
    ) -> (count: u64)
        ensures
            count == store.unresolved_count(my_person_id, admin, community_id),
    {
        let mut count: u64 = 0;
        let mut i: usize = 0;
        while i < store.comment_reports.len()
            invariant
                i <= store.comment_reports.len(),
                count <= i,
                count == store.unresolved_upto(my_person_id, admin, community_id, i as int),
            decreases store.comment_reports.len() - i,
        {
            let report = &store.comment_reports[i];
            if !report.resolved {
                match store.find_community_of(report) {
                    Some(community) => {
                        let wanted = match community_id {
                            Some(only) => community == only,
                            None => true,
                        };
                        if wanted && (admin || store.has_moderator(my_person_id, community)) {
                            count += 1;
                        }
                    },
                    None => {},
                }
            }
            i += 1;
        }
        count
    }
}

} // verus!
