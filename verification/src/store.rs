//! A snapshot of the tables, and the direct queries on its relationship
//! tables.

use vstd::prelude::*;
use crate::entities::{
    Comment, CommentActions, CommentAggregates, CommentReport, Community, CommunityActions,
    LocalUser, Person, PersonActions, Post, PostActions, SubscribedType,
};
use crate::ids::{CommentId, CommentReportId, CommunityId, PersonId, PostId};
use crate::table::{
    contains_key, has_row, has_unique_keys, position, row_of, unique_keys, Keyed,
};

verus! {

impl Keyed for Person {
    type Key = PersonId;

    open spec fn key(&self) -> PersonId {
        self.id
    }

    fn has_key(&self, key: &PersonId) -> (hit: bool) {
        self.id == *key
    }

    fn same_key(&self, other: &Person) -> (same: bool) {
        self.id == other.id
    }
}

impl Keyed for Community {
    type Key = CommunityId;

    open spec fn key(&self) -> CommunityId {
        self.id
    }

    fn has_key(&self, key: &CommunityId) -> (hit: bool) {
        self.id == *key
    }

    fn same_key(&self, other: &Community) -> (same: bool) {
        self.id == other.id
    }
}

impl Keyed for Post {
    type Key = PostId;

    open spec fn key(&self) -> PostId {
        self.id
    }

    fn has_key(&self, key: &PostId) -> (hit: bool) {
        self.id == *key
    }

    fn same_key(&self, other: &Post) -> (same: bool) {
        self.id == other.id
    }
}

impl Keyed for Comment {
    type Key = CommentId;

    open spec fn key(&self) -> CommentId {
        self.id
    }

    fn has_key(&self, key: &CommentId) -> (hit: bool) {
        self.id == *key
    }

    fn same_key(&self, other: &Comment) -> (same: bool) {
        self.id == other.id
    }
}

impl Keyed for CommentReport {
    type Key = CommentReportId;

    open spec fn key(&self) -> CommentReportId {
        self.id
    }

    fn has_key(&self, key: &CommentReportId) -> (hit: bool) {
        self.id == *key
    }

    fn same_key(&self, other: &CommentReport) -> (same: bool) {
        self.id == other.id
    }
}

impl Keyed for CommentAggregates {
    type Key = CommentId;

    open spec fn key(&self) -> CommentId {
        self.comment_id
    }

    fn has_key(&self, key: &CommentId) -> (hit: bool) {
        self.comment_id == *key
    }

    fn same_key(&self, other: &CommentAggregates) -> (same: bool) {
        self.comment_id == other.comment_id
    }
}

/// A local account is joined on its person and its admin flag together.
impl Keyed for LocalUser {
    type Key = (PersonId, bool);

    open spec fn key(&self) -> (PersonId, bool) {
        (self.person_id, self.admin)
    }

    fn has_key(&self, key: &(PersonId, bool)) -> (hit: bool) {
        self.person_id == key.0 && self.admin == key.1
    }

    fn same_key(&self, other: &LocalUser) -> (same: bool) {
        self.person_id == other.person_id && self.admin == other.admin
    }
}

impl Keyed for CommunityActions {
    type Key = (PersonId, CommunityId);

    open spec fn key(&self) -> (PersonId, CommunityId) {
        (self.person_id, self.community_id)
    }

    fn has_key(&self, key: &(PersonId, CommunityId)) -> (hit: bool) {
        self.person_id == key.0 && self.community_id == key.1
    }

    fn same_key(&self, other: &CommunityActions) -> (same: bool) {
        self.person_id == other.person_id && self.community_id == other.community_id
    }
}

impl Keyed for PersonActions {
    type Key = (PersonId, PersonId);

    open spec fn key(&self) -> (PersonId, PersonId) {
        (self.person_id, self.target_id)
    }

    fn has_key(&self, key: &(PersonId, PersonId)) -> (hit: bool) {
        self.person_id == key.0 && self.target_id == key.1
    }

    fn same_key(&self, other: &PersonActions) -> (same: bool) {
        self.person_id == other.person_id && self.target_id == other.target_id
    }
}

impl Keyed for CommentActions {
    type Key = (PersonId, CommentId);

    open spec fn key(&self) -> (PersonId, CommentId) {
        (self.person_id, self.comment_id)
    }

    fn has_key(&self, key: &(PersonId, CommentId)) -> (hit: bool) {
        self.person_id == key.0 && self.comment_id == key.1
    }

    fn same_key(&self, other: &CommentActions) -> (same: bool) {
        self.person_id == other.person_id && self.comment_id == other.comment_id
    }
}

impl Keyed for PostActions {
    type Key = (PersonId, PostId);

    open spec fn key(&self) -> (PersonId, PostId) {
        (self.person_id, self.post_id)
    }

    fn has_key(&self, key: &(PersonId, PostId)) -> (hit: bool) {
        self.person_id == key.0 && self.post_id == key.1
    }

    fn same_key(&self, other: &PostActions) -> (same: bool) {
        self.person_id == other.person_id && self.post_id == other.post_id
    }
}

/// The tables as they stood at the instant `now` of the store's clock.
#[derive(Debug, PartialEq, Eq)]
pub struct EntityStore {
    pub persons: Vec<Person>,
    pub local_users: Vec<LocalUser>,
    pub communities: Vec<Community>,
    pub posts: Vec<Post>,
    pub comments: Vec<Comment>,
    pub comment_aggregates: Vec<CommentAggregates>,
    pub comment_reports: Vec<CommentReport>,
    pub community_actions: Vec<CommunityActions>,
    pub person_actions: Vec<PersonActions>,
    pub comment_actions: Vec<CommentActions>,
    pub post_actions: Vec<PostActions>,
    pub now: i64,
}

impl Clone for EntityStore {
    fn clone(&self) -> (copy: Self)
        ensures
            copy.same_as(self),
    {
        let copy = EntityStore {
            persons: self.persons.clone(),
            local_users: self.local_users.clone(),
            communities: self.communities.clone(),
            posts: self.posts.clone(),
            comments: self.comments.clone(),
            comment_aggregates: self.comment_aggregates.clone(),
            comment_reports: self.comment_reports.clone(),
            community_actions: self.community_actions.clone(),
            person_actions: self.person_actions.clone(),
            comment_actions: self.comment_actions.clone(),
            post_actions: self.post_actions.clone(),
            now: self.now,
        };
        assert(copy.persons@ =~= self.persons@);
        assert(copy.local_users@ =~= self.local_users@);
        assert(copy.communities@ =~= self.communities@);
        assert(copy.posts@ =~= self.posts@);
        assert(copy.comments@ =~= self.comments@);
        assert(copy.comment_aggregates@ =~= self.comment_aggregates@);
        assert(copy.comment_reports@ =~= self.comment_reports@);
        assert(copy.community_actions@ =~= self.community_actions@);
        assert(copy.person_actions@ =~= self.person_actions@);
        assert(copy.comment_actions@ =~= self.comment_actions@);
        assert(copy.post_actions@ =~= self.post_actions@);
        copy
    }
}

impl EntityStore {
    /// This snapshot and `other` hold the same rows in every table, and were
    /// taken at the same instant.
    pub open spec fn same_as(&self, other: &EntityStore) -> bool {
        &&& self.persons@ == other.persons@
        &&& self.local_users@ == other.local_users@
        &&& self.communities@ == other.communities@
        &&& self.posts@ == other.posts@
        &&& self.comments@ == other.comments@
        &&& self.comment_aggregates@ == other.comment_aggregates@
        &&& self.comment_reports@ == other.comment_reports@
        &&& self.community_actions@ == other.community_actions@
        &&& self.person_actions@ == other.person_actions@
        &&& self.comment_actions@ == other.comment_actions@
        &&& self.post_actions@ == other.post_actions@
        &&& self.now == other.now
    }

    /// The community that the reported comment of `report` belongs to, through
    /// its post.
    pub open spec fn community_of(&self, report: CommentReport) -> Option<CommunityId> {
        match row_of(self.comments@, report.comment_id) {
            Some(comment) => match row_of(self.posts@, comment.post_id) {
                Some(post) => Some(post.community_id),
                None => None,
            },
            None => None,
        }
    }

    /// Every row that a view of `report` needs is there: its comment with
    /// post, community, author and counters, and its reporter.
    pub open spec fn references_resolve(&self, report: CommentReport) -> bool {
        &&& has_row(self.persons@, report.creator_id)
        &&& has_row(self.comment_aggregates@, report.comment_id)
        &&& match row_of(self.comments@, report.comment_id) {
            Some(comment) => {
                &&& has_row(self.persons@, comment.creator_id)
                &&& match row_of(self.posts@, comment.post_id) {
                    Some(post) => has_row(self.communities@, post.community_id),
                    None => false,
                }
            },
            None => false,
        }
    }

    /// The invariant of a snapshot taken from a relational store: keys are
    /// primary keys, every report is in a well-formed resolution state, and
    /// every report's references resolve.
    pub open spec fn well_formed(&self) -> bool {
        &&& unique_keys(self.persons@)
        &&& unique_keys(self.local_users@)
        &&& unique_keys(self.communities@)
        &&& unique_keys(self.posts@)
        &&& unique_keys(self.comments@)
        &&& unique_keys(self.comment_aggregates@)
        &&& unique_keys(self.comment_reports@)
        &&& unique_keys(self.community_actions@)
        &&& unique_keys(self.person_actions@)
        &&& unique_keys(self.comment_actions@)
        &&& unique_keys(self.post_actions@)
        &&& forall|i: int|
            0 <= i < self.comment_reports@.len() ==> {
                &&& (#[trigger] self.comment_reports@[i]).well_formed()
                &&& self.references_resolve(self.comment_reports@[i])
            }
    }

    /// `person` moderates `community`: the moderator relation, read from its
    /// table alone.
    pub open spec fn moderates(&self, person: PersonId, community: CommunityId) -> bool {
        exists|i: int|
            0 <= i < self.community_actions@.len() && {
                let row = #[trigger] self.community_actions@[i];
                row.person_id == person && row.community_id == community && row.is_moderator()
            }
    }

    /// `person` is banned from `community` at the snapshot's instant.
    pub open spec fn banned_from(&self, person: PersonId, community: CommunityId) -> bool {
        exists|i: int|
            0 <= i < self.community_actions@.len() && {
                let row = #[trigger] self.community_actions@[i];
                row.person_id == person && row.community_id == community && row.is_banned_at(
                    self.now,
                )
            }
    }

    /// The subscription of `person` to `community`.
    pub open spec fn subscription_of(&self, person: PersonId, community: CommunityId)
        -> SubscribedType {
        match row_of(self.community_actions@, (person, community)) {
            Some(row) => row.subscription(),
            None => SubscribedType::NotSubscribed,
        }
    }

    /// `person` has a local account with the admin flag.
    pub open spec fn is_admin(&self, person: PersonId) -> bool {
        exists|i: int|
            0 <= i < self.local_users@.len() && {
                let row = #[trigger] self.local_users@[i];
                row.person_id == person && row.admin
            }
    }

    /// `person` blocks `target`.
    pub open spec fn blocks(&self, person: PersonId, target: PersonId) -> bool {
        exists|i: int|
            0 <= i < self.person_actions@.len() && {
                let row = #[trigger] self.person_actions@[i];
                row.person_id == person && row.target_id == target && row.blocked.is_some()
            }
    }

    /// `person` has saved `comment`.
    pub open spec fn has_saved(&self, person: PersonId, comment: CommentId) -> bool {
        exists|i: int|
            0 <= i < self.comment_actions@.len() && {
                let row = #[trigger] self.comment_actions@[i];
                row.person_id == person && row.comment_id == comment && row.saved.is_some()
            }
    }

    /// The vote of `person` on `comment`, if one is recorded.
    pub open spec fn vote_of(&self, person: PersonId, comment: CommentId) -> Option<i16> {
        match row_of(self.comment_actions@, (person, comment)) {
            Some(row) => row.like_score,
            None => None,
        }
    }

    /// A snapshot without rows, taken at `now`.
    pub fn new(now: i64) -> (store: EntityStore)
        ensures
            store.well_formed(),
            store.now == now,
            store.persons@.len() == 0,
            store.local_users@.len() == 0,
            store.communities@.len() == 0,
            store.posts@.len() == 0,
            store.comments@.len() == 0,
            store.comment_aggregates@.len() == 0,
            store.comment_reports@.len() == 0,
            store.community_actions@.len() == 0,
            store.person_actions@.len() == 0,
            store.comment_actions@.len() == 0,
            store.post_actions@.len() == 0,
    {
        EntityStore {
            persons: Vec::new(),
            local_users: Vec::new(),
            communities: Vec::new(),
            posts: Vec::new(),
            comments: Vec::new(),
            comment_aggregates: Vec::new(),
            comment_reports: Vec::new(),
            community_actions: Vec::new(),
            person_actions: Vec::new(),
            comment_actions: Vec::new(),
            post_actions: Vec::new(),
            now,
        }
    }

    /// Whether every row that a view of `report` needs is there.
    pub fn has_references(&self, report: &CommentReport) -> (yes: bool)
        ensures
            yes == self.references_resolve(*report),
    {
        if !contains_key(&self.persons, &report.creator_id) {
            return false;
        }
        if !contains_key(&self.comment_aggregates, &report.comment_id) {
            return false;
        }
        let comment = match position(&self.comments, &report.comment_id) {
            Some(i) => &self.comments[i],
            None => { return false; },
        };
        if !contains_key(&self.persons, &comment.creator_id) {
            return false;
        }
        match position(&self.posts, &comment.post_id) {
            Some(i) => contains_key(&self.communities, &self.posts[i].community_id),
            None => false,
        }
    }

    /// Whether the snapshot is well formed. A snapshot that was built by
    /// hand, or loaded from a store that does not enforce its keys, is
    /// checked with this before the laws of well-formed snapshots are relied
    /// on.
    pub fn is_well_formed(&self) -> (yes: bool)
        ensures
            yes == self.well_formed(),
    {
        if !(has_unique_keys(&self.persons) && has_unique_keys(&self.local_users)
            && has_unique_keys(&self.communities) && has_unique_keys(&self.posts)
            && has_unique_keys(&self.comments) && has_unique_keys(&self.comment_aggregates)
            && has_unique_keys(&self.comment_reports) && has_unique_keys(&self.community_actions)
            && has_unique_keys(&self.person_actions) && has_unique_keys(&self.comment_actions)
            && has_unique_keys(&self.post_actions)) {
            return false;
        }
        let mut i: usize = 0;
        while i < self.comment_reports.len()
            invariant
                i <= self.comment_reports.len(),
                forall|j: int|
                    0 <= j < i ==> {
                        &&& (#[trigger] self.comment_reports@[j]).well_formed()
                        &&& self.references_resolve(self.comment_reports@[j])
                    },
            decreases self.comment_reports.len() - i,
        {
            let report = &self.comment_reports[i];
            let state_ok = report.resolved == report.resolver_id.is_some() && (!report.resolved
                || report.updated.is_some());
            if !state_ok || !self.has_references(report) {
                assert(!(self.comment_reports@[i as int].well_formed() && self.references_resolve(
                    self.comment_reports@[i as int],
                )));
                return false;
            }
            i += 1;
        }
        true
    }

    /// The row that `person` has in the actions table of `community`.
    pub fn community_actions_of(&self, person: PersonId, community: CommunityId) -> (row: Option<
        CommunityActions,
    >)
        ensures
            row == row_of(self.community_actions@, (person, community)),
    {
        match position(&self.community_actions, &(person, community)) {
            Some(i) => Some(self.community_actions[i]),
            None => None,
        }
    }

    /// Whether `person` moderates `community`, by the row that a join on the
    /// pair matches.
    pub fn is_moderator(&self, person: PersonId, community: CommunityId) -> (yes: bool)
        ensures
            yes == (row_of(self.community_actions@, (person, community)) matches Some(row)
                && row.is_moderator()),
    {
        match self.community_actions_of(person, community) {
            Some(row) => row.became_moderator.is_some(),
            None => false,
        }
    }
}

} // verus!
