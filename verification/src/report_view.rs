//! The view row of a report, and the join that composes it.
//!
//! One composition serves the point lookup and the listing alike, so a report
//! never looks different in the two.

use vstd::prelude::*;
use crate::entities::{
    Comment, CommentActions, CommentAggregates, CommentReport, Community, CommunityActions,
    FollowState, LocalUser, Person, PersonActions, Post, SubscribedType,
};
use crate::ids::PersonId;
use crate::store::EntityStore;
use crate::table::{position, row_of};

verus! {

/// A viewer: a person and the local account that says whether they are an
/// admin.
#[derive(Debug, PartialEq, Eq)]
pub struct LocalUserView {
    pub local_user: LocalUser,
    pub person: Person,
}

impl Clone for LocalUserView {
    fn clone(&self) -> (copy: Self)
        ensures
            copy == *self,
    {
        LocalUserView { local_user: self.local_user, person: self.person.clone() }
    }
}

/// A report joined with what it refers to, from the standpoint of one
/// viewer. The flags are computed when the row is composed and stored
/// nowhere.
#[derive(Debug, PartialEq, Eq)]
pub struct CommentReportView {
    pub comment_report: CommentReport,
    pub comment: Comment,
    pub post: Post,
    pub community: Community,
    /// The person who filed the report.
    pub creator: Person,
    /// The author of the reported comment.
    pub comment_creator: Person,
    pub counts: CommentAggregates,
    pub creator_banned_from_community: bool,
    pub creator_is_moderator: bool,
    pub creator_is_admin: bool,
    pub creator_blocked: bool,
    pub subscribed: SubscribedType,
    pub saved: bool,
    pub my_vote: Option<i16>,
    pub resolver: Option<Person>,
}

impl Clone for CommentReportView {
    fn clone(&self) -> (copy: Self)
        ensures
            copy == *self,
    {
        CommentReportView {
            comment_report: self.comment_report.clone(),
            comment: self.comment.clone(),
            post: self.post.clone(),
            community: self.community.clone(),
            creator: self.creator.clone(),
            comment_creator: self.comment_creator.clone(),
            counts: self.counts,
            creator_banned_from_community: self.creator_banned_from_community,
            creator_is_moderator: self.creator_is_moderator,
            creator_is_admin: self.creator_is_admin,
            creator_blocked: self.creator_blocked,
            subscribed: self.subscribed,
            saved: self.saved,
            my_vote: self.my_vote,
            resolver: match &self.resolver {
                Some(person) => Some(person.clone()),
                None => None,
            },
        }
    }
}

/// Whether an optional joined row records a ban in force at `now`.
pub open spec fn banned_in(actions: Option<CommunityActions>, now: i64) -> bool {
    actions matches Some(row) && row.is_banned_at(now)
}

impl EntityStore {
    /// The resolver of `report`, where it names one that the store holds.
    pub open spec fn resolver_of(&self, report: CommentReport) -> Option<Person> {
        match report.resolver_id {
            Some(resolver) => row_of(self.persons@, resolver),
            None => None,
        }
    }

    /// The view row of `report` for the viewer `viewer`, or `None` where a row
    /// that the report must refer to is missing.
    ///
    /// The comment, its post, the post's community, the reporter, the
    /// comment's author and the comment's counters are required. The
    /// resolver, the author's admin account, the author's actions in the
    /// community and the viewer's actions on the author, the community and
    /// the comment are optional; each flag says that the optional row is
    /// there and has the column set.
    pub open spec fn view_of(&self, report: CommentReport, viewer: PersonId) -> Option<
        CommentReportView,
    > {
        match row_of(self.comments@, report.comment_id) {
            None => None,
            Some(comment) => match row_of(self.posts@, comment.post_id) {
                None => None,
                Some(post) => match row_of(self.communities@, post.community_id) {
                    None => None,
                    Some(community) => match row_of(self.persons@, report.creator_id) {
                        None => None,
                        Some(creator) => match row_of(self.persons@, comment.creator_id) {
                            None => None,
                            Some(comment_creator) => match row_of(
                                self.comment_aggregates@,
                                report.comment_id,
                            ) {
                                None => None,
                                Some(counts) => {
                                    let author_actions = row_of(
                                        self.community_actions@,
                                        (comment.creator_id, post.community_id),
                                    );
                                    let my_comment_actions = row_of(
                                        self.comment_actions@,
                                        (viewer, report.comment_id),
                                    );
                                    Some(
                                        CommentReportView {
                                            comment_report: report,
                                            comment,
                                            post,
                                            community,
                                            creator,
                                            comment_creator,
                                            counts,
                                            creator_banned_from_community: banned_in(
                                                author_actions,
                                                self.now,
                                            ),
                                            creator_is_moderator: author_actions matches Some(row)
                                                && row.is_moderator(),
                                            creator_is_admin: row_of(
                                                self.local_users@,
                                                (comment.creator_id, true),
                                            ) is Some,
                                            creator_blocked: row_of(
                                                self.person_actions@,
                                                (viewer, comment.creator_id),
                                            ) matches Some(row) && row.blocked.is_some(),
                                            subscribed: self.subscription_of(
                                                viewer,
                                                post.community_id,
                                            ),
                                            saved: my_comment_actions matches Some(row)
                                                && row.saved.is_some(),
                                            my_vote: self.vote_of(viewer, report.comment_id),
                                            resolver: self.resolver_of(report),
                                        },
                                    )
                                },
                            },
                        },
                    },
                },
            },
        }
    }

    /// Composes the view row of `report` for the viewer `my_person_id`.
    pub fn compose(&self, report: &CommentReport, my_person_id: PersonId) -> (row: Option<
        CommentReportView,
    >)
        ensures
            row == self.view_of(*report, my_person_id),
    {
        let comment = match position(&self.comments, &report.comment_id) {
            Some(i) => &self.comments[i],
            None => { return None; },
        };
        let post = match position(&self.posts, &comment.post_id) {
            Some(i) => &self.posts[i],
            None => { return None; },
        };
        let community = match position(&self.communities, &post.community_id) {
            Some(i) => &self.communities[i],
            None => { return None; },
        };
        let creator = match position(&self.persons, &report.creator_id) {
            Some(i) => &self.persons[i],
            None => { return None; },
        };
        let comment_creator = match position(&self.persons, &comment.creator_id) {
            Some(i) => &self.persons[i],
            None => { return None; },
        };
        let counts = match position(&self.comment_aggregates, &report.comment_id) {
            Some(i) => self.comment_aggregates[i],
            None => { return None; },
        };
        let author_actions = self.community_actions_of(comment.creator_id, post.community_id);
        let my_community_actions = self.community_actions_of(my_person_id, post.community_id);
        let my_person_actions: Option<PersonActions> = match position(
            &self.person_actions,
            &(my_person_id, comment.creator_id),
        ) {
            Some(i) => Some(self.person_actions[i]),
            None => None,
        };
        let my_comment_actions: Option<CommentActions> = match position(
            &self.comment_actions,
            &(my_person_id, report.comment_id),
        ) {
            Some(i) => Some(self.comment_actions[i]),
            None => None,
        };
        let resolver = match report.resolver_id {
            Some(resolver_id) => match position(&self.persons, &resolver_id) {
                Some(i) => Some(self.persons[i].clone()),
                None => None,
            },
            None => None,
        };
        let creator_banned_from_community = match author_actions {
            Some(row) => row.received_ban.is_some() || match row.ban_expires {
                Some(expires) => expires > self.now,
                None => false,
            },
            None => false,
        };
        let creator_is_moderator = match author_actions {
            Some(row) => row.became_moderator.is_some(),
            None => false,
        };
        let creator_is_admin = position(&self.local_users, &(comment.creator_id, true)).is_some();
        let creator_blocked = match my_person_actions {
            Some(row) => row.blocked.is_some(),
            None => false,
        };
        let subscribed = match my_community_actions {
            Some(row) => match row.follow_state {
                Some(FollowState::Accepted) => SubscribedType::Subscribed,
                Some(FollowState::Pending) => SubscribedType::Pending,
                None => SubscribedType::NotSubscribed,
            },
            None => SubscribedType::NotSubscribed,
        };
        let saved = match my_comment_actions {
            Some(row) => row.saved.is_some(),
            None => false,
        };
        let my_vote = match my_comment_actions {
            Some(row) => row.like_score,
            None => None,
        };
        Some(
            CommentReportView {
                comment_report: report.clone(),
                comment: comment.clone(),
                post: post.clone(),
                community: community.clone(),
                creator: creator.clone(),
                comment_creator: comment_creator.clone(),
                counts,
                creator_banned_from_community,
                creator_is_moderator,
                creator_is_admin,
                creator_blocked,
                subscribed,
                saved,
                my_vote,
                resolver,
            },
        )
    }
}

} // verus!
