//! The rows of the tables that a report view is joined from.
//!
//! Instants are microseconds on the store's clock. A relationship that SQL
//! keeps as a nullable column is an `Option` here: the relationship holds
//! exactly when the column is set.

use vstd::prelude::*;
use crate::ids::{CommentId, CommentReportId, CommunityId, LocalUserId, PersonId, PostId};

verus! {

/// Who may see a community.
#[derive(Clone, Copy, Debug, PartialEq, Eq, Structural)]
pub enum CommunityVisibility {
    Public,
    LocalOnly,
}

/// How far a request to follow a community has come.
#[derive(Clone, Copy, Debug, PartialEq, Eq, Structural)]
pub enum FollowState {
    Accepted,
    Pending,
}

/// A viewer's subscription to a community, as a view row shows it.
#[derive(Clone, Copy, Debug, PartialEq, Eq, Structural)]
pub enum SubscribedType {
    Subscribed,
    NotSubscribed,
    Pending,
}

/// An actor of the platform.
#[derive(Debug, PartialEq, Eq)]
pub struct Person {
    pub id: PersonId,
    pub name: String,
    pub display_name: Option<String>,
    pub banned: bool,
    pub published: i64,
    pub updated: Option<i64>,
    pub local: bool,
    pub deleted: bool,
    pub bot_account: bool,
    pub ban_expires: Option<i64>,
}

/// The local account of a person; it carries the admin flag.
#[derive(Clone, Copy, Debug, PartialEq, Eq)]
pub struct LocalUser {
    pub id: LocalUserId,
    pub person_id: PersonId,
    pub admin: bool,
}

/// A community that posts belong to.
#[derive(Debug, PartialEq, Eq)]
pub struct Community {
    pub id: CommunityId,
    pub name: String,
    pub title: String,
    pub removed: bool,
    pub published: i64,
    pub updated: Option<i64>,
    pub deleted: bool,
    pub nsfw: bool,
    pub local: bool,
    pub hidden: bool,
    pub posting_restricted_to_mods: bool,
    pub visibility: CommunityVisibility,
}

/// A post; every comment hangs under one.
#[derive(Debug, PartialEq, Eq)]
pub struct Post {
    pub id: PostId,
    pub name: String,
    pub creator_id: PersonId,
    pub community_id: CommunityId,
    pub removed: bool,
    pub locked: bool,
    pub published: i64,
    pub updated: Option<i64>,
    pub deleted: bool,
    pub nsfw: bool,
    pub local: bool,
}

/// A comment, the content that a report is filed against.
#[derive(Debug, PartialEq, Eq)]
pub struct Comment {
    pub id: CommentId,
    pub creator_id: PersonId,
    pub post_id: PostId,
    pub content: String,
    pub removed: bool,
    pub published: i64,
    pub updated: Option<i64>,
    pub deleted: bool,
    pub local: bool,
    pub distinguished: bool,
}

/// A report filed by `creator_id` against the comment `comment_id`.
#[derive(Debug, PartialEq, Eq)]
pub struct CommentReport {
    pub id: CommentReportId,
    pub creator_id: PersonId,
    pub comment_id: CommentId,
    pub original_comment_text: String,
    pub reason: String,
    pub resolved: bool,
    pub resolver_id: Option<PersonId>,
    pub published: i64,
    pub updated: Option<i64>,
}

/// Counters kept for a comment. The two ranks are carried as the bits of
/// their binary64 encoding: nothing here computes on them.
#[derive(Clone, Copy, Debug, PartialEq, Eq)]
pub struct CommentAggregates {
    pub comment_id: CommentId,
    pub score: i64,
    pub upvotes: i64,
    pub downvotes: i64,
    pub published: i64,
    pub child_count: i32,
    pub hot_rank_bits: u64,
    pub controversy_rank_bits: u64,
}

/// What `person_id` has done to, or received in, the community
/// `community_id`.
#[derive(Clone, Copy, Debug, PartialEq, Eq)]
pub struct CommunityActions {
    pub community_id: CommunityId,
    pub person_id: PersonId,
    pub followed: Option<i64>,
    pub follow_state: Option<FollowState>,
    pub became_moderator: Option<i64>,
    pub received_ban: Option<i64>,
    pub ban_expires: Option<i64>,
}

/// What `person_id` has done to the person `target_id`.
#[derive(Clone, Copy, Debug, PartialEq, Eq)]
pub struct PersonActions {
    pub person_id: PersonId,
    pub target_id: PersonId,
    pub blocked: Option<i64>,
}

/// What `person_id` has done to the comment `comment_id`.
#[derive(Clone, Copy, Debug, PartialEq, Eq)]
pub struct CommentActions {
    pub person_id: PersonId,
    pub comment_id: CommentId,
    pub like_score: Option<i16>,
    pub saved: Option<i64>,
}

/// What `person_id` has done to the post `post_id`.
#[derive(Clone, Copy, Debug, PartialEq, Eq)]
pub struct PostActions {
    pub person_id: PersonId,
    pub post_id: PostId,
    pub read: Option<i64>,
    pub saved: Option<i64>,
}

/// A copy of an optional text.
pub fn clone_text(text: &Option<String>) -> (copy: Option<String>)
    ensures
        copy == *text,
{
    match text {
        Some(s) => Some(s.clone()),
        None => None,
    }
}

impl Clone for Person {
    fn clone(&self) -> (copy: Self)
        ensures
            copy == *self,
    {
        Person {
            id: self.id,
            name: self.name.clone(),
            display_name: clone_text(&self.display_name),
            banned: self.banned,
            published: self.published,
            updated: self.updated,
            local: self.local,
            deleted: self.deleted,
            bot_account: self.bot_account,
            ban_expires: self.ban_expires,
        }
    }
}

impl Clone for Community {
    fn clone(&self) -> (copy: Self)
        ensures
            copy == *self,
    {
        Community {
            id: self.id,
            name: self.name.clone(),
            title: self.title.clone(),
            removed: self.removed,
            published: self.published,
            updated: self.updated,
            deleted: self.deleted,
            nsfw: self.nsfw,
            local: self.local,
            hidden: self.hidden,
            posting_restricted_to_mods: self.posting_restricted_to_mods,
            visibility: self.visibility,
        }
    }
}

impl Clone for Post {
    fn clone(&self) -> (copy: Self)
        ensures
            copy == *self,
    {
        Post {
            id: self.id,
            name: self.name.clone(),
            creator_id: self.creator_id,
            community_id: self.community_id,
            removed: self.removed,
            locked: self.locked,
            published: self.published,
            updated: self.updated,
            deleted: self.deleted,
            nsfw: self.nsfw,
            local: self.local,
        }
    }
}

impl Clone for Comment {
    fn clone(&self) -> (copy: Self)
        ensures
            copy == *self,
    {
        Comment {
            id: self.id,
            creator_id: self.creator_id,
            post_id: self.post_id,
            content: self.content.clone(),
            removed: self.removed,
            published: self.published,
            updated: self.updated,
            deleted: self.deleted,
            local: self.local,
            distinguished: self.distinguished,
        }
    }
}

impl Clone for CommentReport {
    fn clone(&self) -> (copy: Self)
        ensures
            copy == *self,
    {
        CommentReport {
            id: self.id,
            creator_id: self.creator_id,
            comment_id: self.comment_id,
            original_comment_text: self.original_comment_text.clone(),
            reason: self.reason.clone(),
            resolved: self.resolved,
            resolver_id: self.resolver_id,
            published: self.published,
            updated: self.updated,
        }
    }
}

impl CommentReport {
    /// The invariant of the resolution state: a resolved report names its
    /// resolver and the time of the resolution, an open one names no resolver.
    pub open spec fn well_formed(self) -> bool {
        &&& self.resolved <==> self.resolver_id.is_some()
        &&& self.resolved ==> self.updated.is_some()
    }

    /// This report after `resolver` has resolved it at `now`.
    pub open spec fn resolved_by(self, resolver: PersonId, now: i64) -> CommentReport {
        CommentReport { resolved: true, resolver_id: Some(resolver), updated: Some(now), ..self }
    }

    /// The transition of the resolution state: from open, or from resolved
    /// by anyone, to resolved by `resolver` at `now`. Nothing leads back to
    /// open.
    pub fn resolve(&mut self, resolver: PersonId, now: i64)
        ensures
            *final(self) == old(self).resolved_by(resolver, now),
            final(self).well_formed(),
    {
        self.resolved = true;
        self.resolver_id = Some(resolver);
        self.updated = Some(now);
    }
}

impl CommunityActions {
    /// The person moderates the community.
    pub open spec fn is_moderator(self) -> bool {
        self.became_moderator.is_some()
    }

    /// The person is banned from the community at `now`: a ban was received,
    /// or an expiry is recorded that lies after `now`.
    pub open spec fn is_banned_at(self, now: i64) -> bool {
        self.received_ban.is_some() || (self.ban_expires.is_some() && self.ban_expires.unwrap()
            > now)
    }

    /// The subscription that a view row shows for this follow state.
    pub open spec fn subscription(self) -> SubscribedType {
        match self.follow_state {
            Some(FollowState::Accepted) => SubscribedType::Subscribed,
            Some(FollowState::Pending) => SubscribedType::Pending,
            None => SubscribedType::NotSubscribed,
        }
    }
}

} // verus!
