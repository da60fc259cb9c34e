//! Typed keys of the tables.

use vstd::prelude::*;

verus! {

/// Key of a person.
#[derive(Clone, Copy, Debug, PartialEq, Eq, Structural, Hash, Default)]
pub struct PersonId(pub i32);

/// Key of a community.
#[derive(Clone, Copy, Debug, PartialEq, Eq, Structural, Hash, Default)]
pub struct CommunityId(pub i32);

/// Key of a post.
#[derive(Clone, Copy, Debug, PartialEq, Eq, Structural, Hash, Default)]
pub struct PostId(pub i32);

/// Key of a comment.
#[derive(Clone, Copy, Debug, PartialEq, Eq, Structural, Hash, Default)]
pub struct CommentId(pub i32);

/// Key of a report filed against a comment.
#[derive(Clone, Copy, Debug, PartialEq, Eq, Structural, Hash, Default)]
pub struct CommentReportId(pub i32);

/// Key of a local account.
#[derive(Clone, Copy, Debug, PartialEq, Eq, Structural, Hash, Default)]
pub struct LocalUserId(pub i32);

} // verus!
