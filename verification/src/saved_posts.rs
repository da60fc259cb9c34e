//! Saving and unsaving a post for a viewer, which also marks it as read.

use vstd::prelude::*;
use crate::entities::{Post, PostActions};
use crate::error::SavePostError;
use crate::ids::{PersonId, PostId};
use crate::report_view::LocalUserView;
use crate::store::EntityStore;
use crate::table::{
    first_index, is_first, lemma_first_found, lemma_first_index, position, row_of, unique_keys,
    with_key, Keyed,
};

verus! {

/// The request to save a post, or to take the save back.
#[derive(Clone, Copy, Debug, PartialEq, Eq)]
pub struct SavePost {
    pub post_id: PostId,
    pub save: bool,
}

/// A post as one viewer sees it.
#[derive(Debug, PartialEq, Eq)]
pub struct PostView {
    pub post: Post,
    /// The viewer has saved the post.
    pub saved: bool,
    /// The viewer had read the post before this view was taken.
    pub read: bool,
}

/// The answer to a request on a post.
#[derive(Debug, PartialEq, Eq)]
pub struct PostResponse {
    pub post_view: PostView,
}

/// `rows` after `person` has set or cleared the save of `post`: the row
/// of the pair gets `saved`; where there is none, one is added for a save
/// and nothing changes for a cleared one.
pub open spec fn with_saved(
    rows: Seq<PostActions>,
    person: PersonId,
    post: PostId,
    saved: Option<i64>,
) -> Seq<PostActions> {
    match first_index(rows, with_key::<PostActions>((person, post))) {
        Some(i) => rows.update(i, PostActions { saved, ..rows[i] }),
        None => if saved is Some {
            rows.push(PostActions { person_id: person, post_id: post, read: None, saved })
        } else {
            rows
        },
    }
}

/// `rows` after `person` has read `post` at `now`: the row of the pair
/// gets the time, and is added where there is none.
pub open spec fn with_read(rows: Seq<PostActions>, person: PersonId, post: PostId, now: i64) -> Seq<
    PostActions,
> {
    match first_index(rows, with_key::<PostActions>((person, post))) {
        Some(i) => rows.update(i, PostActions { read: Some(now), ..rows[i] }),
        None => rows.push(
            PostActions { person_id: person, post_id: post, read: Some(now), saved: None },
        ),
    }
}

/// Setting a save or a read keeps the keys of the table unique.
pub proof fn lemma_post_actions_stay_unique(
    rows: Seq<PostActions>,
    person: PersonId,
    post: PostId,
    saved: Option<i64>,
    now: i64,
)
    requires
        unique_keys(rows),
    ensures
        unique_keys(with_saved(rows, person, post, saved)),
        unique_keys(with_read(rows, person, post, now)),
{
    let wanted = with_key::<PostActions>((person, post));
    lemma_first_index(rows, wanted);
    let saved_rows = with_saved(rows, person, post, saved);
    let read_rows = with_read(rows, person, post, now);
    match first_index(rows, wanted) {
        Some(k) => {
            assert(wanted(rows[k]));
            assert forall|i: int, j: int|
                0 <= i < saved_rows.len() && 0 <= j < saved_rows.len() && i != j implies (
            #[trigger] saved_rows[i]).key() != (#[trigger] saved_rows[j]).key() by {
                assert(rows[i].key() != rows[j].key());
            }
            assert forall|i: int, j: int|
                0 <= i < read_rows.len() && 0 <= j < read_rows.len() && i != j implies (
            #[trigger] read_rows[i]).key() != (#[trigger] read_rows[j]).key() by {
                assert(rows[i].key() != rows[j].key());
            }
        },
        None => {
            assert forall|i: int, j: int|
                0 <= i < saved_rows.len() && 0 <= j < saved_rows.len() && i != j implies (
            #[trigger] saved_rows[i]).key() != (#[trigger] saved_rows[j]).key() by {
                if i < rows.len() && j < rows.len() {
                    assert(rows[i].key() != rows[j].key());
                } else if i < rows.len() {
                    assert(!wanted(rows[i]));
                } else {
                    assert(!wanted(rows[j]));
                }
            }
            assert forall|i: int, j: int|
                0 <= i < read_rows.len() && 0 <= j < read_rows.len() && i != j implies (
            #[trigger] read_rows[i]).key() != (#[trigger] read_rows[j]).key() by {
                if i < rows.len() && j < rows.len() {
                    assert(rows[i].key() != rows[j].key());
                } else if i < rows.len() {
                    assert(!wanted(rows[i]));
                } else {
                    assert(!wanted(rows[j]));
                }
            }
        },
    }
}

impl EntityStore {
    /// This snapshot holds what `before` holds in every table but the
    /// actions on posts, and was taken at the same instant.
    pub open spec fn same_but_post_actions(&self, before: &EntityStore) -> bool {
        &&& self.persons@ == before.persons@
        &&& self.local_users@ == before.local_users@
        &&& self.communities@ == before.communities@
        &&& self.posts@ == before.posts@
        &&& self.comments@ == before.comments@
        &&& self.comment_aggregates@ == before.comment_aggregates@
        &&& self.comment_reports@ == before.comment_reports@
        &&& self.community_actions@ == before.community_actions@
        &&& self.person_actions@ == before.person_actions@
        &&& self.comment_actions@ == before.comment_actions@
        &&& self.now == before.now
    }

    /// Sets or clears the save of `post` for `person`.
    pub fn set_saved(&mut self, person: PersonId, post: PostId, saved: Option<i64>)
        ensures
            final(self).same_but_post_actions(old(self)),
            final(self).post_actions@ == with_saved(old(self).post_actions@, person, post, saved),
    {
        match position(&self.post_actions, &(person, post)) {
            Some(i) => {
                self.post_actions[i].saved = saved;
                assert(self.post_actions@ =~= with_saved(
                    old(self).post_actions@,
                    person,
                    post,
                    saved,
                ));
            },
            None => {
                if saved.is_some() {
                    self.post_actions.push(
                        PostActions { person_id: person, post_id: post, read: None, saved },
                    );
                }
            },
        }
    }

    /// Records that `person` has read `post` at the snapshot's instant.
    pub fn mark_as_read(&mut self, person: PersonId, post: PostId)
        ensures
            final(self).same_but_post_actions(old(self)),
            final(self).post_actions@ == with_read(
                old(self).post_actions@,
                person,
                post,
                old(self).now,
            ),
    {
        let now = self.now;
        match position(&self.post_actions, &(person, post)) {
            Some(i) => {
                self.post_actions[i].read = Some(now);
                assert(self.post_actions@ =~= with_read(
                    old(self).post_actions@,
                    person,
                    post,
                    now,
                ));
            },
            None => {
                self.post_actions.push(
                    PostActions { person_id: person, post_id: post, read: Some(now), saved: None },
                );
            },
        }
    }

    /// The post `post` as `person` sees it, if there is such a post.
    pub open spec fn post_view_of(&self, person: PersonId, post: PostId) -> Option<PostView> {
        match row_of(self.posts@, post) {
            Some(found) => {
                let actions = row_of(self.post_actions@, (person, post));
                Some(
                    PostView {
                        post: found,
                        saved: actions matches Some(row) && row.saved.is_some(),
                        read: actions matches Some(row) && row.read.is_some(),
                    },
                )
            },
            None => None,
        }
    }

    /// Composes the view of `post` for `person`.
    pub fn read_post(&self, person: PersonId, post: PostId) -> (view: Option<PostView>)
        ensures
            view == self.post_view_of(person, post),
    {
        let found = match position(&self.posts, &post) {
            Some(i) => &self.posts[i],
            None => { return None; },
        };
        let actions: Option<PostActions> = match position(&self.post_actions, &(person, post)) {
            Some(i) => Some(self.post_actions[i]),
            None => None,
        };
        let saved = match actions {
            Some(row) => row.saved.is_some(),
            None => false,
        };
        let read = match actions {
            Some(row) => row.read.is_some(),
            None => false,
        };
        Some(PostView { post: found.clone(), saved, read })
    }
}

/// The save that a request asks for, at the instant `now`.
pub open spec fn save_asked(data: SavePost, now: i64) -> Option<i64> {
    if data.save {
        Some(now)
    } else {
        None
    }
}

/// Saves the post for the viewer, or takes the save back, then marks the
/// post as read and answers with the post as the viewer sees it.
///
/// The view is taken after the save and before the post is marked, so it
/// shows the new save and the old read state. A save of a post that is not
/// there fails with `CouldntSavePost` and changes nothing; taking back a
/// save clears what is recorded even where the post is gone, and then fails
/// with `NotFound`.
pub fn save_post(data: &SavePost, store: &mut EntityStore, local_user_view: &LocalUserView) -> (r:
    Result<PostResponse, SavePostError>)
    ensures
        final(store).same_but_post_actions(old(store)),
        ({
            let me = local_user_view.person.id;
            let saved = with_saved(
                old(store).post_actions@,
                me,
                data.post_id,
                save_asked(*data, old(store).now),
            );
            match row_of(old(store).posts@, data.post_id) {
                Some(post) => {
                    &&& r matches Ok(response)
                    &&& response.post_view.post == post
                    &&& response.post_view.saved == data.save
                    &&& response.post_view.read == (row_of(
                        old(store).post_actions@,
                        (me, data.post_id),
                    ) matches Some(row) && row.read.is_some())
                    &&& final(store).post_actions@ == with_read(
                        saved,
                        me,
                        data.post_id,
                        old(store).now,
                    )
                },
                None => if data.save {
                    &&& r == Err::<PostResponse, SavePostError>(SavePostError::CouldntSavePost)
                    &&& final(store).post_actions@ == old(store).post_actions@
                } else {
                    &&& r == Err::<PostResponse, SavePostError>(SavePostError::NotFound)
                    &&& final(store).post_actions@ == saved
                },
            }
        }),
        unique_keys(old(store).post_actions@) ==> unique_keys(final(store).post_actions@),
        old(store).well_formed() ==> final(store).well_formed(),
{
    let person_id = local_user_view.person.id;
    let post_id = data.post_id;
    let now = store.now;
    let ghost before = old(store).post_actions@;
    let ghost wanted = with_key::<PostActions>((person_id, post_id));
    proof {
        lemma_first_index(before, wanted);
        if unique_keys(before) {
            lemma_post_actions_stay_unique(before, person_id, post_id, save_asked(*data, now), now);
            lemma_post_actions_stay_unique(
                with_saved(before, person_id, post_id, save_asked(*data, now)),
                person_id,
                post_id,
                None,
                now,
            );
        }
    }
    if data.save {
        if position(&store.posts, &post_id).is_none() {
            return Err(SavePostError::CouldntSavePost);
        }
        store.set_saved(person_id, post_id, Some(now));
    } else {
        store.set_saved(person_id, post_id, None);
    }
    proof {
        lemma_first_index(store.post_actions@, wanted);
        if let Some(i) = first_index(before, wanted) {
            assert(is_first(store.post_actions@, wanted, i));
            lemma_first_found(store.post_actions@, wanted, i);
        } else if data.save {
            assert(is_first(store.post_actions@, wanted, before.len() as int));
            lemma_first_found(store.post_actions@, wanted, before.len() as int);
        }
    }
    let post_view = match store.read_post(person_id, post_id) {
        Some(view) => view,
        None => { return Err(SavePostError::NotFound); },
    };
    store.mark_as_read(person_id, post_id);
    Ok(PostResponse { post_view })
}

} // verus!
