use report_views::entities::{LocalUser, Person, Post, PostActions};
use report_views::error::SavePostError;
use report_views::ids::{CommunityId, LocalUserId, PersonId, PostId};
use report_views::report_view::LocalUserView;
use report_views::saved_posts::{save_post, PostResponse, PostView, SavePost};
use report_views::store::EntityStore;

const NOW: i64 = 9_000;
const ME: PersonId = PersonId(7);

fn me() -> LocalUserView {
    LocalUserView {
        local_user: LocalUser { id: LocalUserId(1), person_id: ME, admin: false },
        person: Person {
            id: ME,
            name: "me".to_string(),
            display_name: None,
            banned: false,
            published: 1,
            updated: None,
            local: true,
            deleted: false,
            bot_account: false,
            ban_expires: None,
        },
    }
}

fn post(id: i32) -> Post {
    Post {
        id: PostId(id),
        name: format!("post {id}"),
        creator_id: PersonId(1),
        community_id: CommunityId(1),
        removed: false,
        locked: false,
        published: 2,
        updated: None,
        deleted: false,
        nsfw: false,
        local: true,
    }
}

fn store_with_posts() -> EntityStore {
    let mut store = EntityStore::new(NOW);
    store.posts = vec![post(1), post(2)];
    store
}

#[test]
fn saving_a_post_records_the_save_and_marks_it_read() {
    let mut store = store_with_posts();
    let response = save_post(&SavePost { post_id: PostId(2), save: true }, &mut store, &me());
    assert_eq!(
        response,
        Ok(PostResponse { post_view: PostView { post: post(2), saved: true, read: false } })
    );
    assert_eq!(
        store.post_actions,
        vec![PostActions { person_id: ME, post_id: PostId(2), read: Some(NOW), saved: Some(NOW) }]
    );
    assert_eq!(store.posts, vec![post(1), post(2)]);
}

#[test]
fn view_shows_the_read_state_from_before_the_request() {
    let mut store = store_with_posts();
    let data = SavePost { post_id: PostId(1), save: true };
    let first = save_post(&data, &mut store, &me()).unwrap();
    assert!(!first.post_view.read);
    store.now = NOW + 5;
    let second = save_post(&data, &mut store, &me()).unwrap();
    assert!(second.post_view.read);
    assert!(second.post_view.saved);
    assert_eq!(
        store.post_actions,
        vec![PostActions {
            person_id: ME,
            post_id: PostId(1),
            read: Some(NOW + 5),
            saved: Some(NOW + 5),
        }]
    );
}

#[test]
fn unsaving_clears_the_save_and_marks_the_post_read() {
    let mut store = store_with_posts();
    store.post_actions =
        vec![PostActions { person_id: ME, post_id: PostId(1), read: None, saved: Some(10) }];
    let response = save_post(&SavePost { post_id: PostId(1), save: false }, &mut store, &me());
    assert_eq!(
        response,
        Ok(PostResponse { post_view: PostView { post: post(1), saved: false, read: false } })
    );
    assert_eq!(
        store.post_actions,
        vec![PostActions { person_id: ME, post_id: PostId(1), read: Some(NOW), saved: None }]
    );
}

#[test]
fn unsaving_a_post_that_was_never_saved_only_marks_it_read() {
    let mut store = store_with_posts();
    let response =
        save_post(&SavePost { post_id: PostId(1), save: false }, &mut store, &me()).unwrap();
    assert!(!response.post_view.saved);
    assert_eq!(
        store.post_actions,
        vec![PostActions { person_id: ME, post_id: PostId(1), read: Some(NOW), saved: None }]
    );
}

#[test]
fn saving_touches_only_the_row_of_the_viewer_and_the_post() {
    let mut store = store_with_posts();
    let others = vec![
        PostActions { person_id: PersonId(8), post_id: PostId(1), read: None, saved: Some(1) },
        PostActions { person_id: ME, post_id: PostId(2), read: Some(2), saved: None },
    ];
    store.post_actions = others.clone();
    save_post(&SavePost { post_id: PostId(1), save: true }, &mut store, &me()).unwrap();
    assert_eq!(store.post_actions[..2], others[..]);
    assert_eq!(
        store.post_actions[2],
        PostActions { person_id: ME, post_id: PostId(1), read: Some(NOW), saved: Some(NOW) }
    );
    assert_eq!(store.post_actions.len(), 3);
    assert!(store.is_well_formed());
}

#[test]
fn saving_a_post_that_is_not_there_fails_and_changes_nothing() {
    let mut store = store_with_posts();
    let response = save_post(&SavePost { post_id: PostId(3), save: true }, &mut store, &me());
    assert_eq!(response, Err(SavePostError::CouldntSavePost));
    assert_eq!(store, store_with_posts());
}

#[test]
fn unsaving_a_post_that_is_not_there_is_not_found() {
    let mut store = store_with_posts();
    let response = save_post(&SavePost { post_id: PostId(3), save: false }, &mut store, &me());
    assert_eq!(response, Err(SavePostError::NotFound));
    assert_eq!(store, store_with_posts());
}

#[test]
fn read_post_shows_the_viewers_actions() {
    let mut store = store_with_posts();
    assert_eq!(store.read_post(ME, PostId(3)), None);
    assert_eq!(
        store.read_post(ME, PostId(1)),
        Some(PostView { post: post(1), saved: false, read: false })
    );
    store.set_saved(ME, PostId(1), Some(3));
    store.mark_as_read(PersonId(8), PostId(1));
    assert_eq!(
        store.read_post(ME, PostId(1)),
        Some(PostView { post: post(1), saved: true, read: false })
    );
    assert_eq!(
        store.read_post(PersonId(8), PostId(1)),
        Some(PostView { post: post(1), saved: false, read: true })
    );
    store.set_saved(ME, PostId(1), None);
    assert_eq!(
        store.read_post(ME, PostId(1)),
        Some(PostView { post: post(1), saved: false, read: false })
    );
    store.set_saved(ME, PostId(2), None);
    assert_eq!(store.post_actions.len(), 2);
}
