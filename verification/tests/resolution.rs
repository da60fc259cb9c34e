use report_views::entities::{
    Comment, CommentAggregates, CommentReport, Community, CommunityActions, CommunityVisibility,
    Person, Post,
};
use report_views::error::ReportError;
use report_views::ids::{CommentId, CommentReportId, CommunityId, PersonId, PostId};
use report_views::report_view::CommentReportView;
use report_views::store::EntityStore;

const NOW: i64 = 5_000;
const AUTHOR: PersonId = PersonId(1);
const REPORTER: PersonId = PersonId(2);
const MODERATOR: PersonId = PersonId(3);
const ADMIN: PersonId = PersonId(4);

fn person(id: PersonId, name: &str) -> Person {
    Person {
        id,
        name: name.to_string(),
        display_name: Some(name.to_uppercase()),
        banned: false,
        published: 1,
        updated: None,
        local: false,
        deleted: false,
        bot_account: false,
        ban_expires: None,
    }
}

fn open_report(id: i32, published: i64) -> CommentReport {
    CommentReport {
        id: CommentReportId(id),
        creator_id: REPORTER,
        comment_id: CommentId(1),
        original_comment_text: "as it was".to_string(),
        reason: "spam".to_string(),
        resolved: false,
        resolver_id: None,
        published,
        updated: None,
    }
}

fn store_with_two_reports() -> EntityStore {
    let mut store = EntityStore::new(NOW);
    store.persons = vec![
        person(AUTHOR, "author"),
        person(REPORTER, "reporter"),
        person(MODERATOR, "moderator"),
        person(ADMIN, "admin"),
    ];
    store.communities = vec![Community {
        id: CommunityId(1),
        name: "main".to_string(),
        title: "Main".to_string(),
        removed: false,
        published: 2,
        updated: None,
        deleted: false,
        nsfw: false,
        local: true,
        hidden: false,
        posting_restricted_to_mods: false,
        visibility: CommunityVisibility::LocalOnly,
    }];
    store.posts = vec![Post {
        id: PostId(1),
        name: "a post".to_string(),
        creator_id: AUTHOR,
        community_id: CommunityId(1),
        removed: false,
        locked: false,
        published: 3,
        updated: None,
        deleted: false,
        nsfw: false,
        local: true,
    }];
    store.comments = vec![Comment {
        id: CommentId(1),
        creator_id: AUTHOR,
        post_id: PostId(1),
        content: "a comment".to_string(),
        removed: false,
        published: 4,
        updated: None,
        deleted: false,
        local: true,
        distinguished: false,
    }];
    store.comment_aggregates = vec![CommentAggregates {
        comment_id: CommentId(1),
        score: 0,
        upvotes: 0,
        downvotes: 0,
        published: 4,
        child_count: 0,
        hot_rank_bits: 0,
        controversy_rank_bits: 0,
    }];
    store.community_actions = vec![CommunityActions {
        community_id: CommunityId(1),
        person_id: MODERATOR,
        followed: None,
        follow_state: None,
        became_moderator: Some(5),
        received_ban: None,
        ban_expires: None,
    }];
    store.comment_reports = vec![open_report(1, 10), open_report(2, 20)];
    store
}

#[test]
fn resolving_records_the_resolver_and_the_time() {
    let mut store = store_with_two_reports();
    let row = store.resolve(CommentReportId(1), MODERATOR).unwrap();
    assert!(row.comment_report.resolved);
    assert_eq!(row.comment_report.resolver_id, Some(MODERATOR));
    assert_eq!(row.comment_report.updated, Some(NOW));
    assert_eq!(row.resolver, Some(person(MODERATOR, "moderator")));
    let expected = CommentReport {
        resolved: true,
        resolver_id: Some(MODERATOR),
        updated: Some(NOW),
        ..open_report(1, 10)
    };
    assert_eq!(row.comment_report, expected);
    assert_eq!(store.comment_reports, vec![expected, open_report(2, 20)]);
    assert!(store.is_well_formed());
}

#[test]
fn resolving_returns_what_a_read_returns_afterwards() {
    let mut store = store_with_two_reports();
    let row = store.resolve(CommentReportId(2), ADMIN).unwrap();
    assert_eq!(Ok(row), CommentReportView::read(&store, CommentReportId(2), ADMIN));
}

#[test]
fn resolving_changes_nothing_but_the_report() {
    let mut store = store_with_two_reports();
    store.resolve(CommentReportId(1), MODERATOR).unwrap();
    let mut expected = store_with_two_reports();
    expected.comment_reports[0].resolved = true;
    expected.comment_reports[0].resolver_id = Some(MODERATOR);
    expected.comment_reports[0].updated = Some(NOW);
    assert_eq!(store, expected);
}

#[test]
fn resolving_again_lets_the_last_resolver_win() {
    let mut store = store_with_two_reports();
    store.resolve(CommentReportId(1), MODERATOR).unwrap();
    store.now = NOW + 100;
    let row = store.resolve(CommentReportId(1), ADMIN).unwrap();
    assert!(row.comment_report.resolved);
    assert_eq!(row.comment_report.resolver_id, Some(ADMIN));
    assert_eq!(row.comment_report.updated, Some(NOW + 100));
    assert_eq!(row.resolver, Some(person(ADMIN, "admin")));

    let mut once = store_with_two_reports();
    once.now = NOW + 100;
    once.resolve(CommentReportId(1), ADMIN).unwrap();
    assert_eq!(store, once);
}

#[test]
fn resolving_twice_by_the_same_resolver_is_idempotent() {
    let mut store = store_with_two_reports();
    let first = store.resolve(CommentReportId(2), MODERATOR).unwrap();
    let second = store.resolve(CommentReportId(2), MODERATOR).unwrap();
    assert_eq!(first, second);
}

#[test]
fn resolving_an_unknown_report_is_not_found_and_changes_nothing() {
    let mut store = store_with_two_reports();
    assert_eq!(store.resolve(CommentReportId(3), MODERATOR), Err(ReportError::NotFound));
    assert_eq!(store, store_with_two_reports());
    let mut empty = EntityStore::new(NOW);
    assert_eq!(empty.resolve(CommentReportId(1), MODERATOR), Err(ReportError::NotFound));
    assert_eq!(empty, EntityStore::new(NOW));
}

#[test]
fn resolving_by_a_person_unknown_to_the_store_names_no_resolver_row() {
    let mut store = store_with_two_reports();
    let row = store.resolve(CommentReportId(1), PersonId(99)).unwrap();
    assert_eq!(row.comment_report.resolver_id, Some(PersonId(99)));
    assert_eq!(row.resolver, None);
}

#[test]
fn resolving_a_report_without_a_view_updates_it_and_reports_not_found() {
    let mut store = store_with_two_reports();
    store.comments.clear();
    assert_eq!(store.resolve(CommentReportId(1), MODERATOR), Err(ReportError::NotFound));
    assert!(store.comment_reports[0].resolved);
    assert_eq!(store.comment_reports[0].resolver_id, Some(MODERATOR));
    assert!(!store.comment_reports[1].resolved);
}

#[test]
fn resolved_report_leaves_the_open_queue() {
    let mut store = store_with_two_reports();
    assert_eq!(CommentReportView::get_report_count(&store, MODERATOR, false, None), 2);
    store.resolve(CommentReportId(1), MODERATOR).unwrap();
    assert_eq!(CommentReportView::get_report_count(&store, MODERATOR, false, None), 1);
    store.resolve(CommentReportId(2), MODERATOR).unwrap();
    assert_eq!(CommentReportView::get_report_count(&store, MODERATOR, false, None), 0);
    assert_eq!(CommentReportView::get_report_count(&store, ADMIN, true, None), 0);
}

#[test]
fn transition_of_one_report_sets_state_resolver_and_time() {
    let mut report = open_report(7, 70);
    report.resolve(MODERATOR, 80);
    assert_eq!(
        report,
        CommentReport {
            resolved: true,
            resolver_id: Some(MODERATOR),
            updated: Some(80),
            ..open_report(7, 70)
        }
    );
    report.resolve(ADMIN, 90);
    assert_eq!(report.resolver_id, Some(ADMIN));
    assert_eq!(report.updated, Some(90));
    assert!(report.resolved);
    assert_eq!(report.published, 70);
    assert_eq!(report.reason, "spam");
}

#[test]
fn copy_of_a_snapshot_is_not_touched_by_a_resolution() {
    let mut store = store_with_two_reports();
    let copy = store.clone();
    assert_eq!(copy, store);
    store.resolve(CommentReportId(1), MODERATOR).unwrap();
    assert_eq!(copy, store_with_two_reports());
    assert!(copy != store);
}
