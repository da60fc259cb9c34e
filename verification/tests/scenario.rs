use report_views::entities::{
    Comment, CommentAggregates, CommentReport, Community, CommunityActions, CommunityVisibility,
    LocalUser, Person, Post, SubscribedType,
};
use report_views::ids::{
    CommentId, CommentReportId, CommunityId, LocalUserId, PersonId, PostId,
};
use report_views::query::CommentReportQuery;
use report_views::report_view::{CommentReportView, LocalUserView};
use report_views::store::EntityStore;

const NOW: i64 = 1_700_000_000_000_000;

fn test_person(id: i32, name: &str) -> Person {
    Person {
        id: PersonId(id),
        name: name.to_string(),
        display_name: None,
        banned: false,
        published: NOW - 1_000_000 + id as i64,
        updated: None,
        local: true,
        deleted: false,
        bot_account: false,
        ban_expires: None,
    }
}

#[test]
fn test_crud() {
    let mut store = EntityStore::new(NOW);

    let inserted_timmy = test_person(1, "timmy_crv");
    store.persons.push(inserted_timmy.clone());
    let timmy_local_user = LocalUser { id: LocalUserId(1), person_id: inserted_timmy.id, admin: false };
    store.local_users.push(timmy_local_user);
    let timmy_view = LocalUserView { local_user: timmy_local_user, person: inserted_timmy.clone() };

    let inserted_sara = test_person(2, "sara_crv");
    store.persons.push(inserted_sara.clone());

    // A third person, since a person can report something only once.
    let inserted_jessica = test_person(3, "jessica_crv");
    store.persons.push(inserted_jessica.clone());

    let inserted_community = Community {
        id: CommunityId(1),
        name: "test community crv".to_string(),
        title: "nada".to_owned(),
        removed: false,
        published: NOW - 900_000,
        updated: None,
        deleted: false,
        nsfw: false,
        local: true,
        hidden: false,
        posting_restricted_to_mods: false,
        visibility: CommunityVisibility::Public,
    };
    store.communities.push(inserted_community.clone());

    // Make timmy a mod
    store.community_actions.push(CommunityActions {
        community_id: inserted_community.id,
        person_id: inserted_timmy.id,
        followed: None,
        follow_state: None,
        became_moderator: Some(NOW - 800_000),
        received_ban: None,
        ban_expires: None,
    });

    let inserted_post = Post {
        id: PostId(1),
        name: "A test post crv".into(),
        creator_id: inserted_timmy.id,
        community_id: inserted_community.id,
        removed: false,
        locked: false,
        published: NOW - 700_000,
        updated: None,
        deleted: false,
        nsfw: false,
        local: true,
    };
    store.posts.push(inserted_post.clone());

    let inserted_comment = Comment {
        id: CommentId(1),
        creator_id: inserted_timmy.id,
        post_id: inserted_post.id,
        content: "A test comment 32".into(),
        removed: false,
        published: NOW - 600_000,
        updated: None,
        deleted: false,
        local: true,
        distinguished: false,
    };
    store.comments.push(inserted_comment.clone());
    let agg = CommentAggregates {
        comment_id: inserted_comment.id,
        score: 0,
        upvotes: 0,
        downvotes: 0,
        published: inserted_comment.published,
        child_count: 0,
        hot_rank_bits: 0.0001f64.to_bits(),
        controversy_rank_bits: 0.0f64.to_bits(),
    };
    store.comment_aggregates.push(agg);

    // sara reports
    let inserted_sara_report = CommentReport {
        id: CommentReportId(1),
        creator_id: inserted_sara.id,
        comment_id: inserted_comment.id,
        original_comment_text: "this was it at time of creation".into(),
        reason: "from sara".into(),
        resolved: false,
        resolver_id: None,
        published: NOW - 500_000,
        updated: None,
    };
    store.comment_reports.push(inserted_sara_report.clone());

    // jessica reports
    let inserted_jessica_report = CommentReport {
        id: CommentReportId(2),
        creator_id: inserted_jessica.id,
        comment_id: inserted_comment.id,
        original_comment_text: "this was it at time of creation".into(),
        reason: "from jessica".into(),
        resolved: false,
        resolver_id: None,
        published: NOW - 400_000,
        updated: None,
    };
    store.comment_reports.push(inserted_jessica_report.clone());
    assert!(store.is_well_formed());

    let read_jessica_report_view =
        CommentReportView::read(&store, inserted_jessica_report.id, inserted_timmy.id).unwrap();
    let expected_jessica_report_view = CommentReportView {
        comment_report: inserted_jessica_report.clone(),
        comment: inserted_comment.clone(),
        post: inserted_post,
        creator_is_moderator: true,
        creator_is_admin: false,
        creator_blocked: false,
        subscribed: SubscribedType::NotSubscribed,
        saved: false,
        community: Community {
            id: inserted_community.id,
            name: inserted_community.name,
            title: inserted_community.title,
            removed: false,
            published: inserted_community.published,
            updated: None,
            deleted: false,
            nsfw: false,
            local: true,
            hidden: false,
            posting_restricted_to_mods: false,
            visibility: CommunityVisibility::Public,
        },
        creator: Person {
            id: inserted_jessica.id,
            name: inserted_jessica.name,
            display_name: None,
            published: inserted_jessica.published,
            local: true,
            banned: false,
            deleted: false,
            bot_account: false,
            updated: None,
            ban_expires: None,
        },
        comment_creator: Person {
            id: inserted_timmy.id,
            name: inserted_timmy.name.clone(),
            display_name: None,
            published: inserted_timmy.published,
            local: true,
            banned: false,
            deleted: false,
            bot_account: false,
            updated: None,
            ban_expires: None,
        },
        creator_banned_from_community: false,
        counts: CommentAggregates {
            comment_id: inserted_comment.id,
            score: 0,
            upvotes: 0,
            downvotes: 0,
            published: agg.published,
            child_count: 0,
            hot_rank_bits: 0.0001f64.to_bits(),
            controversy_rank_bits: 0.0f64.to_bits(),
        },
        my_vote: None,
        resolver: None,
    };

    assert_eq!(read_jessica_report_view, expected_jessica_report_view);

    let mut expected_sara_report_view = expected_jessica_report_view.clone();
    expected_sara_report_view.comment_report = inserted_sara_report;
    expected_sara_report_view.creator = Person {
        id: inserted_sara.id,
        name: inserted_sara.name,
        display_name: None,
        published: inserted_sara.published,
        local: true,
        banned: false,
        deleted: false,
        bot_account: false,
        updated: None,
        ban_expires: None,
    };

    // Do a batch read of timmys reports
    let reports = CommentReportQuery::default().list(&store, &timmy_view).unwrap();

    assert_eq!(
        reports,
        [expected_jessica_report_view.clone(), expected_sara_report_view.clone()]
    );

    // Make sure the counts are correct
    let report_count =
        CommentReportView::get_report_count(&store, inserted_timmy.id, false, None);
    assert_eq!(2, report_count);

    // Try to resolve the report
    store.resolve(inserted_jessica_report.id, inserted_timmy.id).unwrap();
    let read_jessica_report_view_after_resolve =
        CommentReportView::read(&store, inserted_jessica_report.id, inserted_timmy.id).unwrap();

    let mut expected_jessica_report_view_after_resolve = expected_jessica_report_view;
    expected_jessica_report_view_after_resolve.comment_report.resolved = true;
    expected_jessica_report_view_after_resolve.comment_report.resolver_id = Some(inserted_timmy.id);
    expected_jessica_report_view_after_resolve.comment_report.updated =
        read_jessica_report_view_after_resolve.comment_report.updated;
    expected_jessica_report_view_after_resolve.resolver = Some(Person {
        id: inserted_timmy.id,
        name: inserted_timmy.name.clone(),
        display_name: None,
        published: inserted_timmy.published,
        local: true,
        banned: false,
        deleted: false,
        bot_account: false,
        updated: None,
        ban_expires: None,
    });

    assert_eq!(
        read_jessica_report_view_after_resolve,
        expected_jessica_report_view_after_resolve
    );
    assert_eq!(read_jessica_report_view_after_resolve.comment_report.updated, Some(NOW));

    // Do a batch read of timmys reports
    // It should only show saras, which is unresolved
    let reports_after_resolve = CommentReportQuery { unresolved_only: (true), ..Default::default() }
        .list(&store, &timmy_view)
        .unwrap();
    assert_eq!(reports_after_resolve[0], expected_sara_report_view);
    assert_eq!(reports_after_resolve.len(), 1);

    // Make sure the counts are correct
    let report_count_after_resolved =
        CommentReportView::get_report_count(&store, inserted_timmy.id, false, None);
    assert_eq!(1, report_count_after_resolved);
    assert!(store.is_well_formed());
}
