use preflight::app::App;
use preflight::gql::PullRequest;
use preflight::pick::pr_picker_candidates;

#[test]
fn test_pr_picker_sorts_open_first_then_recency() {


    let mut app = App::default();
    app.data.pulls = vec![
        PullRequest {
            id: 1,
            owner: "o".into(),
            repo: "r".into(),
            number: 1,
            title: "Closed old".into(),
            url: "x".into(),
            author: None,
            state: "closed".into(),
            review_requested: false,
            authored_by_me: false,
            changes_requested: false,
            copilot_comments: false,
            merge_conflicts: false,
            approved: false,
            actions_failing: false,
            dismissed_at: None,
            remote_updated_at: Some("2024-01-01T00:00:00Z".into()),
        },
        PullRequest {
            id: 2,
            owner: "o".into(),
            repo: "r".into(),
            number: 2,
            title: "Open new".into(),
            url: "x".into(),
            author: None,
            state: "open".into(),
            review_requested: false,
            authored_by_me: false,
            changes_requested: false,
            copilot_comments: false,
            merge_conflicts: false,
            approved: false,
            actions_failing: false,
            dismissed_at: None,
            remote_updated_at: Some("2024-06-01T00:00:00Z".into()),
        },
        PullRequest {
            id: 3,
            owner: "o".into(),
            repo: "r".into(),
            number: 3,
            title: "Open older".into(),
            url: "x".into(),
            author: None,
            state: "open".into(),
            review_requested: false,
            authored_by_me: false,
            changes_requested: false,
            copilot_comments: false,
            merge_conflicts: false,
            approved: false,
            actions_failing: false,
            dismissed_at: None,
            remote_updated_at: Some("2024-03-01T00:00:00Z".into()),
        },
    ];
    let result = pr_picker_candidates(&app, "");
    assert_eq!(result, vec![1, 2, 0]);
}

#[test]
fn test_pr_picker_none_updated_sorts_last() {


    let mut app = App::default();
    app.data.pulls = vec![
        PullRequest {
            id: 1,
            owner: "o".into(),
            repo: "r".into(),
            number: 1,
            title: "Open no date".into(),
            url: "x".into(),
            author: None,
            state: "open".into(),
            review_requested: false,
            authored_by_me: false,
            changes_requested: false,
            copilot_comments: false,
            merge_conflicts: false,
            approved: false,
            actions_failing: false,
            dismissed_at: None,
            remote_updated_at: None,
        },
        PullRequest {
            id: 2,
            owner: "o".into(),
            repo: "r".into(),
            number: 2,
            title: "Open with date".into(),
            url: "x".into(),
            author: None,
            state: "open".into(),
            review_requested: false,
            authored_by_me: false,
            changes_requested: false,
            copilot_comments: false,
            merge_conflicts: false,
            approved: false,
            actions_failing: false,
            dismissed_at: None,
            remote_updated_at: Some("2024-06-01T00:00:00Z".into()),
        },
    ];
    let result = pr_picker_candidates(&app, "");
    assert_eq!(result, vec![1, 0]);
}

