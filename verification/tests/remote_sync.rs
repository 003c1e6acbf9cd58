use std::time::Duration;

use preflight::remote::{map_response_error, Page, Pagination, PageStep, RemoteError, SyncLoop, SyncResult};

#[derive(Debug, PartialEq, Eq)]
struct TestError;

fn assert_sentinel<E: std::fmt::Debug>(r: Result<(), RemoteError<E>>, pred: impl Fn(&RemoteError<E>) -> bool) {
    match r {
        Ok(()) => panic!("expected error, got Ok"),
        Err(e) => assert!(pred(&e), "unexpected error: {e:?}"),
    }
}

#[test]
fn ok_on_2xx() {
    assert!(map_response_error::<TestError>(200, None, &[]).is_ok());
    assert!(map_response_error::<TestError>(299, None, &[]).is_ok());
}

#[test]
fn unauthorized_on_401() {
    assert_sentinel(map_response_error::<TestError>(401, None, &[]), |e| {
        matches!(e, RemoteError::Unauthorized)
    });
}

#[test]
fn rate_limited_on_429_with_retry_after() {
    assert_sentinel(
        map_response_error::<TestError>(429, Some(Duration::from_secs(60)), &[]),
        |e| matches!(e, RemoteError::RateLimited { retry_after: Some(_) }),
    );
}

#[test]
fn rate_limited_on_429_without_retry_after() {
    assert_sentinel(map_response_error::<TestError>(429, None, &[]), |e| {
        matches!(e, RemoteError::RateLimited { retry_after: None })
    });
}

#[test]
fn remote_on_403() {
    assert_sentinel(
        map_response_error::<TestError>(403, None, &[]),
        |e| matches!(e, RemoteError::Remote(m) if m == "HTTP 403"),
    );
}

#[test]
fn remote_on_5xx() {
    assert_sentinel(
        map_response_error::<TestError>(500, None, &[]),
        |e| matches!(e, RemoteError::Remote(m) if m == "HTTP 500"),
    );
}

#[test]
fn remote_on_other_status() {
    assert_sentinel(map_response_error::<TestError>(418, None, &[]), |e| {
        matches!(e, RemoteError::Remote(_))
    });
}

#[test]
fn graphql_errors_preempt_status() {
    let errs = vec!["boom".to_string(), "oops".to_string()];
    assert_sentinel(
        map_response_error::<TestError>(200, None, &errs),
        |e| matches!(e, RemoteError::Remote(m) if m == "boom; oops"),
    );
}

#[test]
fn empty_graphql_errors_are_ignored() {
    assert!(map_response_error::<TestError>(200, None, &[]).is_ok());
}

#[test]
fn remote_message_of_a_three_digit_status() {
    assert_sentinel(
        map_response_error::<TestError>(404, None, &[]),
        |e| matches!(e, RemoteError::Remote(m) if m == "HTTP 404"),
    );
}

#[test]
fn single_graphql_error_is_the_message() {
    let errs = vec!["only".to_string()];
    assert_sentinel(
        map_response_error::<TestError>(500, None, &errs),
        |e| matches!(e, RemoteError::Remote(m) if m == "only"),
    );
}

#[test]
fn empty_has_no_items_and_terminates() {
    let p = Page::<i32>::empty();
    assert!(p.items.is_empty());
    assert_eq!(p.end_cursor, None);
    assert!(!p.has_next_page);
}

#[test]
fn page_carries_items_and_cursor() {
    let p = Page {
        items: vec![1, 2, 3],
        end_cursor: Some("abc".into()),
        has_next_page: true,
    };
    assert_eq!(p.items, vec![1, 2, 3]);
    assert_eq!(p.end_cursor, Some("abc".into()));
    assert!(p.has_next_page);
}

#[test]
fn partial_eq_compares_all_fields() {
    let a = Page { items: vec!["x".to_string()], end_cursor: Some("c1".into()), has_next_page: true };
    let b = Page { items: vec!["x".to_string()], end_cursor: Some("c1".into()), has_next_page: true };
    let c = Page { items: vec!["x".to_string()], end_cursor: Some("c1".into()), has_next_page: false };
    assert_eq!(a, b);
    assert_ne!(a, c);
}

#[test]
fn sync_result_defaults_are_empty() {
    let r = SyncResult::<i32>::default();
    assert!(r.items.is_empty());
    assert_eq!(r.end_cursor, None);
}

fn page(items: Vec<i32>, cursor: Option<&str>, next: bool) -> Page<i32> {
    Page { items, end_cursor: cursor.map(|c| c.to_string()), has_next_page: next }
}

#[test]
fn pagination_buffers_every_page_in_order() {
    let mut p = Pagination::<i32>::new();
    assert!(matches!(p.step::<TestError>(Ok(page(vec![1, 2], Some("c1"), true))), PageStep::Continue));
    assert_eq!(p.after.as_deref(), Some("c1"));
    assert!(matches!(p.step::<TestError>(Ok(page(vec![3], Some("c2"), true))), PageStep::Continue));
    assert!(matches!(p.step::<TestError>(Ok(page(vec![4], None, false))), PageStep::Done));
    let r = p.finish();
    assert_eq!(r.items, vec![1, 2, 3, 4]);
    assert_eq!(r.end_cursor.as_deref(), Some("c2"));
}

#[test]
fn pagination_first_page_failure_is_the_provider_error() {
    let mut p = Pagination::<i32>::new();
    match p.step(Err(TestError)) {
        PageStep::Failed(RemoteError::Provider(e)) => assert_eq!(e, TestError),
        other => panic!("unexpected {other:?}"),
    }
}

#[test]
fn pagination_mid_stream_failure_is_partial_results() {
    let mut p = Pagination::<i32>::new();
    let _ = p.step::<TestError>(Ok(page(vec![1], Some("c1"), true)));
    assert!(matches!(p.step(Err(TestError)), PageStep::Failed(RemoteError::PartialResults)));
}

#[test]
fn pagination_next_page_without_cursor_is_invalid() {
    let mut p = Pagination::<i32>::new();
    assert!(matches!(
        p.step::<TestError>(Ok(page(vec![1], None, true))),
        PageStep::Failed(RemoteError::PaginationCursorInvalid)
    ));
}

#[test]
fn sync_loop_keeps_its_client() {
    let l = SyncLoop::new(7u32);
    assert_eq!(*l.client(), 7);
}

/// Drives a pass the way the event loop does: pops fetch outcomes from the
/// end of `pages` (an empty queue yields an empty last page) and feeds them
/// to the pagination until it is done or fails.
fn run_pages(mut pages: Vec<Result<Page<i32>, TestError>>) -> Result<SyncResult<i32>, RemoteError<TestError>> {
    let mut p = Pagination::<i32>::new();
    loop {
        let fetched = pages.pop().unwrap_or(Ok(page(vec![], None, false)));
        match p.step(fetched) {
            PageStep::Continue => {}
            PageStep::Done => return Ok(p.finish()),
            PageStep::Failed(e) => return Err(e),
        }
    }
}

#[test]
fn single_page_returns_items() {
    let result = run_pages(vec![Ok(page(vec![1, 2], None, false))]).unwrap();
    assert_eq!(result.items, vec![1, 2]);
    assert_eq!(result.end_cursor, None);
}

#[test]
fn two_pages_buffers_all_and_returns_accumulated_cursor() {
    let result = run_pages(vec![
        Ok(page(vec![2], None, false)),     // popped last → second fetch
        Ok(page(vec![1], Some("X"), true)), // popped first → first fetch
    ])
    .unwrap();
    let mut items = result.items;
    items.sort_unstable();
    assert_eq!(items, vec![1, 2]);
    assert_eq!(result.end_cursor, Some("X".into()));
}

#[test]
fn first_page_error_surfaces_provider_error() {
    match run_pages(vec![Err(TestError)]) {
        Err(RemoteError::Provider(TestError)) => {}
        Err(other) => panic!("expected Provider error, got {other:?}"),
        Ok(_) => panic!("expected error, got Ok"),
    }
}

#[test]
fn mid_page_error_returns_partial_results_and_discards_buffer() {
    match run_pages(vec![Err(TestError), Ok(page(vec![1], Some("X"), true))]) {
        Err(RemoteError::PartialResults) => {}
        Err(other) => panic!("expected PartialResults, got {other:?}"),
        Ok(_) => panic!("expected PartialResults, got Ok"),
    }
}

#[test]
fn has_next_without_cursor_returns_pagination_cursor_invalid() {
    match run_pages(vec![Ok(page(vec![], None, true))]) {
        Err(RemoteError::PaginationCursorInvalid) => {}
        Err(other) => panic!("expected PaginationCursorInvalid, got {other:?}"),
        Ok(_) => panic!("expected PaginationCursorInvalid, got Ok"),
    }
}

#[test]
fn empty_terminal_page_returns_empty_items() {
    let result = run_pages(vec![Ok(page(vec![], None, false))]).unwrap();
    assert!(result.items.is_empty());
    assert_eq!(result.end_cursor, None);
}
