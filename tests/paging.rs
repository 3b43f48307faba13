use bookmarks::error::resp_err;
use bookmarks::paging::{page_count, page_request, PageRequest};

#[test]
fn page_defaults_to_the_first() {
    assert_eq!(page_request(None, None, 50), Some(PageRequest { index: 0, size: 50 }));
}

#[test]
fn page_numbers_start_at_one() {
    assert_eq!(page_request(Some(3), Some(10), 50), Some(PageRequest { index: 2, size: 10 }));
    assert_eq!(page_request(Some(0), None, 50), None);
    assert_eq!(page_request(Some(1), Some(0), 50), None);
    assert_eq!(page_request(Some(usize::MAX), None, 25), Some(PageRequest { index: usize::MAX - 1, size: 25 }));
}

#[test]
fn page_count_rounds_up() {
    assert_eq!(page_count(0, 25), 0);
    assert_eq!(page_count(1, 25), 1);
    assert_eq!(page_count(25, 25), 1);
    assert_eq!(page_count(26, 25), 2);
    assert_eq!(page_count(u64::MAX, 1), u64::MAX);
    assert_eq!(page_count(u64::MAX, 2), u64::MAX / 2 + 1);
}

#[test]
fn error_body_carries_status_and_message() {
    let (status, body) = resp_err(422, "not a valid url");
    assert_eq!(status, 422);
    assert_eq!(body.err, "not a valid url");
}
