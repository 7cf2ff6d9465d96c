use buglog::BugLog;
use buglog::ConnectionPool;
use buglog::PageRequest;
use buglog::paginate;

fn event_titled(title: &str) -> BugLog {
    let mut e = BugLog::empty();
    e.title = Some(title.to_owned());
    e
}

#[test]
fn normalize_defaults_and_caps() {
    let r = PageRequest::normalize(0, 0);
    assert_eq!(r.page_no, 1);
    assert_eq!(r.page_size, 10);

    let r = PageRequest::normalize(3, 150);
    assert_eq!(r.page_no, 3);
    assert_eq!(r.page_size, 100);

    let r = PageRequest::normalize(2, 25);
    assert_eq!(r.page_no, 2);
    assert_eq!(r.page_size, 25);
}

#[test]
fn no_page_exceeds_page_size() {
    let rows = vec![
        event_titled("a"),
        event_titled("b"),
        event_titled("c"),
        event_titled("d"),
        event_titled("e"),
    ];
    let p = paginate(rows, &PageRequest { page_no: 1, page_size: 2 });
    assert_eq!(p.records.len(), 2);
    assert_eq!(p.total, 5);
    assert_eq!(p.records[0].title.as_deref(), Some("a"));
    assert_eq!(p.records[1].title.as_deref(), Some("b"));
}

#[test]
fn last_page_may_be_partial() {
    let rows = vec![event_titled("a"), event_titled("b"), event_titled("c")];
    let p = paginate(rows, &PageRequest { page_no: 2, page_size: 2 });
    assert_eq!(p.records.len(), 1);
    assert_eq!(p.total, 3);
    assert_eq!(p.records[0].title.as_deref(), Some("c"));
}

#[test]
fn page_past_the_end_is_empty_with_correct_total() {
    let rows = vec![event_titled("a"), event_titled("b"), event_titled("c")];
    let p = paginate(rows, &PageRequest { page_no: 7, page_size: 10 });
    assert_eq!(p.records.len(), 0);
    assert_eq!(p.total, 3);
    assert_eq!(p.page_no, 7);
    assert_eq!(p.page_size, 10);
}

#[test]
fn structured_fields_come_back_as_json_strings() {
    let mut e = BugLog::empty();
    e.detail = Some("{\"stack\":\"trace\"}".to_owned());
    e.action_info = Some("[1,2,3]".to_owned());
    e.custom = Some("{\"k\":\"v\"}".to_owned());
    let p = paginate(vec![e], &PageRequest { page_no: 1, page_size: 10 });
    assert_eq!(p.records.len(), 1);
    assert_eq!(p.records[0].detail.as_deref(), Some("{\"stack\":\"trace\"}"));
    assert_eq!(p.records[0].action_info.as_deref(), Some("[1,2,3]"));
    assert_eq!(p.records[0].custom.as_deref(), Some("{\"k\":\"v\"}"));
}

#[test]
fn pool_hands_out_at_most_capacity_connections() {
    let mut pool = ConnectionPool::new(2);
    assert_eq!(pool.capacity(), 2);
    assert_eq!(pool.in_use(), 0);
    assert!(pool.try_acquire());
    assert!(pool.try_acquire());
    assert!(!pool.try_acquire());
    assert_eq!(pool.in_use(), 2);
}

#[test]
fn burst_larger_than_the_pool_is_eventually_served() {
    // Five requests against a pool of two: each one that finds the pool
    // exhausted waits for a release and then gets its connection.
    let mut pool = ConnectionPool::new(2);
    let mut served: usize = 0;
    let mut waiting: usize = 5;
    while waiting > 0 {
        if pool.try_acquire() {
            waiting -= 1;
            // scoped use ends: the connection goes back on every exit path
            pool.release();
            served += 1;
        }
    }
    assert_eq!(served, 5);
    assert_eq!(pool.in_use(), 0);
}
