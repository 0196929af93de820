use hn_cli::{Collector, DecodeError, FetchError, FieldName, Progress, Story, TransportError};

fn story(n: u32) -> Story {
    Story { title: format!("story {}", n), url: None, score: n as i32, by: format!("author {}", n) }
}

fn unreachable_feed() -> FetchError {
    FetchError::Transport(TransportError { status: None, detail: "unreachable".to_string() })
}

fn not_found() -> FetchError {
    FetchError::Transport(TransportError { status: Some(404), detail: "not found".to_string() })
}

/// Runs a collection to its end, fetching with `fetch`, and gives the
/// identifiers attempted, the reports, and the stories.
fn run(
    ids: Vec<u32>,
    count: u64,
    fetch: fn(u32) -> Result<Story, FetchError>,
) -> (Vec<u32>, Vec<Progress>, Vec<Story>) {
    let mut collector = Collector::new(ids, count);
    let mut attempted = Vec::new();
    let mut reports = Vec::new();
    while let Some(id) = collector.next_id() {
        attempted.push(id);
        let report = collector.record(fetch(id)).unwrap();
        reports.push(report);
    }
    assert!(collector.is_done());
    assert_eq!(collector.attempted(), attempted.len());
    assert_eq!(collector.limit(), attempted.len());
    (attempted, reports, collector.into_records())
}

fn always(id: u32) -> Result<Story, FetchError> {
    Ok(story(id))
}

fn never(_id: u32) -> Result<Story, FetchError> {
    Err(unreachable_feed())
}

fn odd_only(id: u32) -> Result<Story, FetchError> {
    if id % 2 == 1 {
        Ok(story(id))
    } else if id % 4 == 0 {
        Err(not_found())
    } else {
        Err(FetchError::Decode(DecodeError::MissingField(FieldName::Title)))
    }
}

#[test]
fn limit_is_the_count_where_the_list_is_longer() {
    let collector = Collector::new(vec![10, 20, 30, 40, 50], 3);
    assert_eq!(collector.limit(), 3);
    assert_eq!(collector.attempted(), 0);
    assert!(!collector.is_done());
    assert_eq!(collector.next_id(), Some(10));
}

#[test]
fn limit_is_the_length_where_the_list_is_shorter() {
    let collector = Collector::new(vec![10, 20], 30);
    assert_eq!(collector.limit(), 2);
    let collector = Collector::new(vec![10, 20], u64::MAX);
    assert_eq!(collector.limit(), 2);
    let collector = Collector::new(vec![10, 20], 2);
    assert_eq!(collector.limit(), 2);
}

#[test]
fn attempts_and_reports_are_as_many_as_the_limit() {
    let (attempted, reports, _) = run(vec![5, 6, 7, 8, 9], 3, odd_only);
    assert_eq!(attempted, vec![5, 6, 7]);
    assert_eq!(reports.len(), 3);
    let (attempted, reports, _) = run(vec![5, 6], 30, never);
    assert_eq!(attempted, vec![5, 6]);
    assert_eq!(reports.len(), 2);
}

#[test]
fn count_of_nought_attempts_nothing() {
    let mut collector = Collector::new(vec![1, 2, 3], 0);
    assert_eq!(collector.limit(), 0);
    assert!(collector.is_done());
    assert_eq!(collector.next_id(), None);
    assert_eq!(collector.record(Ok(story(1))), None);
    assert_eq!(collector.attempted(), 0);
    assert!(collector.records().is_empty());
    let (attempted, reports, records) = run(vec![1, 2, 3], 0, always);
    assert!(attempted.is_empty());
    assert!(reports.is_empty());
    assert!(records.is_empty());
}

#[test]
fn empty_list_attempts_nothing() {
    let (attempted, reports, records) = run(vec![], 30, always);
    assert!(attempted.is_empty());
    assert!(reports.is_empty());
    assert!(records.is_empty());
}

#[test]
fn all_successes_are_kept_in_the_order_of_the_list() {
    let (attempted, reports, records) = run(vec![30, 10, 20, 40], 3, always);
    assert_eq!(attempted, vec![30, 10, 20]);
    assert_eq!(records, vec![story(30), story(10), story(20)]);
    assert_eq!(
        reports,
        vec![
            Progress { id: 30, completed: 1, limit: 3, skipped: None },
            Progress { id: 10, completed: 2, limit: 3, skipped: None },
            Progress { id: 20, completed: 3, limit: 3, skipped: None },
        ]
    );
}

#[test]
fn failures_are_skipped_and_the_rest_keep_their_order() {
    let (attempted, reports, records) = run(vec![9, 4, 7, 6, 3, 1], 5, odd_only);
    assert_eq!(attempted, vec![9, 4, 7, 6, 3]);
    assert_eq!(records, vec![story(9), story(7), story(3)]);
    assert_eq!(records.len(), 5 - 2);
    assert_eq!(
        reports,
        vec![
            Progress { id: 9, completed: 1, limit: 5, skipped: None },
            Progress { id: 4, completed: 2, limit: 5, skipped: Some(not_found()) },
            Progress { id: 7, completed: 3, limit: 5, skipped: None },
            Progress {
                id: 6,
                completed: 4,
                limit: 5,
                skipped: Some(FetchError::Decode(DecodeError::MissingField(FieldName::Title))),
            },
            Progress { id: 3, completed: 5, limit: 5, skipped: None },
        ]
    );
}

#[test]
fn all_failures_leave_nothing() {
    let (attempted, reports, records) = run(vec![1, 2, 3], 3, never);
    assert_eq!(attempted, vec![1, 2, 3]);
    assert_eq!(reports.len(), 3);
    assert!(reports.iter().all(|r| r.skipped == Some(unreachable_feed())));
    assert!(records.is_empty());
}

#[test]
fn repeated_identifiers_are_each_attempted() {
    let (attempted, _, records) = run(vec![7, 7, 7], 3, always);
    assert_eq!(attempted, vec![7, 7, 7]);
    assert_eq!(records, vec![story(7), story(7), story(7)]);
}

#[test]
fn outcome_past_the_limit_is_dropped() {
    let mut collector = Collector::new(vec![1, 2, 3], 1);
    assert_eq!(
        collector.record(Ok(story(1))),
        Some(Progress { id: 1, completed: 1, limit: 1, skipped: None })
    );
    assert!(collector.is_done());
    assert_eq!(collector.next_id(), None);
    assert_eq!(collector.record(Ok(story(2))), None);
    assert_eq!(collector.record(Err(unreachable_feed())), None);
    assert_eq!(collector.attempted(), 1);
    assert_eq!(collector.records(), &vec![story(1)]);
}

#[test]
fn records_grow_as_outcomes_come() {
    let mut collector = Collector::new(vec![1, 2, 3], 3);
    assert!(collector.records().is_empty());
    collector.record(Ok(story(1)));
    assert_eq!(collector.records(), &vec![story(1)]);
    assert_eq!(collector.next_id(), Some(2));
    collector.record(Err(not_found()));
    assert_eq!(collector.records(), &vec![story(1)]);
    assert_eq!(collector.attempted(), 2);
    assert_eq!(collector.next_id(), Some(3));
    assert!(!collector.is_done());
    collector.record(Ok(story(3)));
    assert_eq!(collector.records(), &vec![story(1), story(3)]);
    assert!(collector.is_done());
}
