use mechvis::events::Event;
use mechvis::fetch::{EventFetcher, PageRequest, PageResult};

fn gauge(timestamp: i64) -> Event {
    Event::GaugeUpdate { timestamp }
}

#[test]
fn pagination_concatenates_pages_and_terminates() {
    let mut fetcher = EventFetcher::new(0, 100, 7);

    let first = fetcher.next_request().unwrap();
    assert_eq!(
        first,
        PageRequest { start_time: 0, end_time: 100, fight_id: 7 }
    );
    fetcher.apply_page(PageResult {
        events: vec![gauge(1), gauge(40)],
        next_cursor: Some(50),
    });

    let second = fetcher.next_request().unwrap();
    assert_eq!(
        second,
        PageRequest { start_time: 50, end_time: 100, fight_id: 7 }
    );
    fetcher.apply_page(PageResult {
        events: vec![gauge(60), gauge(90)],
        next_cursor: None,
    });

    // The remote stopped supplying a cursor: the fetch is over.
    assert!(fetcher.next_request().is_none());
    let events = fetcher.into_events();
    assert_eq!(events, vec![gauge(1), gauge(40), gauge(60), gauge(90)]);
}

#[test]
fn pagination_stops_when_cursor_reaches_window_end() {
    let mut fetcher = EventFetcher::new(0, 100, 3);
    fetcher.apply_page(PageResult { events: vec![gauge(10)], next_cursor: Some(100) });
    assert!(fetcher.next_request().is_none());
    assert_eq!(fetcher.into_events(), vec![gauge(10)]);
}

#[test]
fn empty_window_requests_nothing() {
    let fetcher = EventFetcher::new(100, 100, 1);
    assert!(fetcher.next_request().is_none());
    assert_eq!(fetcher.into_events(), Vec::<Event>::new());
}
