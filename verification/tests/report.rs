use mechvis::report::parse_selection;
use mechvis::video::{frame_times, FRAME_INTERVAL_MS};

#[test]
fn selection_accepts_a_listed_index() {
    assert_eq!(parse_selection(&b"0".to_vec(), 5), Some(0));
    assert_eq!(parse_selection(&b"3".to_vec(), 5), Some(3));
    assert_eq!(parse_selection(&b"4".to_vec(), 5), Some(4));
    assert_eq!(parse_selection(&b"12".to_vec(), 20), Some(12));
}

#[test]
fn selection_rejects_out_of_range_and_junk() {
    assert_eq!(parse_selection(&b"5".to_vec(), 5), None);
    assert_eq!(parse_selection(&b"".to_vec(), 5), None);
    assert_eq!(parse_selection(&b"two".to_vec(), 5), None);
    assert_eq!(parse_selection(&b"1x".to_vec(), 5), None);
    assert_eq!(parse_selection(&b"-1".to_vec(), 5), None);
    assert_eq!(
        parse_selection(&b"99999999999999999999999999".to_vec(), 5),
        None
    );
}

#[test]
fn frame_schedule_steps_through_the_fight() {
    assert_eq!(FRAME_INTERVAL_MS, 250);
    assert_eq!(frame_times(0, 1000), vec![0, 250, 500, 750]);
    assert_eq!(frame_times(0, 1001), vec![0, 250, 500, 750, 1000]);
    assert_eq!(frame_times(500, 501), vec![500]);
    assert_eq!(frame_times(5, 5), Vec::<i64>::new());
    assert_eq!(frame_times(10, 5), Vec::<i64>::new());
}
