use mechvis::positions::{
    EmptyTrajectoryError, EntityHistories, Keyframe, Position, PositionHistory,
};

fn pos(x: i64, y: i64) -> Position {
    Position { x, y }
}

fn queried(history: &PositionHistory, t: i64) -> (f64, f64) {
    let p = history.get_position_at(t).unwrap();
    (
        p.x_num as f64 / p.den as f64,
        p.y_num as f64 / p.den as f64,
    )
}

fn keyframes(history: &PositionHistory) -> Vec<(i64, Position)> {
    let mut result = Vec::new();
    let mut i = 0;
    while let Some(kf) = history.keyframe(i) {
        result.push((kf.timestamp, kf.position));
        i += 1;
    }
    result
}

#[test]
fn simple_add_test() {
    let mut history = PositionHistory::default();

    history.add_update(1, pos(1, 1));
    history.add_update(2, pos(2, 2));
    history.add_update(3, pos(3, 3));

    assert_eq!(history.len(), 3);
    assert!(!history.is_empty());
}

#[test]
fn complex_add_test() {
    let mut history = PositionHistory::default();
    history.add_update(1, pos(10, 10));
    history.add_update(2, pos(10, 10));
    history.add_update(3, pos(10, 10));
    assert_eq!(history.len(), 2);

    history.add_update(10, pos(20, 20));
    assert_eq!(history.len(), 3);

    history.add_update(9, pos(20, 20));
    assert_eq!(history.len(), 4);

    history.add_update(8, pos(20, 20));
    assert_eq!(history.len(), 4);
}

#[test]
fn get_position_test() {
    let mut history = PositionHistory::default();

    history.add_update(10, pos(0, 0));
    history.add_update(20, pos(0, 10));
    history.add_update(30, pos(10, 10));

    assert_eq!(queried(&history, 10), (0.0, 0.0));
    assert_eq!(queried(&history, 20), (0.0, 10.0));
    assert_eq!(queried(&history, 30), (10.0, 10.0));

    assert_eq!(queried(&history, 5), (0.0, 0.0));
    assert_eq!(queried(&history, 35), (10.0, 10.0));

    assert_eq!(queried(&history, 15), (0.0, 5.0));
    assert_eq!(queried(&history, 25), (5.0, 10.0));
    assert_eq!(queried(&history, 28), (8.0, 10.0));
}

#[test]
fn insert_is_idempotent() {
    let mut once = PositionHistory::new();
    once.add_update(10, pos(3, 4));

    let mut twice = PositionHistory::new();
    twice.add_update(10, pos(3, 4));
    twice.add_update(10, pos(3, 4));

    assert_eq!(keyframes(&once), keyframes(&twice));

    let mut run_once = PositionHistory::new();
    run_once.add_update(1, pos(7, 7));
    run_once.add_update(2, pos(7, 7));
    run_once.add_update(3, pos(7, 7));

    let mut run_twice = PositionHistory::new();
    run_twice.add_update(1, pos(7, 7));
    run_twice.add_update(2, pos(7, 7));
    run_twice.add_update(3, pos(7, 7));
    run_twice.add_update(3, pos(7, 7));

    assert_eq!(keyframes(&run_once), keyframes(&run_twice));
}

#[test]
fn stationary_run_is_compacted() {
    let mut history = PositionHistory::new();
    history.add_update(1, pos(5, 6));
    history.add_update(2, pos(5, 6));
    history.add_update(3, pos(5, 6));

    assert_eq!(keyframes(&history), vec![(1, pos(5, 6)), (3, pos(5, 6))]);
}

#[test]
fn longer_run_is_compacted() {
    let mut history = PositionHistory::new();
    for t in 1..=5 {
        history.add_update(t, pos(5, 6));
    }

    assert_eq!(keyframes(&history), vec![(1, pos(5, 6)), (5, pos(5, 6))]);
}

#[test]
fn midpoint_of_constant_segment_is_elided() {
    let mut history = PositionHistory::new();
    history.add_update(10, pos(5, 6));
    history.add_update(30, pos(5, 6));
    history.add_update(20, pos(5, 6));

    assert_eq!(keyframes(&history), vec![(10, pos(5, 6)), (30, pos(5, 6))]);
}

#[test]
fn exact_hit_returns_stored_position() {
    let mut history = PositionHistory::new();
    history.add_update(10, pos(1, 2));
    history.add_update(20, pos(3, 4));
    history.add_update(40, pos(-5, 0));

    for (t, p) in [(10, pos(1, 2)), (20, pos(3, 4)), (40, pos(-5, 0))] {
        let r = history.get_position_at(t).unwrap();
        assert_eq!((r.x_num, r.y_num, r.den), (p.x as i128, p.y as i128, 1));
    }
}

#[test]
fn interpolation_between_keyframes() {
    let mut history = PositionHistory::new();
    history.add_update(10, pos(0, 0));
    history.add_update(30, pos(10, 10));

    assert_eq!(queried(&history, 20), (5.0, 5.0));
    assert_eq!(queried(&history, 15), (2.5, 2.5));
    // ratio (28 - 10) / (30 - 10) = 0.9 on both axes
    assert_eq!(queried(&history, 28), (9.0, 9.0));
}

#[test]
fn query_clamps_outside_recorded_span() {
    let mut history = PositionHistory::new();
    history.add_update(10, pos(0, 0));
    history.add_update(30, pos(10, 10));

    assert_eq!(queried(&history, 5), (0.0, 0.0));
    assert_eq!(queried(&history, 35), (10.0, 10.0));
}

#[test]
fn single_keyframe_answers_every_time() {
    let mut history = PositionHistory::new();
    history.add_update(100, pos(8, -9));

    for t in [i64::MIN, -5, 0, 99, 100, 101, i64::MAX] {
        assert_eq!(queried(&history, t), (8.0, -9.0));
    }
}

#[test]
fn empty_store_query_fails() {
    let history = PositionHistory::new();
    assert_eq!(history.get_position_at(0), Err(EmptyTrajectoryError));
    assert!(history.is_empty());
}

#[test]
fn samples_route_to_their_entity() {
    let mut histories = EntityHistories::new();
    histories.add_sample(1, 10, pos(0, 0));
    histories.add_sample(2, 10, pos(100, 100));
    histories.add_sample(1, 20, pos(4, 4));

    assert_eq!(histories.entity_count(), 2);
    let first = histories.get(1).unwrap();
    assert_eq!(
        keyframes(first),
        vec![(10, pos(0, 0)), (20, pos(4, 4))]
    );
    let second = histories.get(2).unwrap();
    assert_eq!(keyframes(second), vec![(10, pos(100, 100))]);
    assert!(histories.get(3).is_none());
}

#[test]
fn keyframe_accessor_bounds() {
    let mut history = PositionHistory::new();
    history.add_update(1, pos(2, 3));
    assert_eq!(
        history.keyframe(0),
        Some(Keyframe { timestamp: 1, position: pos(2, 3) })
    );
    assert_eq!(history.keyframe(1), None);
}
