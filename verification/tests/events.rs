use mechvis::events::{Event, Resources, SourceInfo, TargetInfo};

fn resources(x: i64, y: i64) -> Resources {
    Resources {
        absorb: None,
        facing: 0,
        hit_points: 1000,
        max_hit_points: 1000,
        mp: 500,
        x,
        y,
    }
}

fn actor(id: i64) -> SourceInfo {
    SourceInfo { id, marker: None, instance: None }
}

fn target_actor(id: i64) -> TargetInfo {
    TargetInfo { id, marker: None, instance: None }
}

fn damage_event(
    timestamp: i64,
    source_id: i64,
    target_id: i64,
    source_resources: Option<Resources>,
    target_resources: Option<Resources>,
) -> Event {
    Event::Damage {
        ability_game_id: 42,
        amount: 1234,
        unmitigated_amount: None,
        direct_hit: Some(false),
        hit_type: 1,
        source: actor(source_id),
        target: target_actor(target_id),
        source_resources,
        target_resources,
        timestamp,
    }
}

#[test]
fn timestamp_is_read_from_every_variant() {
    assert_eq!(damage_event(77, 1, 2, None, None).get_timestamp(), 77);
    assert_eq!(Event::GaugeUpdate { timestamp: 5 }.get_timestamp(), 5);
    assert_eq!(
        Event::EncounterEnd { kill: true, timestamp: 90 }.get_timestamp(),
        90
    );
    assert_eq!(
        Event::Tether {
            ability_game_id: 1,
            source: actor(1),
            target: target_actor(2),
            timestamp: 64,
        }
        .get_timestamp(),
        64
    );
}

#[test]
fn source_resources_come_with_the_source_id() {
    let e = damage_event(10, 21, 22, Some(resources(3, 4)), None);
    let (id, res) = e.get_source_resources().unwrap();
    assert_eq!(id, 21);
    assert_eq!((res.x, res.y), (3, 4));
    assert!(e.get_target_resources().is_none());
}

#[test]
fn target_resources_come_with_the_target_id() {
    let e = damage_event(10, 21, 22, None, Some(resources(-7, 9)));
    let (id, res) = e.get_target_resources().unwrap();
    assert_eq!(id, 22);
    assert_eq!((res.x, res.y), (-7, 9));
    assert!(e.get_source_resources().is_none());
}

#[test]
fn kinds_without_position_data_report_none() {
    let buff = Event::ApplyBuff {
        ability_game_id: 3,
        extra_ability_game_id: None,
        duration: 10,
        source: actor(1),
        target: target_actor(2),
        timestamp: 15,
    };
    assert!(buff.get_source_resources().is_none());
    assert!(buff.get_target_resources().is_none());
}
