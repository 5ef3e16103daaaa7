use xash3d_engine::activity::Activity;
use xash3d_engine::event_kind::EventKind;

#[test]
fn activity_raw_round_trip() {
    for raw in [i32::MIN, -1, 0, 1, 76, 77, i32::MAX] {
        assert_eq!(Activity::from_raw(raw).into_raw(), raw);
    }
    assert_eq!(Activity::from_raw(Activity::IDLE), Activity::from_raw(1));
    assert_eq!(Activity::default().into_raw(), 0);
}

#[test]
fn activity_names() {
    assert_eq!(Activity::from_raw(Activity::RESET).as_str(), Some("RESET"));
    assert_eq!(Activity::from_raw(1).as_str(), Some("IDLE"));
    assert_eq!(Activity::from_raw(Activity::MELEE_ATTACK2).as_str(), Some("MELEE_ATTACK2"));
    assert_eq!(Activity::from_raw(76).as_str(), Some("FLINCH_RIGHTLEG"));
    assert_eq!(Activity::from_raw(77).as_str(), None);
    assert_eq!(Activity::from_raw(-1).as_str(), None);
}

#[test]
fn activity_names_are_distinct() {
    let mut names: Vec<&str> = (0..=76).map(|raw| Activity::from_raw(raw).as_str().unwrap()).collect();
    names.sort();
    names.dedup();
    assert_eq!(names.len(), 77);
}

#[test]
fn activity_display_text() {
    assert_eq!(Activity::from_raw(Activity::IDLE).to_string(), "Activity(1, IDLE)");
    assert_eq!(Activity::from_raw(0).to_string(), "Activity(0, RESET)");
    assert_eq!(Activity::from_raw(Activity::VICTORY_DANCE).to_string(), "Activity(65, VICTORY_DANCE)");
    assert_eq!(Activity::from_raw(77).to_string(), "Activity(77)");
    assert_eq!(Activity::from_raw(-12).to_string(), "Activity(-12)");
    assert_eq!(Activity::from_raw(i32::MIN).to_string(), "Activity(-2147483648)");
    assert_eq!(Activity::from_raw(i32::MAX).to_string(), "Activity(2147483647)");
    assert_eq!(Activity::from_raw(1000).to_string(), "Activity(1000)");
}

#[test]
fn activity_order_follows_raw() {
    assert!(Activity::from_raw(3) < Activity::from_raw(4));
    assert!(Activity::from_raw(-3) < Activity::from_raw(0));
    assert!(Activity::from_raw(5) >= Activity::from_raw(5));
    assert_eq!(Activity::from_raw(9).cmp(&Activity::from_raw(2)), std::cmp::Ordering::Greater);
}

#[test]
fn event_kind_order_follows_raw() {
    assert!(EventKind::from_raw(4999) < EventKind::from_raw(EventKind::CLIENT));
    assert!(EventKind::from_raw(5004) >= EventKind::from_raw(EventKind::CLIENT));
    assert!(EventKind::from_raw(-1) < EventKind::from_raw(0));
    assert_eq!(
        EventKind::from_raw(1004).partial_cmp(&EventKind::from_raw(1004)),
        Some(std::cmp::Ordering::Equal)
    );
    assert_eq!(EventKind::from_raw(3).cmp(&EventKind::from_raw(2)), std::cmp::Ordering::Greater);
}

#[test]
fn event_kind_raw_round_trip() {
    for raw in [i32::MIN, -1, 0, 999, 1000, 1004, 2000, 4999, 5000, i32::MAX] {
        assert_eq!(EventKind::from_raw(raw).into_raw(), raw);
    }
    assert_eq!(EventKind::default().into_raw(), 0);
}

#[test]
fn event_kind_ranges() {
    let classes = |raw: i32| {
        let k = EventKind::from_raw(raw);
        (k.is_specific(), k.is_scripted(), k.is_shared(), k.is_client())
    };
    assert_eq!(classes(-1), (false, false, false, false));
    assert_eq!(classes(i32::MIN), (false, false, false, false));
    assert_eq!(classes(0), (true, false, false, false));
    assert_eq!(classes(999), (true, false, false, false));
    assert_eq!(classes(1000), (false, true, false, false));
    assert_eq!(classes(1999), (false, true, false, false));
    assert_eq!(classes(2000), (false, false, true, false));
    assert_eq!(classes(4999), (false, false, true, false));
    assert_eq!(classes(5000), (false, false, false, true));
    assert_eq!(classes(i32::MAX), (false, false, false, true));
}

#[test]
fn event_kind_ranges_partition() {
    for raw in (-50..6000).chain([i32::MIN, i32::MAX]) {
        let k = EventKind::from_raw(raw);
        let count = [k.is_specific(), k.is_scripted(), k.is_shared(), k.is_client()]
            .iter()
            .filter(|b| **b)
            .count();
        assert_eq!(count, if raw >= 0 { 1 } else { 0 });
    }
}

#[test]
fn event_kind_script_sound() {
    assert!(EventKind::from_raw(EventKind::SCRIPT_SOUND).is_script_sound());
    assert!(EventKind::from_raw(EventKind::SCRIPT_SOUND_VOICE).is_script_sound());
    assert!(!EventKind::from_raw(EventKind::SCRIPT_SENTENCE).is_script_sound());
    assert!(!EventKind::from_raw(5004).is_script_sound());
    assert!(EventKind::from_raw(1004).is_scripted());
    assert!(EventKind::from_raw(1008).is_scripted());
}

#[test]
fn event_kind_display_text() {
    assert_eq!(EventKind::from_raw(1004).to_string(), "event(1004, SCRIPT_SOUND)");
    assert_eq!(EventKind::from_raw(EventKind::SCRIPTED).to_string(), "event(1000, SCRIPT_DEAD)");
    assert_eq!(EventKind::from_raw(2010).to_string(), "event(2010, MONSTER_SWISHSOUND)");
    assert_eq!(EventKind::from_raw(5000).to_string(), "event(5000)");
    assert_eq!(EventKind::from_raw(0).to_string(), "event(0)");
    assert_eq!(EventKind::from_raw(-7).to_string(), "event(-7)");
}
