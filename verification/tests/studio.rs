use xash3d_engine::activity::Activity;
use xash3d_engine::cstr::{bytes_eq_ignore_ascii_case, c_str_bytes, c_str_len_exec};
use xash3d_engine::event_kind::EventKind;
use xash3d_engine::studio::{BoneController, Event, Model, PrecacheAction, SequenceDesc};

fn buf(text: &str, size: usize) -> Vec<u8> {
    let mut b = text.as_bytes().to_vec();
    b.resize(size, 0);
    b
}

fn seq(label: &str, activity: i32, actweight: i32, events: Vec<Event>) -> SequenceDesc {
    SequenceDesc {
        label: buf(label, 32),
        flags: 0,
        activity,
        actweight,
        events,
        numframes: 10,
        entrynode: 0,
        exitnode: 0,
    }
}

fn model(seqs: Vec<SequenceDesc>) -> Model {
    Model::new(buf("models/scientist.mdl", 64), 10, 0, Vec::new(), seqs, vec![1, 2, 3])
}

#[test]
fn c_string_buffers() {
    assert_eq!(c_str_bytes(b"abc\0def"), b"abc");
    assert_eq!(c_str_bytes(b"abc"), b"abc");
    assert_eq!(c_str_bytes(b"\0abc"), b"");
    assert_eq!(c_str_bytes(b""), b"");
    assert_eq!(c_str_len_exec(b"ab\0\0"), 2);
    assert!(bytes_eq_ignore_ascii_case(b"Idle1", b"iDLE1"));
    assert!(!bytes_eq_ignore_ascii_case(b"idle", b"idle1"));
    assert!(!bytes_eq_ignore_ascii_case(b"[", b"{"));
    assert!(bytes_eq_ignore_ascii_case(b"", b""));
}

#[test]
fn event_fields() {
    let e = Event::new(7, 1004, buf("scientist/sci_pain1.wav", 64));
    assert_eq!(e.frame(), 7);
    assert_eq!(e.kind().into_raw(), 1004);
    assert_eq!(e.options(), b"scientist/sci_pain1.wav");
}

#[test]
fn sequence_fields_and_flags() {
    let mut d = seq("walk", Activity::WALK, 3, Vec::new());
    d.flags = 1 | 0x8000;
    d.entrynode = 4;
    d.exitnode = 5;
    let m = model(vec![seq("idle", Activity::IDLE, 1, Vec::new()), d]);
    let s = m.sequence(1).unwrap();
    assert_eq!(s.index(), 1);
    assert_eq!(s.name(), b"walk");
    assert!(s.is_looping());
    assert!(s.is_static());
    assert_eq!(s.flags(), 0x8001);
    assert_eq!(s.activity(), Activity::from_raw(Activity::WALK));
    assert_eq!(s.activity_weight(), 3);
    assert_eq!(s.frames(), 10);
    assert_eq!(s.entry_node(), 4);
    assert_eq!(s.exit_node(), 5);
    let first = m.sequence(0).unwrap();
    assert!(!first.is_looping() && !first.is_static());
    assert!(m.sequence(2).is_none());
}

#[test]
fn model_fields() {
    let m = model(vec![seq("idle", 1, 1, Vec::new())]);
    assert_eq!(m.name(), b"models/scientist.mdl");
    assert_eq!(m.version(), 10);
    assert_eq!(m.flags(), 0);
    assert_eq!(m.transitions_raw(), &[1, 2, 3]);
    assert_eq!(m.sequences_raw().len(), 1);
    let all = m.sequences();
    assert_eq!(all.len(), 1);
    assert_eq!(all[0].index(), 0);
}

#[test]
fn find_sequence_by_name() {
    let m = model(vec![
        seq("idle1", 1, 1, Vec::new()),
        seq("Walk", 3, 1, Vec::new()),
        seq("walk", 3, 1, Vec::new()),
    ]);
    assert_eq!(m.find_sequence(b"WALK").unwrap().index(), 1);
    assert_eq!(m.find_sequence(b"idle1").unwrap().index(), 0);
    assert!(m.find_sequence(b"idle").is_none());
    assert_eq!(m.find_sequence_index(b"walk"), 1);
    assert_eq!(m.find_sequence_index(b"run"), 0);
}

#[test]
fn sequences_by_activity_in_order() {
    let m = model(vec![
        seq("a", 1, 1, Vec::new()),
        seq("b", 2, 1, Vec::new()),
        seq("c", 1, 1, Vec::new()),
    ]);
    let found: Vec<usize> = m.sequences_by_activity(Activity::from_raw(1)).iter().map(|s| s.index()).collect();
    assert_eq!(found, vec![0, 2]);
    assert!(m.sequences_by_activity(Activity::from_raw(9)).is_empty());
}

#[test]
fn heaviest_sequence_by_activity() {
    let m = model(vec![
        seq("a", 1, 5, Vec::new()),
        seq("b", 2, 9, Vec::new()),
        seq("c", 1, 7, Vec::new()),
        seq("d", 1, 7, Vec::new()),
        seq("e", 1, 2, Vec::new()),
    ]);
    // the last of the equally heaviest
    assert_eq!(m.find_sequence_by_activity_heaviest(Activity::from_raw(1)).unwrap().index(), 3);
    assert_eq!(m.find_sequence_index_by_activity_heaviest(Activity::from_raw(2)), 1);
    assert!(m.find_sequence_by_activity_heaviest(Activity::from_raw(3)).is_none());
    assert_eq!(m.find_sequence_index_by_activity_heaviest(Activity::from_raw(3)), 0);
}

#[test]
fn weighted_random_draw_plan() {
    let m = model(vec![
        seq("a", 1, 2, Vec::new()),
        seq("b", 2, 9, Vec::new()),
        seq("c", 1, 3, Vec::new()),
    ]);
    // one draw per sequence with the activity, bounded by the running total less one
    assert_eq!(m.activity_draws(Activity::from_raw(1)), vec![(0, 1), (2, 4)]);
    assert_eq!(m.activity_draws(Activity::from_raw(2)), vec![(1, 8)]);
    assert!(m.activity_draws(Activity::from_raw(7)).is_empty());
}

#[test]
fn weighted_random_sequence_by_activity() {
    let m = model(vec![
        seq("a", 1, 2, Vec::new()),
        seq("b", 2, 9, Vec::new()),
        seq("c", 1, 3, Vec::new()),
    ]);
    let a = Activity::from_raw(1);
    // drawing the lowest numbers keeps replacing the choice
    assert_eq!(m.find_sequence_by_activity(a, &[0, 0]).unwrap().index(), 2);
    // a number at or above the weight keeps the earlier choice
    assert_eq!(m.find_sequence_by_activity(a, &[0, 3]).unwrap().index(), 0);
    assert_eq!(m.find_sequence_index_by_activity(a, &[1, 4]), 0);
    assert_eq!(m.find_sequence_index_by_activity(a, &[1, 2]), 2);
    assert!(m.find_sequence_by_activity(Activity::from_raw(7), &[]).is_none());
    assert_eq!(m.find_sequence_index_by_activity(Activity::from_raw(7), &[]), 0);
}

#[test]
fn weighted_random_zero_weights() {
    // a running total of zero picks the sequence without any draw
    let m = model(vec![seq("a", 1, 0, Vec::new()), seq("b", 3, 5, Vec::new()), seq("c", 1, 0, Vec::new())]);
    let a = Activity::from_raw(1);
    assert!(m.activity_draws(a).is_empty());
    assert_eq!(m.find_sequence_by_activity(a, &[]).unwrap().index(), 2);
}

#[test]
fn weighted_random_zero_total_between() {
    // weights 2 then -2: the total returns to zero at the second, which is then picked
    let m = model(vec![seq("a", 1, 2, Vec::new()), seq("b", 1, -2, Vec::new())]);
    let a = Activity::from_raw(1);
    assert_eq!(m.activity_draws(a), vec![(0, 1)]);
    assert_eq!(m.find_sequence_index_by_activity(a, &[1]), 1);
}

#[test]
fn precache_plan_of_events() {
    let events = vec![
        Event::new(0, EventKind::SCRIPT_SOUND, buf("sci/a.wav", 64)),
        Event::new(1, 5004, buf("client.wav", 64)),
        Event::new(2, EventKind::SCRIPT_SENTENCE, buf("!SC_HELLO", 64)),
        Event::new(3, EventKind::SCRIPT_SOUND_VOICE, buf("", 64)),
        Event::new(4, EventKind::SCRIPT_SOUND_VOICE, buf("sci/b.wav", 64)),
    ];
    let m = model(vec![seq("idle", 1, 1, events)]);
    let s = m.sequence(0).unwrap();
    assert_eq!(
        s.precache(),
        vec![
            PrecacheAction::Sound { event: 0 },
            PrecacheAction::InvalidSound { event: 3 },
            PrecacheAction::Sound { event: 4 },
        ]
    );
    assert_eq!(s.events()[4].options(), b"sci/b.wav");
    let (found, actions) = m.precache_sequence_by_name(b"IDLE").unwrap();
    assert_eq!(found.index(), 0);
    assert_eq!(actions.len(), 3);
    assert!(m.precache_sequence_by_name(b"walk").is_none());
}

#[test]
fn bone_controller_lookup() {
    let ctrls = vec![BoneController::new(8, 0), BoneController::new(-1, 2), BoneController::new(1, 2)];
    let m = Model::new(buf("m", 64), 10, 0, ctrls, Vec::new(), Vec::new());
    let i = m.find_bone_controller(2).unwrap();
    assert_eq!(i, 1);
    let c = &m.bone_controllers()[i];
    assert_eq!(c.ty().bits(), u32::MAX);
    assert_eq!(c.index(), 2);
    assert_eq!(m.find_bone_controller(0), Some(0));
    assert!(m.find_bone_controller(1).is_none());
    assert_eq!(m.bone_controllers().len(), 3);
}
