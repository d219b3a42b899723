use beholder::cycle::{next_action, CycleAction, FrameOutcome};
use beholder::geometry::{floor_midpoint, Corner, Detection};
use beholder::marker_detection::{create_marker_detector, MarkerDetector, MARKER_COUNT};

fn corner(x: f32, y: f32) -> Corner {
    Corner { x: x.floor() as i32, y: y.floor() as i32 }
}

fn square(id: i32, x0: f32, y0: f32, x2: f32, y2: f32) -> Detection {
    Detection::new(id, [corner(x0, y0), corner(x2, y0), corner(x2, y2), corner(x0, y2)])
}

fn position(t: &MarkerDetector, id: usize) -> (i32, i32) {
    let s = t.snapshot();
    (s[id].x(), s[id].y())
}

#[test]
fn fresh_table_encodes_to_zero_pairs() {
    let t = create_marker_detector();
    assert_eq!(t.len(), MARKER_COUNT);
    assert_eq!(t.print_markers(), "0 0 ".repeat(8));
    let t3 = MarkerDetector::new(3).unwrap();
    assert_eq!(t3.print_markers(), "0 0 0 0 0 0 ");
}

#[test]
fn zero_capacity_is_refused() {
    assert!(MarkerDetector::new(0).is_none());
    assert_eq!(MarkerDetector::new(1).unwrap().len(), 1);
}

#[test]
fn out_of_range_ids_are_ignored() {
    let mut t = create_marker_detector();
    let before = t.print_markers();
    let ds = vec![
        square(8, 10.0, 10.0, 20.0, 20.0),
        square(-1, 10.0, 10.0, 20.0, 20.0),
        square(99, 1.0, 2.0, 3.0, 4.0),
        square(i32::MIN, 1.0, 2.0, 3.0, 4.0),
    ];
    t.observation_loop(&ds);
    assert_eq!(t.print_markers(), before);
}

#[test]
fn update_uses_two_stage_floor() {
    let mut t = create_marker_detector();
    let d = Detection::new(
        3,
        [corner(2.3, 4.9), corner(0.0, 0.0), corner(7.8, 1.2), corner(0.0, 0.0)],
    );
    t.observation_loop(&vec![d]);
    assert_eq!(position(&t, 3), (4, 2));
    assert_eq!(d.centroid(), (4, 2));
}

#[test]
fn empty_frame_keeps_last_positions() {
    let mut t = create_marker_detector();
    let d = Detection::new(
        3,
        [corner(2.3, 4.9), corner(0.0, 0.0), corner(7.8, 1.2), corner(0.0, 0.0)],
    );
    t.observation_loop(&vec![d]);
    t.observation_loop(&vec![]);
    assert_eq!(position(&t, 3), (4, 2));
    t.observation_loop(&vec![square(5, 1.0, 1.0, 3.0, 3.0)]);
    assert_eq!(position(&t, 3), (4, 2));
    assert_eq!(position(&t, 5), (2, 2));
}

#[test]
fn encoding_twice_gives_same_text() {
    let mut t = create_marker_detector();
    t.observation_loop(&vec![square(1, 100.5, 7.0, 201.9, 8.0)]);
    let a = t.print_markers();
    let b = t.print_markers();
    assert_eq!(a, b);
    assert_eq!(a, "0 0 150 7 0 0 0 0 0 0 0 0 0 0 0 0 ");
}

#[test]
fn end_to_end_single_marker() {
    let mut t = create_marker_detector();
    let d = Detection::new(
        0,
        [
            Corner { x: 10, y: 10 },
            Corner { x: 10, y: 20 },
            Corner { x: 20, y: 20 },
            Corner { x: 20, y: 10 },
        ],
    );
    match next_action(&mut t, FrameOutcome::Detected(vec![d])) {
        CycleAction::Send(msg) => {
            assert!(msg.starts_with(&format!("15 15 {}", "0 0 ".repeat(6))));
            assert_eq!(msg, format!("15 15 {}", "0 0 ".repeat(7)));
        }
        CycleAction::Stop => panic!("a frame with detections must be sent"),
    }
    assert_eq!(position(&t, 0), (15, 15));
}

#[test]
fn failed_frame_stops_without_message() {
    let mut t = create_marker_detector();
    t.observation_loop(&vec![square(2, 4.0, 4.0, 8.0, 8.0)]);
    let before = t.print_markers();
    assert!(matches!(next_action(&mut t, FrameOutcome::Failed), CycleAction::Stop));
    assert_eq!(t.print_markers(), before);
}

#[test]
fn later_detection_of_same_id_wins() {
    let mut t = create_marker_detector();
    t.observation_loop(&vec![
        square(4, 0.0, 0.0, 10.0, 10.0),
        square(4, 30.0, 40.0, 50.0, 60.0),
    ]);
    assert_eq!(position(&t, 4), (40, 50));
}

#[test]
fn negative_coordinates_round_down() {
    assert_eq!(floor_midpoint(-3, 0), -2);
    assert_eq!(floor_midpoint(-4, 1), -2);
    assert_eq!(floor_midpoint(2, 7), 4);
    assert_eq!(floor_midpoint(i32::MAX, i32::MAX), i32::MAX);
    assert_eq!(floor_midpoint(i32::MIN, i32::MIN), i32::MIN);
    let mut t = MarkerDetector::new(2).unwrap();
    t.observation_loop(&vec![square(1, -0.5, -7.2, 0.0, 2.0)]);
    assert_eq!(t.print_markers(), "0 0 -1 -3 ");
}

#[test]
fn large_values_are_written_in_full() {
    let mut t = MarkerDetector::new(2).unwrap();
    t.set(0, i32::MAX, i32::MIN);
    t.set(1, 1234567, 10);
    assert_eq!(t.print_markers(), "2147483647 -2147483648 1234567 10 ");
}

#[test]
fn initialize_vector_resets_all_entries() {
    let mut t = MarkerDetector::new(4).unwrap();
    t.set(2, 9, 9);
    t.initialize_vector();
    assert_eq!(t.len(), 4);
    assert_eq!(t.print_markers(), "0 0 0 0 0 0 0 0 ");
}

#[test]
fn snapshot_lists_entries_in_id_order() {
    let mut t = MarkerDetector::new(3).unwrap();
    t.set(1, 5, 6);
    let s = t.snapshot();
    assert_eq!(s.len(), 3);
    for (i, m) in s.iter().enumerate() {
        assert_eq!(m.id(), i);
    }
    assert_eq!((s[1].x(), s[1].y()), (5, 6));
    assert_eq!((s[2].x(), s[2].y()), (0, 0));
}
