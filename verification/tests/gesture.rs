use cube_creation::geometry::BoxGeometry;
use cube_creation::geometry::Extent3;
use cube_creation::geometry::Point3;
use cube_creation::gesture::is_pinch_closed;
use cube_creation::gesture::is_proximate;
use cube_creation::gesture::GestureSignals;
use cube_creation::gesture::Hand;
use cube_creation::gesture::HandPose;
use cube_creation::gesture::HandPoses;
use cube_creation::gesture::HandSide;
use cube_creation::gesture::Joint;
use cube_creation::gesture::PINCH_THRESHOLD;
use cube_creation::gesture::PROXIMITY_THRESHOLD;
use cube_creation::stage::CreationEvent;

fn point(x: i32, y: i32, z: i32) -> Point3 {
    Point3 { x, y, z }
}

fn pose(side: HandSide, joint: Joint, x: i32, y: i32, z: i32) -> HandPose {
    HandPose { side, joint, position: point(x, y, z) }
}

fn hand(index_tip: Option<Point3>, thumb_tip: Option<Point3>) -> Hand {
    Hand { index_tip, thumb_tip }
}

#[test]
fn thresholds_are_seven_and_three_hundredths() {
    assert_eq!(PINCH_THRESHOLD, 70_000);
    assert_eq!(PROXIMITY_THRESHOLD, 30_000);
}

#[test]
fn pinch_exactly_at_the_threshold_is_broken() {
    let index = point(0, 0, 0);
    assert!(!is_pinch_closed(&index, &point(70_000, 0, 0)));
    assert!(!is_pinch_closed(&index, &point(0, -70_000, 0)));
    assert!(hand(Some(index), Some(point(0, 0, 70_000))).pinch_broken());
}

#[test]
fn pinch_just_under_the_threshold_is_closed() {
    let index = point(0, 0, 0);
    assert!(is_pinch_closed(&index, &point(69_900, 0, 0)));
    assert!(is_pinch_closed(&index, &point(69_999, 0, 0)));
    assert!(!hand(Some(index), Some(point(69_999, 0, 0))).pinch_broken());
    assert_eq!(hand(Some(index), Some(point(69_999, 0, 0))).pinch(), Some(true));
}

#[test]
fn pinch_over_the_threshold_is_broken() {
    let index = point(1_000_000, 1_000_000, 1_000_000);
    let thumb = point(1_080_000, 1_000_000, 1_000_000);
    assert!(!is_pinch_closed(&index, &thumb));
    assert_eq!(hand(Some(index), Some(thumb)).pinch(), Some(false));
    assert!(hand(Some(index), Some(thumb)).pinch_broken());
}

#[test]
fn pinch_is_measured_along_the_diagonal() {
    let index = point(0, 0, 0);
    assert!(!is_pinch_closed(&index, &point(42_000, 56_000, 0)));
    assert!(is_pinch_closed(&index, &point(42_000, 55_999, 0)));
    assert!(!is_pinch_closed(&index, &point(20_000, 30_000, 60_000)));
    assert!(is_pinch_closed(&index, &point(40_000, 40_000, 40_000)));
    assert!(!is_pinch_closed(&index, &point(40_415, 40_415, 40_415)));
}

#[test]
fn proximity_exactly_at_the_threshold_counts() {
    let left = point(0, 0, 0);
    assert!(is_proximate(&left, &point(30_000, 0, 0)));
    assert!(is_proximate(&left, &point(0, 0, -30_000)));
    assert!(is_proximate(&left, &point(18_000, 24_000, 0)));
}

#[test]
fn proximity_just_over_the_threshold_does_not_count() {
    let left = point(0, 0, 0);
    assert!(!is_proximate(&left, &point(30_001, 0, 0)));
    assert!(!is_proximate(&left, &point(18_000, 24_001, 0)));
    assert!(!is_proximate(&left, &point(500_000, 0, 0)));
}

#[test]
fn untracked_joints_give_no_pinch_signal() {
    let p = point(0, 0, 0);
    assert_eq!(Hand::untracked(), hand(None, None));
    assert_eq!(hand(None, None).pinch(), None);
    assert_eq!(hand(Some(p), None).pinch(), None);
    assert_eq!(hand(None, Some(p)).pinch(), None);
    assert!(!hand(None, None).pinch_broken());
    assert!(!hand(Some(p), None).pinch_broken());
    assert!(!hand(None, Some(p)).pinch_broken());
}

#[test]
fn untracked_index_tip_is_proximate_to_nothing() {
    let p = point(0, 0, 0);
    let only_left = HandPoses { left: hand(Some(p), Some(p)), right: hand(None, Some(p)) };
    assert!(!only_left.proximity());
    assert_eq!(only_left.geometry(), None);
    let only_right = HandPoses { left: hand(None, None), right: hand(Some(p), None) };
    assert!(!only_right.proximity());
    assert_eq!(only_right.geometry(), None);
    assert!(!HandPoses::untracked().proximity());
    assert_eq!(HandPoses::untracked().geometry(), None);
}

#[test]
fn from_poses_keys_by_hand_and_joint() {
    let poses = vec![
        pose(HandSide::Right, Joint::ThumbTip, 4, 4, 4),
        pose(HandSide::Left, Joint::Other, 9, 9, 9),
        pose(HandSide::Left, Joint::IndexTip, 1, 1, 1),
        pose(HandSide::Right, Joint::IndexTip, 3, 3, 3),
        pose(HandSide::Right, Joint::Other, 8, 8, 8),
        pose(HandSide::Left, Joint::ThumbTip, 2, 2, 2),
    ];
    let hands = HandPoses::from_poses(&poses);
    assert_eq!(hands.left, hand(Some(point(1, 1, 1)), Some(point(2, 2, 2))));
    assert_eq!(hands.right, hand(Some(point(3, 3, 3)), Some(point(4, 4, 4))));
}

#[test]
fn from_poses_of_nothing_is_untracked() {
    let hands = HandPoses::from_poses(&vec![]);
    assert_eq!(hands, HandPoses::untracked());
    assert_eq!(hands.left, hand(None, None));
    assert_eq!(hands.right, hand(None, None));
}

#[test]
fn from_poses_ignores_other_joints() {
    let poses = vec![
        pose(HandSide::Left, Joint::Other, 1, 1, 1),
        pose(HandSide::Right, Joint::Other, 2, 2, 2),
    ];
    assert_eq!(HandPoses::from_poses(&poses), HandPoses::untracked());
}

#[test]
fn from_poses_takes_the_first_pose_of_a_joint() {
    let poses = vec![
        pose(HandSide::Left, Joint::IndexTip, 1, 0, 0),
        pose(HandSide::Left, Joint::IndexTip, 2, 0, 0),
        pose(HandSide::Right, Joint::ThumbTip, 3, 0, 0),
        pose(HandSide::Left, Joint::IndexTip, 4, 0, 0),
        pose(HandSide::Right, Joint::ThumbTip, 5, 0, 0),
    ];
    let hands = HandPoses::from_poses(&poses);
    assert_eq!(hands.left, hand(Some(point(1, 0, 0)), None));
    assert_eq!(hands.right, hand(None, Some(point(3, 0, 0))));
}

#[test]
fn from_poses_keeps_one_hand_when_the_other_is_lost() {
    let poses = vec![
        pose(HandSide::Right, Joint::IndexTip, 5, 6, 7),
        pose(HandSide::Right, Joint::ThumbTip, 8, 9, 10),
    ];
    let hands = HandPoses::from_poses(&poses);
    assert_eq!(hands.left, hand(None, None));
    assert_eq!(hands.right, hand(Some(point(5, 6, 7)), Some(point(8, 9, 10))));
}

#[test]
fn geometry_spans_the_two_index_tips() {
    let hands = HandPoses {
        left: hand(Some(point(100, 500, -300)), Some(point(0, 0, 0))),
        right: hand(Some(point(400, 200, -900)), None),
    };
    let g = hands.geometry();
    assert_eq!(g, Some(BoxGeometry::resolve(point(100, 500, -300), point(400, 200, -900))));
    assert_eq!(
        g,
        Some(BoxGeometry {
            corner: point(100, 200, -900),
            extents: Extent3 { x: 300, y: 300, z: 600 },
        })
    );
}

#[test]
fn classify_reads_each_hand_on_its_own() {
    let hands = HandPoses {
        left: hand(Some(point(0, 0, 0)), Some(point(0, 10_000, 0))),
        right: hand(Some(point(20_000, 0, 0)), Some(point(20_000, 80_000, 0))),
    };
    let signals = hands.classify();
    assert_eq!(
        signals,
        GestureSignals { left_pinch: Some(true), right_pinch: Some(false), proximity: true }
    );
    let lost = HandPoses {
        left: hand(Some(point(0, 0, 0)), None),
        right: hand(Some(point(500_000, 0, 0)), Some(point(500_000, 10_000, 0))),
    };
    assert_eq!(
        lost.classify(),
        GestureSignals { left_pinch: None, right_pinch: Some(true), proximity: false }
    );
}

#[test]
fn event_is_a_start_when_proximate_and_no_pinch_is_broken() {
    let closed = GestureSignals { left_pinch: Some(true), right_pinch: Some(true), proximity: true };
    assert_eq!(closed.event(), Some(CreationEvent::StartMaking));
    let thumbs_lost = GestureSignals { left_pinch: None, right_pinch: None, proximity: true };
    assert_eq!(thumbs_lost.event(), Some(CreationEvent::StartMaking));
    assert!(!closed.pinch_broken());
    assert!(!thumbs_lost.pinch_broken());
}

#[test]
fn event_is_a_finish_when_either_pinch_is_broken() {
    let left = GestureSignals { left_pinch: Some(false), right_pinch: Some(true), proximity: false };
    assert_eq!(left.event(), Some(CreationEvent::FinishMaking));
    let right = GestureSignals { left_pinch: None, right_pinch: Some(false), proximity: false };
    assert_eq!(right.event(), Some(CreationEvent::FinishMaking));
    let both = GestureSignals { left_pinch: Some(false), right_pinch: Some(false), proximity: false };
    assert_eq!(both.event(), Some(CreationEvent::FinishMaking));
    assert!(left.pinch_broken());
    assert!(right.pinch_broken());
    assert!(both.pinch_broken());
}

#[test]
fn a_broken_pinch_keeps_proximity_from_starting() {
    let signals = GestureSignals { left_pinch: Some(true), right_pinch: Some(false), proximity: true };
    assert_eq!(signals.event(), Some(CreationEvent::FinishMaking));
}

#[test]
fn event_is_none_without_a_gesture() {
    let apart = GestureSignals { left_pinch: Some(true), right_pinch: Some(true), proximity: false };
    assert_eq!(apart.event(), None);
    let lost = GestureSignals { left_pinch: None, right_pinch: None, proximity: false };
    assert_eq!(lost.event(), None);
}
