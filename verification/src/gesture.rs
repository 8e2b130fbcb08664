//! The gesture classifier: from the joint poses of one frame to the pinch
//! signal of each hand, the proximity of the two index tips, and the
//! lifecycle event that they amount to.

use vstd::prelude::*;
use crate::geometry::BoxGeometry;
use crate::geometry::Point3;
use crate::geometry::abs_diff_coord;
use crate::geometry::lemma_abs_diff_square;
use crate::geometry::lemma_square_order;
use crate::geometry::resolved;
use crate::stage::CreationEvent;

verus! {

/// A hand's index tip and thumb tip are pinched while they are closer than
/// this many ticks; at this distance the pinch is broken.
pub const PINCH_THRESHOLD: u32 = 70_000;

/// The two index tips are proximate while they are at most this many ticks
/// apart.
pub const PROXIMITY_THRESHOLD: u32 = 30_000;

/// Which hand a pose belongs to.
#[derive(Clone, Copy, Debug, PartialEq, Eq, Structural)]
pub enum HandSide {
    Left,
    Right,
}

/// The joints that the classifier tells apart.
#[derive(Clone, Copy, Debug, PartialEq, Eq, Structural)]
pub enum Joint {
    IndexTip,
    ThumbTip,
    /// Any other joint of the hand; it plays no part in the gestures.
    Other,
}

/// The tracked position of one joint of one hand in the current frame.
#[derive(Clone, Copy, Debug, PartialEq, Eq, Structural)]
pub struct HandPose {
    pub side: HandSide,
    pub joint: Joint,
    pub position: Point3,
}

/// The two joints of one hand that the gestures read, each present only if
/// it is tracked in the current frame.
#[derive(Clone, Copy, Debug, PartialEq, Eq, Structural)]
pub struct Hand {
    pub index_tip: Option<Point3>,
    pub thumb_tip: Option<Point3>,
}

/// The poses of one frame, keyed by hand and joint.
#[derive(Clone, Copy, Debug, PartialEq, Eq, Structural)]
pub struct HandPoses {
    pub left: Hand,
    pub right: Hand,
}

/// What the classifier reads off one frame.
#[derive(Clone, Copy, Debug, PartialEq, Eq, Structural)]
pub struct GestureSignals {
    /// Whether the left hand is pinched; `None` while a joint is untracked.
    pub left_pinch: Option<bool>,
    /// Whether the right hand is pinched; `None` while a joint is untracked.
    pub right_pinch: Option<bool>,
    /// Whether both index tips are tracked and proximate.
    pub proximity: bool,
}

/// A pose is that of the given joint of the given hand.
pub open spec fn is_pose_of(pose: HandPose, side: HandSide, joint: Joint) -> bool {
    pose.side == side && pose.joint == joint
}

/// The position of the first pose in the list for the given hand and joint.
pub open spec fn first_position(poses: Seq<HandPose>, side: HandSide, joint: Joint) -> Option<
    Point3,
>
    decreases poses.len(),
{
    if poses.len() == 0 {
        None
    } else {
        let earlier = first_position(poses.drop_last(), side, joint);
        if earlier is Some {
            earlier
        } else if is_pose_of(poses.last(), side, joint) {
            Some(poses.last().position)
        } else {
            None
        }
    }
}

/// The poses of a frame, keyed: each slot holds the first pose listed for it.
pub open spec fn keyed(poses: Seq<HandPose>) -> HandPoses {
    HandPoses {
        left: Hand {
            index_tip: first_position(poses, HandSide::Left, Joint::IndexTip),
            thumb_tip: first_position(poses, HandSide::Left, Joint::ThumbTip),
        },
        right: Hand {
            index_tip: first_position(poses, HandSide::Right, Joint::IndexTip),
            thumb_tip: first_position(poses, HandSide::Right, Joint::ThumbTip),
        },
    }
}

/// Index tip and thumb tip are closer than the pinch threshold.
pub open spec fn pinch_closed(index_tip: Point3, thumb_tip: Point3) -> bool {
    index_tip.spec_distance_squared(thumb_tip) < PINCH_THRESHOLD * PINCH_THRESHOLD
}

/// Two index tips are within the proximity threshold of each other.
pub open spec fn proximate(left_index: Point3, right_index: Point3) -> bool {
    left_index.spec_distance_squared(right_index) <= PROXIMITY_THRESHOLD * PROXIMITY_THRESHOLD
}

/// Tells whether index tip and thumb tip are pinched together.
pub fn is_pinch_closed(index_tip: &Point3, thumb_tip: &Point3) -> (closed: bool)
    ensures
        closed == pinch_closed(*index_tip, *thumb_tip),
{
    let limit: u128 = (PINCH_THRESHOLD as u128) * (PINCH_THRESHOLD as u128);
    index_tip.distance_squared(thumb_tip) < limit
}

/// Tells whether two index tips are proximate.
pub fn is_proximate(left_index: &Point3, right_index: &Point3) -> (near: bool)
    ensures
        near == proximate(*left_index, *right_index),
{
    let limit: u128 = (PROXIMITY_THRESHOLD as u128) * (PROXIMITY_THRESHOLD as u128);
    left_index.distance_squared(right_index) <= limit
}

impl Hand {
    /// A hand of which nothing is tracked.
    pub fn untracked() -> (hand: Hand)
        ensures
            hand == (Hand { index_tip: None, thumb_tip: None }),
    {
        Hand { index_tip: None, thumb_tip: None }
    }

    /// The pinch signal: whether the hand is pinched, or `None` while the
    /// index tip or the thumb tip is untracked.
    pub open spec fn spec_pinch(self) -> Option<bool> {
        match (self.index_tip, self.thumb_tip) {
            (Some(index_tip), Some(thumb_tip)) => Some(pinch_closed(index_tip, thumb_tip)),
            _ => None,
        }
    }

    /// Both joints are tracked and at least the pinch threshold apart.
    pub open spec fn spec_pinch_broken(self) -> bool {
        self.spec_pinch() == Some(false)
    }

    /// The pinch signal: whether the hand is pinched, or `None` while the
    /// index tip or the thumb tip is untracked.
    pub fn pinch(&self) -> (signal: Option<bool>)
        ensures
            signal == self.spec_pinch(),
    {
        match (self.index_tip, self.thumb_tip) {
            (Some(index_tip), Some(thumb_tip)) => Some(is_pinch_closed(&index_tip, &thumb_tip)),
            _ => None,
        }
    }

    /// Whether the pinch of this hand is seen to be broken. An untracked
    /// joint breaks nothing.
    pub fn pinch_broken(&self) -> (broken: bool)
        ensures
            broken == self.spec_pinch_broken(),
            broken ==> self.index_tip is Some && self.thumb_tip is Some,
    {
        match self.pinch() {
            Some(closed) => !closed,
            None => false,
        }
    }
}

impl HandPoses {
    /// A frame in which nothing is tracked.
    pub fn untracked() -> (hands: HandPoses)
        ensures
            hands == keyed(Seq::<HandPose>::empty()),
            hands.left == (Hand { index_tip: None, thumb_tip: None }),
            hands.right == (Hand { index_tip: None, thumb_tip: None }),
    {
        HandPoses { left: Hand::untracked(), right: Hand::untracked() }
    }

    /// Keys the poses of a frame by hand and joint. Where a joint of a hand
    /// is listed more than once, the first pose listed counts.
    pub fn from_poses(poses: &Vec<HandPose>) -> (hands: HandPoses)
        ensures
            hands == keyed(poses@),
    {
        let mut hands = HandPoses::untracked();
        let mut i: usize = 0;
        while i < poses.len()
            invariant
                i <= poses.len(),
                hands == keyed(poses@.take(i as int)),
            decreases poses.len() - i,
        {
            let pose: HandPose = poses[i];
            proof {
                let longer = poses@.take(i + 1);
                assert(longer.drop_last() =~= poses@.take(i as int));
                assert(longer.last() == pose);
            }
            match (pose.side, pose.joint) {
                (HandSide::Left, Joint::IndexTip) => {
                    if hands.left.index_tip.is_none() {
                        hands.left.index_tip = Some(pose.position);
                    }
                },
                (HandSide::Left, Joint::ThumbTip) => {
                    if hands.left.thumb_tip.is_none() {
                        hands.left.thumb_tip = Some(pose.position);
                    }
                },
                (HandSide::Right, Joint::IndexTip) => {
                    if hands.right.index_tip.is_none() {
                        hands.right.index_tip = Some(pose.position);
                    }
                },
                (HandSide::Right, Joint::ThumbTip) => {
                    if hands.right.thumb_tip.is_none() {
                        hands.right.thumb_tip = Some(pose.position);
                    }
                },
                _ => {},
            }
            i = i + 1;
        }
        proof {
            assert(poses@.take(poses.len() as int) =~= poses@);
        }
        hands
    }

    /// Both index tips are tracked and proximate.
    pub open spec fn spec_proximity(self) -> bool {
        match (self.left.index_tip, self.right.index_tip) {
            (Some(left_index), Some(right_index)) => proximate(left_index, right_index),
            _ => false,
        }
    }

    /// The box spanned by the two index tips, if both are tracked.
    pub open spec fn spec_geometry(self) -> Option<BoxGeometry> {
        match (self.left.index_tip, self.right.index_tip) {
            (Some(left_index), Some(right_index)) => Some(resolved(left_index, right_index)),
            _ => None,
        }
    }

    /// What the classifier reads off these poses.
    pub open spec fn spec_classify(self) -> GestureSignals {
        GestureSignals {
            left_pinch: self.left.spec_pinch(),
            right_pinch: self.right.spec_pinch(),
            proximity: self.spec_proximity(),
        }
    }

    /// Whether both index tips are tracked and proximate. An untracked index
    /// tip is proximate to nothing.
    pub fn proximity(&self) -> (near: bool)
        ensures
            near == self.spec_proximity(),
            near ==> self.left.index_tip is Some && self.right.index_tip is Some,
    {
        match (self.left.index_tip, self.right.index_tip) {
            (Some(left_index), Some(right_index)) => is_proximate(&left_index, &right_index),
            _ => false,
        }
    }

    /// The box spanned by the two index tips. With fewer than two index tips
    /// tracked there is no box in this frame.
    pub fn geometry(&self) -> (geometry: Option<BoxGeometry>)
        ensures
            geometry == self.spec_geometry(),
            geometry is Some <==> self.left.index_tip is Some && self.right.index_tip is Some,
            geometry matches Some(g) ==> g.wf(),
    {
        match (self.left.index_tip, self.right.index_tip) {
            (Some(left_index), Some(right_index)) => Some(
                BoxGeometry::resolve(left_index, right_index),
            ),
            _ => None,
        }
    }

    /// Reduces the poses to the pinch signal of each hand and the proximity
    /// of the two index tips.
    pub fn classify(&self) -> (signals: GestureSignals)
        ensures
            signals == self.spec_classify(),
    {
        GestureSignals {
            left_pinch: self.left.pinch(),
            right_pinch: self.right.pinch(),
            proximity: self.proximity(),
        }
    }
}

impl GestureSignals {
    /// A pinch is seen to be broken on at least one hand.
    pub open spec fn spec_pinch_broken(self) -> bool {
        self.left_pinch == Some(false) || self.right_pinch == Some(false)
    }

    /// The lifecycle event that the signals amount to: a finish when a pinch
    /// is broken on either hand, else a start when the index tips are
    /// proximate, else none.
    pub open spec fn spec_event(self) -> Option<CreationEvent> {
        if self.spec_pinch_broken() {
            Some(CreationEvent::FinishMaking)
        } else if self.proximity {
            Some(CreationEvent::StartMaking)
        } else {
            None
        }
    }

    /// Whether a pinch is seen to be broken on at least one hand.
    pub fn pinch_broken(&self) -> (broken: bool)
        ensures
            broken == self.spec_pinch_broken(),
    {
        let left_broken: bool = match self.left_pinch {
            Some(closed) => !closed,
            None => false,
        };
        let right_broken: bool = match self.right_pinch {
            Some(closed) => !closed,
            None => false,
        };
        left_broken || right_broken
    }

    /// The lifecycle event of the frame. One frame gives at most one event:
    /// however many hands break their pinch, there is one finish, and a
    /// broken pinch on either hand keeps proximity from starting anything.
    pub fn event(&self) -> (event: Option<CreationEvent>)
        ensures
            event == self.spec_event(),
            event == Some(CreationEvent::FinishMaking) <==> self.spec_pinch_broken(),
            event == Some(CreationEvent::StartMaking) <==> self.proximity
                && !self.spec_pinch_broken(),
    {
        if self.pinch_broken() {
            Some(CreationEvent::FinishMaking)
        } else if self.proximity {
            Some(CreationEvent::StartMaking)
        } else {
            None
        }
    }
}

/// What keying finds for a hand and joint: nothing exactly when no pose in
/// the list is for them, and otherwise the position of the earliest such pose.
pub proof fn lemma_first_position(poses: Seq<HandPose>, side: HandSide, joint: Joint)
    ensures
        first_position(poses, side, joint) is None <==> forall|i: int|
            0 <= i < poses.len() ==> !is_pose_of(#[trigger] poses[i], side, joint),
        first_position(poses, side, joint) matches Some(position) ==> exists|i: int|
            {
                &&& 0 <= i < poses.len()
                &&& is_pose_of(#[trigger] poses[i], side, joint)
                &&& poses[i].position == position
                &&& forall|j: int| 0 <= j < i ==> !is_pose_of(#[trigger] poses[j], side, joint)
            },
    decreases poses.len(),
{
    if poses.len() > 0 {
        let shorter = poses.drop_last();
        lemma_first_position(shorter, side, joint);
        assert(forall|i: int| 0 <= i < shorter.len() ==> shorter[i] == poses[i]);
        match first_position(shorter, side, joint) {
            Some(position) => {
                let i = choose|i: int|
                    {
                        &&& 0 <= i < shorter.len()
                        &&& is_pose_of(#[trigger] shorter[i], side, joint)
                        &&& shorter[i].position == position
                        &&& forall|j: int|
                            0 <= j < i ==> !is_pose_of(#[trigger] shorter[j], side, joint)
                    };
                assert(is_pose_of(poses[i], side, joint));
                assert forall|j: int| 0 <= j < i implies !is_pose_of(
                    #[trigger] poses[j],
                    side,
                    joint,
                ) by {
                    assert(shorter[j] == poses[j]);
                }
            },
            None => {
                assert forall|j: int| 0 <= j < poses.len() - 1 implies !is_pose_of(
                    #[trigger] poses[j],
                    side,
                    joint,
                ) by {
                    assert(shorter[j] == poses[j]);
                }
                if is_pose_of(poses.last(), side, joint) {
                    let i = poses.len() - 1;
                    assert(is_pose_of(poses[i], side, joint));
                    assert(poses[i].position == poses.last().position);
                }
            },
        }
    }
}

/// The thresholds at their boundaries, for two joints a whole number of
/// ticks apart: a pinch is closed below the pinch threshold and broken from
/// the threshold on; index tips are proximate up to and including the
/// proximity threshold.
pub proof fn lemma_threshold_boundaries(a: Point3, b: Point3, distance: int)
    requires
        0 <= distance,
        a.spec_distance_squared(b) == distance * distance,
    ensures
        pinch_closed(a, b) <==> distance < PINCH_THRESHOLD,
        !pinch_closed(a, b) <==> distance >= PINCH_THRESHOLD,
        proximate(a, b) <==> distance <= PROXIMITY_THRESHOLD,
{
    lemma_square_order(distance, PINCH_THRESHOLD as int);
    lemma_square_order(distance, PROXIMITY_THRESHOLD as int);
}

/// The thresholds at their boundaries, for two joints that differ along the
/// x axis only: what counts is how far apart their x coordinates are.
pub proof fn lemma_threshold_boundaries_on_axis(a: Point3, b: Point3)
    requires
        a.y == b.y,
        a.z == b.z,
    ensures
        pinch_closed(a, b) <==> abs_diff_coord(a.x, b.x) < PINCH_THRESHOLD,
        proximate(a, b) <==> abs_diff_coord(a.x, b.x) <= PROXIMITY_THRESHOLD,
{
    lemma_abs_diff_square(a.x, b.x);
    lemma_threshold_boundaries(a, b, abs_diff_coord(a.x, b.x) as int);
}

/// A frame gives at most one lifecycle event, and the two events exclude
/// each other: a start needs proximity and no broken pinch, a finish needs a
/// broken pinch.
pub proof fn lemma_event_of_signals(hands: HandPoses)
    ensures
        hands.spec_classify().spec_event() == Some(CreationEvent::FinishMaking)
            <==> hands.left.spec_pinch_broken() || hands.right.spec_pinch_broken(),
        hands.spec_classify().spec_event() == Some(CreationEvent::StartMaking) <==> {
            &&& hands.spec_proximity()
            &&& !hands.left.spec_pinch_broken()
            &&& !hands.right.spec_pinch_broken()
        },
        hands.spec_classify().spec_event() == Some(CreationEvent::StartMaking)
            ==> hands.spec_geometry() is Some,
{
}

/// With no index tip and no thumb tip tracked, no signal is raised and no
/// box is resolved.
pub proof fn lemma_untracked_is_silent(hands: HandPoses)
    requires
        hands.left.index_tip is None || hands.left.thumb_tip is None,
        hands.right.index_tip is None || hands.right.thumb_tip is None,
        hands.left.index_tip is None || hands.right.index_tip is None,
    ensures
        hands.spec_classify().left_pinch is None,
        hands.spec_classify().right_pinch is None,
        !hands.spec_classify().proximity,
        hands.spec_classify().spec_event() is None,
        hands.spec_geometry() is None,
{
}

} // verus!
