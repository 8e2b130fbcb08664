//! The frame-tick pipeline: poses in, stage advanced, feedback out.
//!
//! Each frame runs in a fixed order: the poses are keyed, classified into
//! signals, the signals give at most one lifecycle event, the event moves the
//! stage, the index tips span a box, and the emitter says what to draw, spawn
//! and play.

use vstd::prelude::*;
use crate::feedback::FrameFeedback;
use crate::feedback::PREVIEW_VOLUME;
use crate::feedback::SILENT_VOLUME;
use crate::feedback::emit;
use crate::feedback::feedback_of;
use crate::feedback::spawn_of;
use crate::geometry::resolved;
use crate::gesture::HandPose;
use crate::gesture::HandPoses;
use crate::gesture::keyed;
use crate::stage::CreationEvent;
use crate::stage::CreationStage;
use crate::stage::MakingCube;
use crate::stage::Transition;
use crate::stage::next_stage;
use crate::stage::transition_of;

verus! {

/// The playback speed of the audio cue at startup: 1.0.
pub const STARTUP_SPEED: u64 = 1_000_000;

/// The looping audio cue as the pipeline wants it to sound. Volume and
/// playback speed are in millionths.
#[derive(Clone, Copy, Debug, PartialEq, Eq, Structural)]
pub struct AudioCue {
    pub looping: bool,
    pub volume: u32,
    pub speed: u64,
}

/// One frame of input: the poses tracked in it, and a random draw that
/// colours a cuboid if the frame spawns one.
pub struct Frame {
    pub poses: Seq<HandPose>,
    pub seed: u32,
}

/// The audio cue at startup: looping, humming, at normal speed.
pub open spec fn startup_cue() -> AudioCue {
    AudioCue { looping: true, volume: PREVIEW_VOLUME, speed: STARTUP_SPEED }
}

/// The audio cue after a frame's feedback: what the frame sets is set, the
/// rest stays.
pub open spec fn cue_after(cue: AudioCue, feedback: FrameFeedback) -> AudioCue {
    AudioCue {
        looping: cue.looping,
        volume: match feedback.volume {
            Some(volume) => volume,
            None => cue.volume,
        },
        speed: match feedback.speed {
            Some(speed) => speed,
            None => cue.speed,
        },
    }
}

/// The lifecycle event that the poses of a frame amount to.
pub open spec fn frame_event(poses: Seq<HandPose>) -> Option<CreationEvent> {
    keyed(poses).spec_classify().spec_event()
}

/// One frame of the pipeline: the stage it leaves and the feedback it gives.
pub open spec fn frame_step(stage: CreationStage, poses: Seq<HandPose>, seed: u32) -> (
    CreationStage,
    FrameFeedback,
) {
    let event = frame_event(poses);
    let after = next_stage(stage, event);
    (after, feedback_of(transition_of(stage, event), after, keyed(poses).spec_geometry(), seed))
}

/// The stage that a run of frames leaves.
pub open spec fn stage_after_frames(stage: CreationStage, frames: Seq<Frame>) -> CreationStage
    decreases frames.len(),
{
    if frames.len() == 0 {
        stage
    } else {
        frame_step(
            stage_after_frames(stage, frames.drop_last()),
            frames.last().poses,
            frames.last().seed,
        ).0
    }
}

/// How many cuboids a run of frames spawns.
pub open spec fn spawn_count(stage: CreationStage, frames: Seq<Frame>) -> nat
    decreases frames.len(),
{
    if frames.len() == 0 {
        0
    } else {
        let before = spawn_count(stage, frames.drop_last());
        let last = frame_step(
            stage_after_frames(stage, frames.drop_last()),
            frames.last().poses,
            frames.last().seed,
        ).1;
        if last.spawn is Some {
            before + 1
        } else {
            before
        }
    }
}

impl AudioCue {
    /// The audio cue at startup.
    pub fn startup() -> (cue: AudioCue)
        ensures
            cue == startup_cue(),
    {
        AudioCue { looping: true, volume: PREVIEW_VOLUME, speed: STARTUP_SPEED }
    }

    /// Takes over the volume and the playback speed that a frame sets.
    /// Setting a value twice is the same as setting it once.
    pub fn apply(&mut self, feedback: &FrameFeedback)
        ensures
            *final(self) == cue_after(*old(self), *feedback),
    {
        match feedback.volume {
            Some(volume) => {
                self.volume = volume;
            },
            None => {},
        }
        match feedback.speed {
            Some(speed) => {
                self.speed = speed;
            },
            None => {},
        }
    }
}

/// The box-creation pipeline.
#[derive(Clone, Copy, Debug)]
pub struct CubeCreationPlugin;

impl CubeCreationPlugin {
    /// What the pipeline owns at startup: the state machine, idle, and the
    /// audio cue, looping.
    pub fn startup(&self) -> (owned: (MakingCube, AudioCue))
        ensures
            owned.0@ == CreationStage::Idle,
            owned.1 == startup_cue(),
    {
        (MakingCube::new(), AudioCue::startup())
    }

    /// Runs one frame: classifies the poses, lets the event they amount to
    /// move the stage, and returns what the frame asks of the outside world.
    ///
    /// A frame without poses asks for nothing and leaves the stage alone.
    pub fn update(&self, state: &mut MakingCube, poses: &Vec<HandPose>, seed: u32) -> (feedback:
        FrameFeedback)
        ensures
            (final(state)@, feedback) == frame_step(old(state)@, poses@, seed),
            final(state)@ == next_stage(old(state)@, frame_event(poses@)),
            feedback.spawn is Some ==> {
                &&& old(state)@ == CreationStage::Previewing
                &&& final(state)@ == CreationStage::Idle
                &&& feedback.volume == Some(SILENT_VOLUME)
            },
            old(state)@ == CreationStage::Idle && final(state)@ == CreationStage::Idle
                ==> feedback == FrameFeedback::nothing(),
    {
        let hands: HandPoses = HandPoses::from_poses(poses);
        let event: Option<CreationEvent> = hands.classify().event();
        let transition: Transition = state.step(event);
        let geometry = hands.geometry();
        emit(transition, state.stage(), geometry, seed)
    }
}

/// A start gesture while a box is already being defined leaves the stage as
/// it is: no volume is set again and nothing is spawned.
pub proof fn lemma_start_is_idempotent(poses: Seq<HandPose>, seed: u32)
    requires
        frame_event(poses) == Some(CreationEvent::StartMaking),
    ensures
        frame_step(CreationStage::Previewing, poses, seed).0 == CreationStage::Previewing,
        frame_step(CreationStage::Previewing, poses, seed).1.spawn is None,
        frame_step(CreationStage::Previewing, poses, seed).1.volume is None,
        frame_step(CreationStage::Idle, poses, seed).0 == CreationStage::Previewing,
        frame_step(CreationStage::Idle, poses, seed).1.volume == Some(PREVIEW_VOLUME),
        frame_step(CreationStage::Idle, poses, seed).1.spawn is None,
{
}

/// A finish gesture while idle is a no-op: the stage stays idle and the
/// frame asks for nothing. So is any idle frame that starts nothing.
pub proof fn lemma_finish_while_idle_is_noop(poses: Seq<HandPose>, seed: u32)
    requires
        frame_event(poses) != Some(CreationEvent::StartMaking),
    ensures
        frame_step(CreationStage::Idle, poses, seed).0 == CreationStage::Idle,
        frame_step(CreationStage::Idle, poses, seed).1 == FrameFeedback::nothing(),
{
}

/// A finish gesture while a box is being defined returns the stage to idle
/// and silences the hum. With both index tips tracked it spawns one cuboid,
/// whose extents are those of the box that the index tips span in this very
/// frame; with an index tip untracked it spawns nothing.
pub proof fn lemma_finish_spawns_current_box(poses: Seq<HandPose>, seed: u32)
    requires
        frame_event(poses) == Some(CreationEvent::FinishMaking),
    ensures
        frame_step(CreationStage::Previewing, poses, seed).0 == CreationStage::Idle,
        frame_step(CreationStage::Previewing, poses, seed).1.volume == Some(SILENT_VOLUME),
        match (keyed(poses).left.index_tip, keyed(poses).right.index_tip) {
            (Some(left_index), Some(right_index)) => {
                let spawn = frame_step(CreationStage::Previewing, poses, seed).1.spawn;
                &&& spawn == Some(spawn_of(resolved(left_index, right_index), seed))
                &&& spawn->0.extents == left_index.componentwise_abs_diff(right_index)
            },
            _ => frame_step(CreationStage::Previewing, poses, seed).1.spawn is None,
        },
{
}

/// When tracking drops, so that no pose at all arrives, nothing happens: the
/// stage stays where it is, whichever it is, and the frame asks for nothing.
pub proof fn lemma_tracking_loss_changes_nothing(stage: CreationStage, seed: u32)
    ensures
        frame_step(stage, Seq::<HandPose>::empty(), seed).0 == stage,
        frame_step(stage, Seq::<HandPose>::empty(), seed).1 == FrameFeedback::nothing(),
{
}

/// A cuboid is spawned only by a frame that takes the stage from previewing
/// to idle, and an idle stage that stays idle asks for nothing.
pub proof fn lemma_spawn_only_on_finalize(stage: CreationStage, poses: Seq<HandPose>, seed: u32)
    ensures
        frame_step(stage, poses, seed).1.spawn is Some ==> {
            &&& stage == CreationStage::Previewing
            &&& frame_step(stage, poses, seed).0 == CreationStage::Idle
            &&& frame_event(poses) == Some(CreationEvent::FinishMaking)
        },
        frame_step(stage, poses, seed).1.spawn is Some ==> frame_step(
            stage,
            poses,
            seed,
        ).1.wireframe is Some,
        frame_step(stage, poses, seed).1.wireframe is Some <==> frame_step(
            stage,
            poses,
            seed,
        ).1.speed is Some,
{
}

/// Frames that carry no finish gesture keep a preview alive and spawn
/// nothing.
pub proof fn lemma_quiet_frames_spawn_nothing(lead: Seq<Frame>, quiet: Seq<Frame>)
    requires
        stage_after_frames(CreationStage::Idle, lead) == CreationStage::Previewing,
        forall|i: int|
            0 <= i < quiet.len() ==> frame_event(#[trigger] quiet[i].poses) != Some(
                CreationEvent::FinishMaking,
            ),
    ensures
        stage_after_frames(CreationStage::Idle, lead + quiet) == CreationStage::Previewing,
        spawn_count(CreationStage::Idle, lead + quiet) == spawn_count(CreationStage::Idle, lead),
    decreases quiet.len(),
{
    if quiet.len() == 0 {
        assert(lead + quiet =~= lead);
    } else {
        lemma_quiet_frames_spawn_nothing(lead, quiet.drop_last());
        assert((lead + quiet).drop_last() =~= lead + quiet.drop_last());
        assert((lead + quiet).last() == quiet[quiet.len() - 1]);
    }
}

/// From idle, a frame with a start gesture, then any number of frames
/// without a finish gesture, then a frame with a finish gesture in which both
/// index tips are tracked: the stage goes to previewing, stays there, and
/// returns to idle, and the run spawns exactly one cuboid.
pub proof fn lemma_start_then_finish_spawns_once(start: Frame, quiet: Seq<Frame>, finish: Frame)
    requires
        frame_event(start.poses) == Some(CreationEvent::StartMaking),
        forall|i: int|
            0 <= i < quiet.len() ==> frame_event(#[trigger] quiet[i].poses) != Some(
                CreationEvent::FinishMaking,
            ),
        frame_event(finish.poses) == Some(CreationEvent::FinishMaking),
        keyed(finish.poses).spec_geometry() is Some,
    ensures
        stage_after_frames(CreationStage::Idle, seq![start]) == CreationStage::Previewing,
        forall|k: int|
            0 <= k <= quiet.len() ==> #[trigger] stage_after_frames(
                CreationStage::Idle,
                seq![start] + quiet.take(k),
            ) == CreationStage::Previewing,
        stage_after_frames(CreationStage::Idle, (seq![start] + quiet).push(finish))
            == CreationStage::Idle,
        spawn_count(CreationStage::Idle, (seq![start] + quiet).push(finish)) == 1,
{
    let lead = seq![start];
    assert(lead.drop_last() =~= Seq::<Frame>::empty());
    assert(stage_after_frames(CreationStage::Idle, lead.drop_last()) == CreationStage::Idle);
    assert(spawn_count(CreationStage::Idle, lead.drop_last()) == 0);
    assert(lead.last() == start);
    assert(stage_after_frames(CreationStage::Idle, lead) == CreationStage::Previewing);
    assert(spawn_count(CreationStage::Idle, lead) == 0);
    assert forall|k: int| 0 <= k <= quiet.len() implies #[trigger] stage_after_frames(
        CreationStage::Idle,
        lead + quiet.take(k),
    ) == CreationStage::Previewing by {
        lemma_quiet_frames_spawn_nothing(lead, quiet.take(k));
    }
    lemma_quiet_frames_spawn_nothing(lead, quiet);
    let all = (lead + quiet).push(finish);
    assert(all.drop_last() =~= lead + quiet);
    assert(all.last() == finish);
}

} // verus!
