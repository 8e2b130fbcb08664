//! The creation state machine: whether a box is being defined, and what a
//! lifecycle event does to that.

use vstd::prelude::*;

verus! {

/// What the system is currently doing.
#[derive(Clone, Copy, Debug, PartialEq, Eq, Structural)]
pub enum CreationStage {
    /// No box is being defined.
    Idle,
    /// A box is being defined and shown as a preview.
    Previewing,
}

/// A lifecycle signal derived from the hands.
#[derive(Clone, Copy, Debug, PartialEq, Eq, Structural)]
pub enum CreationEvent {
    /// Begin defining a box.
    StartMaking,
    /// Turn the box being defined into a physical cuboid.
    FinishMaking,
}

/// What an event did to the stage.
#[derive(Clone, Copy, Debug, PartialEq, Eq, Structural)]
pub enum Transition {
    /// The stage stayed as it was; nothing is to be done.
    Unchanged,
    /// The stage went from idle to previewing.
    Started,
    /// The stage went from previewing to idle; a cuboid is to be spawned.
    Finalized,
}

/// The stage that follows `stage` when `event` arrives.
pub open spec fn next_stage(stage: CreationStage, event: Option<CreationEvent>) -> CreationStage {
    match (stage, event) {
        (CreationStage::Idle, Some(CreationEvent::StartMaking)) => CreationStage::Previewing,
        (CreationStage::Previewing, Some(CreationEvent::FinishMaking)) => CreationStage::Idle,
        _ => stage,
    }
}

/// What `event` does when it arrives in `stage`.
pub open spec fn transition_of(stage: CreationStage, event: Option<CreationEvent>) -> Transition {
    match (stage, event) {
        (CreationStage::Idle, Some(CreationEvent::StartMaking)) => Transition::Started,
        (CreationStage::Previewing, Some(CreationEvent::FinishMaking)) => Transition::Finalized,
        _ => Transition::Unchanged,
    }
}

/// The event that counts when several are queued in one frame: the last one.
pub open spec fn effective_event(events: Seq<CreationEvent>) -> Option<CreationEvent> {
    if events.len() == 0 {
        None
    } else {
        Some(events.last())
    }
}

/// The stage reached from `stage` after a run of frames, each with the event
/// it carried, if any.
pub open spec fn stage_after(
    stage: CreationStage,
    frames: Seq<Option<CreationEvent>>,
) -> CreationStage
    decreases frames.len(),
{
    if frames.len() == 0 {
        stage
    } else {
        next_stage(stage_after(stage, frames.drop_last()), frames.last())
    }
}

/// How many frames of a run finalized a box, which is how many cuboids the
/// run asked for.
pub open spec fn finalized_count(stage: CreationStage, frames: Seq<Option<CreationEvent>>) -> nat
    decreases frames.len(),
{
    if frames.len() == 0 {
        0
    } else {
        let before = finalized_count(stage, frames.drop_last());
        if transition_of(stage_after(stage, frames.drop_last()), frames.last())
            == Transition::Finalized {
            before + 1
        } else {
            before
        }
    }
}

/// The persistent state of the creation state machine.
#[derive(Clone, Copy, Debug)]
pub struct MakingCube {
    stage: CreationStage,
}

impl View for MakingCube {
    type V = CreationStage;

    closed spec fn view(&self) -> CreationStage {
        self.stage
    }
}

impl MakingCube {
    /// The machine at startup: idle.
    pub fn new() -> (state: MakingCube)
        ensures
            state@ == CreationStage::Idle,
    {
        MakingCube { stage: CreationStage::Idle }
    }

    /// The current stage.
    pub fn stage(&self) -> (stage: CreationStage)
        ensures
            stage == self@,
    {
        self.stage
    }

    /// Whether a box is being defined.
    pub fn is_previewing(&self) -> (previewing: bool)
        ensures
            previewing == (self@ == CreationStage::Previewing),
    {
        match self.stage {
            CreationStage::Previewing => true,
            CreationStage::Idle => false,
        }
    }

    /// Consumes one event. A start while already previewing and a finish
    /// while idle change nothing.
    pub fn handle(&mut self, event: CreationEvent) -> (transition: Transition)
        ensures
            final(self)@ == next_stage(old(self)@, Some(event)),
            transition == transition_of(old(self)@, Some(event)),
            old(self)@ == CreationStage::Previewing && event == CreationEvent::StartMaking ==> {
                &&& final(self)@ == CreationStage::Previewing
                &&& transition == Transition::Unchanged
            },
            old(self)@ == CreationStage::Idle && event == CreationEvent::FinishMaking ==> {
                &&& final(self)@ == CreationStage::Idle
                &&& transition == Transition::Unchanged
            },
            transition == Transition::Finalized <==> {
                &&& old(self)@ == CreationStage::Previewing
                &&& final(self)@ == CreationStage::Idle
            },
            transition == Transition::Started <==> {
                &&& old(self)@ == CreationStage::Idle
                &&& final(self)@ == CreationStage::Previewing
            },
    {
        match (self.stage, event) {
            (CreationStage::Idle, CreationEvent::StartMaking) => {
                self.stage = CreationStage::Previewing;
                Transition::Started
            },
            (CreationStage::Previewing, CreationEvent::FinishMaking) => {
                self.stage = CreationStage::Idle;
                Transition::Finalized
            },
            _ => Transition::Unchanged,
        }
    }

    /// Consumes the event of one frame, if the frame carried one.
    pub fn step(&mut self, event: Option<CreationEvent>) -> (transition: Transition)
        ensures
            final(self)@ == next_stage(old(self)@, event),
            transition == transition_of(old(self)@, event),
            event is None ==> final(self)@ == old(self)@ && transition == Transition::Unchanged,
    {
        match event {
            Some(e) => self.handle(e),
            None => Transition::Unchanged,
        }
    }

    /// Drains the events queued in one frame. Only the last one counts; the
    /// others are discarded.
    pub fn drain(&mut self, events: &Vec<CreationEvent>) -> (transition: Transition)
        ensures
            final(self)@ == next_stage(old(self)@, effective_event(events@)),
            transition == transition_of(old(self)@, effective_event(events@)),
            events@.len() == 0 ==> final(self)@ == old(self)@ && transition == Transition::Unchanged,
    {
        let n: usize = events.len();
        if n == 0 {
            Transition::Unchanged
        } else {
            self.handle(events[n - 1])
        }
    }
}

/// A start while previewing is idempotent: the stage stays, and nothing is
/// finalized.
pub proof fn lemma_start_while_previewing(frames: Seq<Option<CreationEvent>>)
    requires
        stage_after(CreationStage::Idle, frames) == CreationStage::Previewing,
    ensures
        stage_after(CreationStage::Idle, frames.push(Some(CreationEvent::StartMaking)))
            == CreationStage::Previewing,
        finalized_count(CreationStage::Idle, frames.push(Some(CreationEvent::StartMaking)))
            == finalized_count(CreationStage::Idle, frames),
        transition_of(CreationStage::Previewing, Some(CreationEvent::StartMaking))
            == Transition::Unchanged,
{
    let longer = frames.push(Some(CreationEvent::StartMaking));
    assert(longer.drop_last() =~= frames);
}

/// A finish while idle is a no-op: the stage stays idle, and nothing is
/// finalized.
pub proof fn lemma_finish_while_idle(frames: Seq<Option<CreationEvent>>)
    requires
        stage_after(CreationStage::Idle, frames) == CreationStage::Idle,
    ensures
        stage_after(CreationStage::Idle, frames.push(Some(CreationEvent::FinishMaking)))
            == CreationStage::Idle,
        finalized_count(CreationStage::Idle, frames.push(Some(CreationEvent::FinishMaking)))
            == finalized_count(CreationStage::Idle, frames),
        transition_of(CreationStage::Idle, Some(CreationEvent::FinishMaking))
            == Transition::Unchanged,
{
    let longer = frames.push(Some(CreationEvent::FinishMaking));
    assert(longer.drop_last() =~= frames);
}

/// Frames that carry no finish keep a preview alive and finalize nothing.
pub proof fn lemma_quiet_frames_keep_preview(
    lead: Seq<Option<CreationEvent>>,
    quiet: Seq<Option<CreationEvent>>,
)
    requires
        stage_after(CreationStage::Idle, lead) == CreationStage::Previewing,
        forall|i: int| 0 <= i < quiet.len() ==> quiet[i] != Some(CreationEvent::FinishMaking),
    ensures
        stage_after(CreationStage::Idle, lead + quiet) == CreationStage::Previewing,
        finalized_count(CreationStage::Idle, lead + quiet) == finalized_count(
            CreationStage::Idle,
            lead,
        ),
    decreases quiet.len(),
{
    if quiet.len() == 0 {
        assert(lead + quiet =~= lead);
    } else {
        lemma_quiet_frames_keep_preview(lead, quiet.drop_last());
        assert((lead + quiet).drop_last() =~= lead + quiet.drop_last());
        assert((lead + quiet).last() == quiet.last());
    }
}

/// A start, then any number of frames without a finish, then a finish:
/// the stage goes from idle to previewing, stays there, and returns to idle,
/// and exactly one box is finalized.
pub proof fn lemma_start_then_finish(quiet: Seq<Option<CreationEvent>>)
    requires
        forall|i: int| 0 <= i < quiet.len() ==> quiet[i] != Some(CreationEvent::FinishMaking),
    ensures
        stage_after(CreationStage::Idle, seq![Some(CreationEvent::StartMaking)])
            == CreationStage::Previewing,
        forall|k: int|
            0 <= k <= quiet.len() ==> #[trigger] stage_after(
                CreationStage::Idle,
                seq![Some(CreationEvent::StartMaking)] + quiet.take(k),
            ) == CreationStage::Previewing,
        stage_after(
            CreationStage::Idle,
            (seq![Some(CreationEvent::StartMaking)] + quiet).push(
                Some(CreationEvent::FinishMaking),
            ),
        ) == CreationStage::Idle,
        finalized_count(
            CreationStage::Idle,
            (seq![Some(CreationEvent::StartMaking)] + quiet).push(
                Some(CreationEvent::FinishMaking),
            ),
        ) == 1,
{
    let lead = seq![Some(CreationEvent::StartMaking)];
    assert(lead.drop_last() =~= Seq::<Option<CreationEvent>>::empty());
    assert(stage_after(CreationStage::Idle, lead.drop_last()) == CreationStage::Idle);
    assert(finalized_count(CreationStage::Idle, lead.drop_last()) == 0);
    assert(stage_after(CreationStage::Idle, lead) == CreationStage::Previewing);
    assert(finalized_count(CreationStage::Idle, lead) == 0);
    assert forall|k: int| 0 <= k <= quiet.len() implies #[trigger] stage_after(
        CreationStage::Idle,
        lead + quiet.take(k),
    ) == CreationStage::Previewing by {
        lemma_quiet_frames_keep_preview(lead, quiet.take(k));
    }
    lemma_quiet_frames_keep_preview(lead, quiet);
    let all = (lead + quiet).push(Some(CreationEvent::FinishMaking));
    assert(all.drop_last() =~= lead + quiet);
}

} // verus!
