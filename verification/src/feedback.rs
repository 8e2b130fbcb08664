//! The feedback emitter: what a frame asks of the renderer, the physics
//! world and the audio cue, given what happened to the stage and the box
//! the hands currently span.
//!
//! Volumes and playback speeds are in millionths, lengths in ticks.

use vstd::prelude::*;
use crate::geometry::BoxGeometry;
use crate::geometry::Extent3;
use crate::geometry::Point3;
use crate::geometry::is_floor_sqrt;
use crate::geometry::lemma_floor_sqrt_exists;
use crate::geometry::lemma_floor_sqrt_unique;
use crate::stage::CreationStage;
use crate::stage::Transition;

verus! {

/// The volume of the hum while a box is being defined: 0.7.
pub const PREVIEW_VOLUME: u32 = 700_000;

/// The volume of the hum once a box has been created: silence.
pub const SILENT_VOLUME: u32 = 0;

/// The playback speed of the hum for a box of no size: 0.1.
pub const SPEED_FLOOR: u64 = 100_000;

/// A colour, eight bits to the channel.
#[derive(Clone, Copy, Debug, PartialEq, Eq, Structural)]
pub struct Rgb {
    pub r: u8,
    pub g: u8,
    pub b: u8,
}

/// A linear velocity, each component in ticks per second.
#[derive(Clone, Copy, Debug, PartialEq, Eq, Structural)]
pub struct Velocity3 {
    pub x: i32,
    pub y: i32,
    pub z: i32,
}

/// A wireframe box to draw for the current frame.
#[derive(Clone, Copy, Debug, PartialEq, Eq, Structural)]
pub struct WireframeBox {
    pub center: Point3,
    pub extents: Extent3,
    pub color: Rgb,
}

/// A physical cuboid to create: a dynamic rigid body at `center` whose mesh
/// and collider both have the size `extents`.
#[derive(Clone, Copy, Debug, PartialEq, Eq, Structural)]
pub struct CuboidSpawn {
    pub center: Point3,
    pub extents: Extent3,
    pub velocity: Velocity3,
    pub color: Rgb,
}

/// Everything one frame asks of the outside world. A field that is `None`
/// asks for nothing.
#[derive(Clone, Copy, Debug, PartialEq, Eq, Structural)]
pub struct FrameFeedback {
    /// The volume to set on the audio cue.
    pub volume: Option<u32>,
    /// The playback speed to set on the audio cue.
    pub speed: Option<u64>,
    /// The preview to draw.
    pub wireframe: Option<WireframeBox>,
    /// The cuboid to spawn.
    pub spawn: Option<CuboidSpawn>,
}

/// The colour of the preview: green.
pub open spec fn preview_color() -> Rgb {
    Rgb { r: 0, g: 255, b: 0 }
}

/// The colour that a random draw stands for: its low three bytes, red first.
pub open spec fn color_of_seed(seed: u32) -> Rgb {
    Rgb {
        r: ((seed / 0x1_0000) % 0x100) as u8,
        g: ((seed / 0x100) % 0x100) as u8,
        b: (seed % 0x100) as u8,
    }
}

/// The velocity of a cuboid as it is created: at rest.
pub open spec fn spawn_velocity() -> Velocity3 {
    Velocity3 { x: 0, y: 0, z: 0 }
}

/// The playback speed that sonifies a box: the length of its diagonal, plus
/// the floor.
pub open spec fn playback_speed(extents: Extent3) -> int {
    extents.spec_diagonal() + SPEED_FLOOR
}

/// The preview of a box.
pub open spec fn preview_of(geometry: BoxGeometry) -> WireframeBox {
    WireframeBox {
        center: geometry.spec_center(),
        extents: geometry.extents,
        color: preview_color(),
    }
}

/// The cuboid that a box becomes.
pub open spec fn spawn_of(geometry: BoxGeometry, seed: u32) -> CuboidSpawn {
    CuboidSpawn {
        center: geometry.spec_center(),
        extents: geometry.extents,
        velocity: spawn_velocity(),
        color: color_of_seed(seed),
    }
}

/// The volume that a transition sets, if any: the hum on a start, silence
/// once a box is finalized.
pub open spec fn volume_of(transition: Transition) -> Option<u32> {
    match transition {
        Transition::Started => Some(PREVIEW_VOLUME),
        Transition::Finalized => Some(SILENT_VOLUME),
        Transition::Unchanged => None,
    }
}

/// A frame shows the box while a box is being defined, the frame that
/// finalizes it included.
pub open spec fn shows_box(transition: Transition, stage: CreationStage) -> bool {
    stage == CreationStage::Previewing || transition == Transition::Finalized
}

/// What a frame asks for, given what its event did, the stage it left, the
/// box the hands span, and a random draw for the colour of a new cuboid.
pub open spec fn feedback_of(
    transition: Transition,
    stage: CreationStage,
    geometry: Option<BoxGeometry>,
    seed: u32,
) -> FrameFeedback {
    match geometry {
        Some(g) => FrameFeedback {
            volume: volume_of(transition),
            speed: if shows_box(transition, stage) {
                Some(playback_speed(g.extents) as u64)
            } else {
                None
            },
            wireframe: if shows_box(transition, stage) {
                Some(preview_of(g))
            } else {
                None
            },
            spawn: if transition == Transition::Finalized {
                Some(spawn_of(g, seed))
            } else {
                None
            },
        },
        None => FrameFeedback {
            volume: volume_of(transition),
            speed: None,
            wireframe: None,
            spawn: None,
        },
    }
}

impl Rgb {
    /// The colour of the preview.
    pub fn preview() -> (color: Rgb)
        ensures
            color == preview_color(),
    {
        Rgb { r: 0, g: 255, b: 0 }
    }

    /// The colour that a random draw stands for.
    pub fn from_seed(seed: u32) -> (color: Rgb)
        ensures
            color == color_of_seed(seed),
    {
        Rgb {
            r: ((seed / 0x1_0000) % 0x100) as u8,
            g: ((seed / 0x100) % 0x100) as u8,
            b: (seed % 0x100) as u8,
        }
    }
}

impl Velocity3 {
    /// No motion.
    pub fn zero() -> (velocity: Velocity3)
        ensures
            velocity == spawn_velocity(),
    {
        Velocity3 { x: 0, y: 0, z: 0 }
    }
}

/// The playback speed that sonifies a box of the given size.
pub fn playback_speed_for(extents: &Extent3) -> (speed: u64)
    ensures
        speed == playback_speed(*extents),
        speed >= SPEED_FLOOR,
{
    extents.diagonal() + SPEED_FLOOR
}

impl WireframeBox {
    /// The preview of a box: drawn about its centre, with its extents, in
    /// the preview colour.
    pub fn preview(geometry: &BoxGeometry) -> (wireframe: WireframeBox)
        requires
            geometry.wf(),
        ensures
            wireframe == preview_of(*geometry),
    {
        WireframeBox {
            center: geometry.center(),
            extents: geometry.extents,
            color: Rgb::preview(),
        }
    }
}

impl CuboidSpawn {
    /// The cuboid that a box becomes: placed at its centre, with its extents,
    /// at rest, in the colour of the draw.
    pub fn of_box(geometry: &BoxGeometry, seed: u32) -> (spawn: CuboidSpawn)
        requires
            geometry.wf(),
        ensures
            spawn == spawn_of(*geometry, seed),
    {
        CuboidSpawn {
            center: geometry.center(),
            extents: geometry.extents,
            velocity: Velocity3::zero(),
            color: Rgb::from_seed(seed),
        }
    }
}

impl FrameFeedback {
    /// A frame that asks for nothing.
    pub open spec fn nothing() -> FrameFeedback {
        FrameFeedback { volume: None, speed: None, wireframe: None, spawn: None }
    }

    /// Whether the frame asks for nothing at all.
    pub fn is_nothing(&self) -> (quiet: bool)
        ensures
            quiet == (*self == FrameFeedback::nothing()),
    {
        self.volume.is_none() && self.speed.is_none() && self.wireframe.is_none()
            && self.spawn.is_none()
    }
}

/// Works out what a frame asks of the outside world.
///
/// While a box is being defined and the hands span one, the frame draws its
/// preview and tunes the playback speed to its size. The frame that finalizes
/// the box also spawns it as a cuboid. A start turns the hum on, a finalized
/// box turns it off. Without a box nothing is drawn and nothing is spawned.
pub fn emit(
    transition: Transition,
    stage: CreationStage,
    geometry: Option<BoxGeometry>,
    seed: u32,
) -> (feedback: FrameFeedback)
    requires
        geometry matches Some(g) ==> g.wf(),
    ensures
        feedback == feedback_of(transition, stage, geometry, seed),
        feedback.spawn is Some <==> transition == Transition::Finalized && geometry is Some,
        feedback.wireframe is Some <==> shows_box(transition, stage) && geometry is Some,
        feedback.speed is Some <==> feedback.wireframe is Some,
{
    let volume: Option<u32> = match transition {
        Transition::Started => Some(PREVIEW_VOLUME),
        Transition::Finalized => Some(SILENT_VOLUME),
        Transition::Unchanged => None,
    };
    let finalized: bool = match transition {
        Transition::Finalized => true,
        _ => false,
    };
    let previewing: bool = match stage {
        CreationStage::Previewing => true,
        CreationStage::Idle => false,
    };
    match geometry {
        Some(g) => {
            if previewing || finalized {
                FrameFeedback {
                    volume,
                    speed: Some(playback_speed_for(&g.extents)),
                    wireframe: Some(WireframeBox::preview(&g)),
                    spawn: if finalized {
                        Some(CuboidSpawn::of_box(&g, seed))
                    } else {
                        None
                    },
                }
            } else {
                FrameFeedback { volume, speed: None, wireframe: None, spawn: None }
            }
        },
        None => FrameFeedback { volume, speed: None, wireframe: None, spawn: None },
    }
}

/// The playback speed never falls below the floor, and a box of no size
/// plays at the floor.
pub proof fn lemma_playback_speed_floor(extents: Extent3)
    ensures
        playback_speed(extents) >= SPEED_FLOOR,
        extents.x == 0 && extents.y == 0 && extents.z == 0 ==> playback_speed(extents)
            == SPEED_FLOOR,
{
    let n: int = extents.spec_diagonal_squared();
    assert(0 <= n) by (nonlinear_arith)
        requires
            n == extents.x * extents.x + extents.y * extents.y + extents.z * extents.z,
    ;
    lemma_floor_sqrt_exists(n);
    if extents.x == 0 && extents.y == 0 && extents.z == 0 {
        assert(is_floor_sqrt(0, n));
        lemma_floor_sqrt_unique(0, extents.spec_diagonal(), n);
    }
}

} // verus!
