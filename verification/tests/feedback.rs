use cube_creation::feedback::emit;
use cube_creation::feedback::playback_speed_for;
use cube_creation::feedback::CuboidSpawn;
use cube_creation::feedback::FrameFeedback;
use cube_creation::feedback::Rgb;
use cube_creation::feedback::Velocity3;
use cube_creation::feedback::WireframeBox;
use cube_creation::feedback::PREVIEW_VOLUME;
use cube_creation::feedback::SILENT_VOLUME;
use cube_creation::feedback::SPEED_FLOOR;
use cube_creation::geometry::BoxGeometry;
use cube_creation::geometry::Extent3;
use cube_creation::geometry::Point3;
use cube_creation::stage::CreationStage;
use cube_creation::stage::Transition;

fn point(x: i32, y: i32, z: i32) -> Point3 {
    Point3 { x, y, z }
}

fn sample_box() -> BoxGeometry {
    BoxGeometry::resolve(point(100_000, 1_500_000, -300_000), point(400_000, 1_100_000, -300_000))
}

const NOTHING: FrameFeedback =
    FrameFeedback { volume: None, speed: None, wireframe: None, spawn: None };

#[test]
fn audio_constants() {
    assert_eq!(PREVIEW_VOLUME, 700_000);
    assert_eq!(SILENT_VOLUME, 0);
    assert_eq!(SPEED_FLOOR, 100_000);
}

#[test]
fn preview_colour_is_green() {
    assert_eq!(Rgb::preview(), Rgb { r: 0, g: 255, b: 0 });
}

#[test]
fn colour_of_a_draw_is_its_low_three_bytes() {
    assert_eq!(Rgb::from_seed(0x0012_3456), Rgb { r: 0x12, g: 0x34, b: 0x56 });
    assert_eq!(Rgb::from_seed(0xFFAB_CDEF), Rgb { r: 0xAB, g: 0xCD, b: 0xEF });
    assert_eq!(Rgb::from_seed(0), Rgb { r: 0, g: 0, b: 0 });
    assert_eq!(Rgb::from_seed(u32::MAX), Rgb { r: 255, g: 255, b: 255 });
    assert_eq!(Rgb::from_seed(0x0100_0000), Rgb { r: 0, g: 0, b: 0 });
}

#[test]
fn spawn_velocity_is_zero() {
    assert_eq!(Velocity3::zero(), Velocity3 { x: 0, y: 0, z: 0 });
}

#[test]
fn playback_speed_is_diagonal_plus_floor() {
    assert_eq!(playback_speed_for(&Extent3 { x: 300_000, y: 400_000, z: 0 }), 600_000);
    assert_eq!(playback_speed_for(&Extent3 { x: 3, y: 4, z: 12 }), 100_013);
    assert_eq!(playback_speed_for(&Extent3 { x: 1_000_000, y: 0, z: 0 }), 1_100_000);
}

#[test]
fn playback_speed_of_a_box_of_no_size_is_the_floor() {
    assert_eq!(playback_speed_for(&Extent3 { x: 0, y: 0, z: 0 }), 100_000);
}

#[test]
fn playback_speed_has_no_ceiling() {
    let largest = Extent3 { x: u32::MAX, y: u32::MAX, z: u32::MAX };
    assert_eq!(playback_speed_for(&largest), 7_439_201_571);
}

#[test]
fn wireframe_is_drawn_about_the_centre() {
    let w = WireframeBox::preview(&sample_box());
    assert_eq!(
        w,
        WireframeBox {
            center: point(250_000, 1_300_000, -300_000),
            extents: Extent3 { x: 300_000, y: 400_000, z: 0 },
            color: Rgb { r: 0, g: 255, b: 0 },
        }
    );
}

#[test]
fn cuboid_takes_centre_extents_and_colour() {
    let s = CuboidSpawn::of_box(&sample_box(), 0x00C0_FFEE);
    assert_eq!(
        s,
        CuboidSpawn {
            center: point(250_000, 1_300_000, -300_000),
            extents: Extent3 { x: 300_000, y: 400_000, z: 0 },
            velocity: Velocity3 { x: 0, y: 0, z: 0 },
            color: Rgb { r: 0xC0, g: 0xFF, b: 0xEE },
        }
    );
}

#[test]
fn emit_while_idle_asks_for_nothing() {
    let fb = emit(Transition::Unchanged, CreationStage::Idle, Some(sample_box()), 1);
    assert_eq!(fb, NOTHING);
    assert!(fb.is_nothing());
    let lost = emit(Transition::Unchanged, CreationStage::Idle, None, 1);
    assert_eq!(lost, NOTHING);
}

#[test]
fn emit_on_start_hums_and_previews() {
    let fb = emit(Transition::Started, CreationStage::Previewing, Some(sample_box()), 1);
    assert_eq!(fb.volume, Some(700_000));
    assert_eq!(fb.speed, Some(600_000));
    assert_eq!(fb.wireframe, Some(WireframeBox::preview(&sample_box())));
    assert_eq!(fb.spawn, None);
    assert!(!fb.is_nothing());
}

#[test]
fn emit_while_previewing_redraws_without_touching_the_volume() {
    let fb = emit(Transition::Unchanged, CreationStage::Previewing, Some(sample_box()), 1);
    assert_eq!(fb.volume, None);
    assert_eq!(fb.speed, Some(600_000));
    assert_eq!(fb.wireframe, Some(WireframeBox::preview(&sample_box())));
    assert_eq!(fb.spawn, None);
}

#[test]
fn emit_while_previewing_without_a_box_asks_for_nothing() {
    let fb = emit(Transition::Unchanged, CreationStage::Previewing, None, 1);
    assert_eq!(fb, NOTHING);
}

#[test]
fn emit_on_finalize_spawns_and_silences() {
    let fb = emit(Transition::Finalized, CreationStage::Idle, Some(sample_box()), 0x00C0_FFEE);
    assert_eq!(fb.volume, Some(0));
    assert_eq!(fb.speed, Some(600_000));
    assert_eq!(fb.wireframe, Some(WireframeBox::preview(&sample_box())));
    assert_eq!(fb.spawn, Some(CuboidSpawn::of_box(&sample_box(), 0x00C0_FFEE)));
}

#[test]
fn emit_on_finalize_without_a_box_only_silences() {
    let fb = emit(Transition::Finalized, CreationStage::Idle, None, 9);
    assert_eq!(fb, FrameFeedback { volume: Some(0), speed: None, wireframe: None, spawn: None });
    assert!(!fb.is_nothing());
}
