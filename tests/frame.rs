use mesh_viewer::frame::{
    DisplayState, FrameClock, FrameLoop, FramePlan, LoopAction, LoopEvent, FALLBACK_STEP_NANOS,
    MAX_STEP_NANOS, NANOS_PER_SECOND,
};
use mesh_viewer::input::{command_for_key, Axis, CameraCommand, Key, MoveInput};

const STILL: MoveInput = MoveInput { x: 0, y: 0, z: 0 };

#[test]
fn clock_going_back_gives_fallback() {
    let mut c = FrameClock::new(5_000);
    assert_eq!(c.tick(4_000), FALLBACK_STEP_NANOS);
    assert!(FALLBACK_STEP_NANOS > 0);
    assert_eq!(c.last_nanos, 4_000);
}

#[test]
fn clock_standing_still_gives_fallback() {
    let mut c = FrameClock::new(7);
    assert_eq!(c.tick(7), FALLBACK_STEP_NANOS);
}

#[test]
fn clock_measures_elapsed_time() {
    let mut c = FrameClock::new(1_000);
    assert_eq!(c.tick(1_000 + 16_666_667), 16_666_667);
    assert_eq!(c.tick(1_000 + 2 * 16_666_667), 16_666_667);
}

#[test]
fn clock_clamps_a_stall() {
    let mut c = FrameClock::new(0);
    assert_eq!(c.tick(30 * NANOS_PER_SECOND), MAX_STEP_NANOS);
    assert_eq!(c.last_nanos, 30 * NANOS_PER_SECOND);
}

#[test]
fn zero_resize_keeps_size() {
    let mut d = DisplayState::new([1280, 720]);
    assert!(d.drawable);
    assert!(d.resize([800, 600]));
    assert!(!d.resize([0, 0]));
    assert!(!d.drawable);
    assert_eq!(d.display_size(), [800, 600]);
    assert!(!d.resize([0, 600]));
    assert!(d.resize([800, 600]));
    assert!(d.drawable);
    assert_eq!(d.display_size(), [800, 600]);
}

#[test]
fn resize_sequence_draws_nothing_while_zero() {
    let mut l = FrameLoop::new([1280, 720], 0);
    assert_eq!(
        l.step(LoopEvent::Resized { width: 800, height: 600 }),
        LoopAction::ResizeSurface { width: 800, height: 600 }
    );
    assert_eq!(l.step(LoopEvent::Resized { width: 0, height: 0 }), LoopAction::Nothing);
    match l.step(LoopEvent::RedrawRequested { now_nanos: 10 }) {
        LoopAction::Frame(p) => assert!(!p.draw),
        other => panic!("expected a frame, got {:?}", other),
    }
    assert_eq!(
        l.step(LoopEvent::Resized { width: 800, height: 600 }),
        LoopAction::ResizeSurface { width: 800, height: 600 }
    );
    assert_eq!(l.display.display_size(), [800, 600]);
    match l.step(LoopEvent::RedrawRequested { now_nanos: 20 }) {
        LoopAction::Frame(p) => {
            assert!(p.draw);
            assert_eq!(p.size, [800, 600]);
        }
        other => panic!("expected a frame, got {:?}", other),
    }
}

#[test]
fn key_table() {
    assert_eq!(command_for_key(Key::Z), Some(CameraCommand::RotateYaw(-90)));
    assert_eq!(command_for_key(Key::X), Some(CameraCommand::RotateYaw(90)));
    assert_eq!(command_for_key(Key::W), Some(CameraCommand::Move { axis: Axis::Z, positive: false }));
    assert_eq!(command_for_key(Key::S), Some(CameraCommand::Move { axis: Axis::Z, positive: true }));
    assert_eq!(command_for_key(Key::A), Some(CameraCommand::Move { axis: Axis::X, positive: false }));
    assert_eq!(command_for_key(Key::D), Some(CameraCommand::Move { axis: Axis::X, positive: true }));
    assert_eq!(command_for_key(Key::Other), None);
}

#[test]
fn movement_is_handed_out_once() {
    let mut l = FrameLoop::new([640, 480], 100);
    assert_eq!(l.step(LoopEvent::KeyPressed(Key::W)), LoopAction::Nothing);
    assert_eq!(l.step(LoopEvent::KeyPressed(Key::D)), LoopAction::Nothing);
    assert_eq!(
        l.step(LoopEvent::RedrawRequested { now_nanos: 200 }),
        LoopAction::Frame(FramePlan {
            dt_nanos: 100,
            movement: MoveInput { x: 1, y: 0, z: -1 },
            draw: true,
            size: [640, 480],
        })
    );
    assert_eq!(
        l.step(LoopEvent::RedrawRequested { now_nanos: 300 }),
        LoopAction::Frame(FramePlan { dt_nanos: 100, movement: STILL, draw: true, size: [640, 480] })
    );
}

#[test]
fn latest_press_on_an_axis_wins() {
    let mut m = MoveInput::none();
    m.press(Axis::X, false);
    m.press(Axis::X, true);
    m.press(Axis::Y, false);
    assert_eq!(m, MoveInput { x: 1, y: -1, z: 0 });
    m.reset();
    assert_eq!(m, STILL);
}

#[test]
fn rotation_keys_turn_the_camera() {
    let mut l = FrameLoop::new([640, 480], 0);
    assert_eq!(l.step(LoopEvent::KeyPressed(Key::Z)), LoopAction::RotateCamera { yaw_degrees: -90 });
    assert_eq!(l.step(LoopEvent::KeyPressed(Key::X)), LoopAction::RotateCamera { yaw_degrees: 90 });
    assert_eq!(l.step(LoopEvent::KeyPressed(Key::Other)), LoopAction::Nothing);
    assert_eq!(l.movement, STILL);
}

#[test]
fn close_stops_the_loop() {
    let mut l = FrameLoop::new([640, 480], 0);
    assert_eq!(l.step(LoopEvent::MainEventsCleared), LoopAction::RequestRedraw);
    assert!(!l.is_stopped());
    assert_eq!(l.step(LoopEvent::CloseRequested), LoopAction::Exit);
    assert!(l.is_stopped());
    let before = l;
    assert_eq!(l.step(LoopEvent::RedrawRequested { now_nanos: 50 }), LoopAction::Nothing);
    assert_eq!(l.step(LoopEvent::Resized { width: 10, height: 10 }), LoopAction::Nothing);
    assert_eq!(l, before);
}

#[test]
fn redraw_with_clock_going_back_still_steps_forward() {
    let mut l = FrameLoop::new([640, 480], 1_000);
    match l.step(LoopEvent::RedrawRequested { now_nanos: 10 }) {
        LoopAction::Frame(p) => assert_eq!(p.dt_nanos, FALLBACK_STEP_NANOS),
        other => panic!("expected a frame, got {:?}", other),
    }
    assert_eq!(l.step(LoopEvent::Other), LoopAction::Nothing);
}

#[test]
fn initial_zero_size_is_not_drawn() {
    let mut l = FrameLoop::new([0, 720], 0);
    match l.step(LoopEvent::RedrawRequested { now_nanos: 5 }) {
        LoopAction::Frame(p) => {
            assert!(!p.draw);
            assert_eq!(p.dt_nanos, 5);
        }
        other => panic!("expected a frame, got {:?}", other),
    }
}
