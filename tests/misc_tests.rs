use pong_rust::fps_limiter::{FPSLimiter, SAMPLE_COUNT};
use pong_rust::input::{Action, AppAction, GamePhase, Key, KeyState, PongRustActions};

#[test]
fn limiter_starts_empty() {
    let l = FPSLimiter::new();
    assert_eq!(l.sample_sum(), 0);
    assert_eq!(l.delta_micros(), 0);
    assert_eq!(SAMPLE_COUNT, 5);
}

#[test]
fn limiter_ring_overwrites_oldest() {
    let mut l = FPSLimiter::new();
    for t in [100u32, 200, 300, 400, 500] {
        l.record_frame_time(t);
    }
    assert_eq!(l.sample_sum(), 1500);
    l.record_frame_time(1100);
    assert_eq!(l.sample_sum(), 2500);
    assert_eq!(l.delta_micros(), 1100);
}

#[test]
fn limiter_tick_records_sub_second_micros() {
    let mut l = FPSLimiter::new();
    let start = std::time::Instant::now();
    while start.elapsed().as_micros() < 3000 {}
    l.tick_frame();
    let d = l.delta_micros();
    assert!(d >= 3000 && d < 1_000_000);
    assert_eq!(l.sample_sum(), d as u64);
}

#[test]
fn space_cycles_through_phases() {
    let mut p = GamePhase::Start;
    assert_eq!(
        p.handle_keyboard_input(Some(Key::Space), KeyState::Pressed),
        Some(PongRustActions::SceneAction(Action::Kickoff))
    );
    assert_eq!(p, GamePhase::Playing);
    assert_eq!(p.handle_keyboard_input(Some(Key::Space), KeyState::Pressed), None);
    assert_eq!(p, GamePhase::Playing);
    p = GamePhase::End;
    assert_eq!(
        p.handle_keyboard_input(Some(Key::Space), KeyState::Pressed),
        Some(PongRustActions::SceneAction(Action::ResetGame))
    );
    assert_eq!(p, GamePhase::Start);
}

#[test]
fn paddle_keys_and_quit() {
    let mut p = GamePhase::Playing;
    assert_eq!(
        p.handle_keyboard_input(Some(Key::W), KeyState::Pressed),
        Some(PongRustActions::SceneAction(Action::LeftPaddleUp))
    );
    assert_eq!(
        p.handle_keyboard_input(Some(Key::S), KeyState::Released),
        Some(PongRustActions::SceneAction(Action::LeftPaddleStop))
    );
    assert_eq!(
        p.handle_keyboard_input(Some(Key::K), KeyState::Pressed),
        Some(PongRustActions::SceneAction(Action::RightPaddleDown))
    );
    assert_eq!(
        p.handle_keyboard_input(Some(Key::I), KeyState::Released),
        Some(PongRustActions::SceneAction(Action::RightPaddleStop))
    );
    assert_eq!(
        p.handle_keyboard_input(Some(Key::Escape), KeyState::Pressed),
        Some(PongRustActions::SystemAction(AppAction::Quit))
    );
    assert_eq!(p.handle_keyboard_input(Some(Key::Escape), KeyState::Released), None);
    assert_eq!(p.handle_keyboard_input(None, KeyState::Pressed), None);
    assert_eq!(p, GamePhase::Playing);
}
