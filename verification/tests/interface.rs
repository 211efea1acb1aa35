//! Tests of the interactive surface: zoom clamping, input translation,
//! the frame pacer's slots, and the orchestrator's decisions.

use gravity_sim::app_state::AppState;
use gravity_sim::app_state::KeyOutcome;
use gravity_sim::float_bits::clamp_zoom;
use gravity_sim::float_bits::f32_bits_is_positive;
use gravity_sim::framepace::Framepacer;
use gravity_sim::gui::keycode_to_ui_key;
use gravity_sim::gui::key_event_action;
use gravity_sim::gui::modifiers_from_state;
use gravity_sim::gui::mouse_button_to_pointer;
use gravity_sim::gui::named_key_to_ui_key;
use gravity_sim::gui::KeyCode;
use gravity_sim::gui::KeyEventAction;
use gravity_sim::gui::LogicalKey;
use gravity_sim::gui::MouseButton;
use gravity_sim::gui::NamedKey;
use gravity_sim::gui::PointerButton;
use gravity_sim::gui::UiKey;

fn clamp_zoom_f32(candidate: f32) -> f32 {
    f32::from_bits(clamp_zoom(candidate.to_bits()))
}

#[test]
fn zoom_clamps_to_interactive_range() {
    assert_eq!(clamp_zoom_f32(15.0), 10.0);
    assert_eq!(clamp_zoom_f32(-2.0), 0.01);
    assert_eq!(clamp_zoom_f32(1.0), 1.0);
    assert_eq!(clamp_zoom_f32(0.01), 0.01);
    assert_eq!(clamp_zoom_f32(10.0), 10.0);
    assert_eq!(clamp_zoom_f32(0.0099), 0.01);
    assert_eq!(clamp_zoom_f32(f32::INFINITY), 10.0);
    assert_eq!(clamp_zoom_f32(f32::NEG_INFINITY), 0.01);
    assert_eq!(clamp_zoom_f32(-0.0), 0.01);
}

#[test]
fn zoom_clamp_agrees_with_float_clamp() {
    for raw in [-1000.0f32, -0.5, 0.0, 0.005, 0.01, 0.02, 1.5, 9.99, 10.0, 10.5, 1e20] {
        assert_eq!(clamp_zoom_f32(raw), raw.clamp(0.01, 10.0));
    }
}

#[test]
fn gravity_positivity_follows_float_comparison() {
    assert!(f32_bits_is_positive(0.1f32.to_bits()));
    assert!(f32_bits_is_positive(f32::MIN_POSITIVE.to_bits()));
    assert!(f32_bits_is_positive(f32::INFINITY.to_bits()));
    assert!(!f32_bits_is_positive(0.0f32.to_bits()));
    assert!(!f32_bits_is_positive((-0.0f32).to_bits()));
    assert!(!f32_bits_is_positive((-0.1f32).to_bits()));
    assert!(!f32_bits_is_positive(f32::NAN.to_bits()));
}

#[test]
fn physical_key_translation() {
    assert_eq!(keycode_to_ui_key(KeyCode::KeyA), Some(UiKey::A));
    assert_eq!(keycode_to_ui_key(KeyCode::Digit7), Some(UiKey::Num7));
    assert_eq!(keycode_to_ui_key(KeyCode::Numpad7), Some(UiKey::Num7));
    assert_eq!(keycode_to_ui_key(KeyCode::NumpadAdd), Some(UiKey::Plus));
    assert_eq!(keycode_to_ui_key(KeyCode::NumpadEqual), Some(UiKey::Equals));
    assert_eq!(keycode_to_ui_key(KeyCode::BracketLeft), Some(UiKey::OpenBracket));
    assert_eq!(keycode_to_ui_key(KeyCode::F11), None);
    assert_eq!(keycode_to_ui_key(KeyCode::Other), None);
}

#[test]
fn named_key_translation() {
    assert_eq!(named_key_to_ui_key(NamedKey::Enter), Some(UiKey::Enter));
    assert_eq!(named_key_to_ui_key(NamedKey::ArrowLeft), Some(UiKey::ArrowLeft));
    assert_eq!(named_key_to_ui_key(NamedKey::Escape), Some(UiKey::Escape));
    assert_eq!(named_key_to_ui_key(NamedKey::Other), None);
}

#[test]
fn keyboard_events_forwarded_or_dropped() {
    assert_eq!(key_event_action(LogicalKey::Character, true), KeyEventAction::EmitText);
    assert_eq!(key_event_action(LogicalKey::Character, false), KeyEventAction::Ignore);
    assert_eq!(
        key_event_action(LogicalKey::Named(NamedKey::Tab), false),
        KeyEventAction::EmitKey(UiKey::Tab),
    );
    assert_eq!(
        key_event_action(LogicalKey::Named(NamedKey::Other), true),
        KeyEventAction::Ignore,
    );
    assert_eq!(key_event_action(LogicalKey::Unidentified, true), KeyEventAction::Ignore);
    assert_eq!(key_event_action(LogicalKey::Dead, true), KeyEventAction::Ignore);
}

#[test]
fn mouse_button_translation() {
    assert_eq!(mouse_button_to_pointer(MouseButton::Left), Some(PointerButton::Primary));
    assert_eq!(mouse_button_to_pointer(MouseButton::Back), Some(PointerButton::Extra1));
    assert_eq!(mouse_button_to_pointer(MouseButton::Forward), Some(PointerButton::Extra2));
    assert_eq!(mouse_button_to_pointer(MouseButton::Other), None);
}

#[test]
fn modifier_record_combines_command() {
    let m = modifiers_from_state(true, false, true, false);
    assert!(m.alt && !m.ctrl && m.shift && !m.mac_cmd && !m.command);
    let m = modifiers_from_state(false, true, false, false);
    assert!(m.command);
    let m = modifiers_from_state(false, false, false, true);
    assert!(m.command && m.mac_cmd);
}

#[test]
fn framepacer_slots_rotate() {
    let mut pacer = Framepacer::new();
    assert_eq!(pacer.current, 0);
    assert_eq!(pacer.next(), 1);
    pacer.begin_frame();
    assert_eq!(pacer.current, 1);
    pacer.begin_frame();
    assert_eq!(pacer.current, 0);
}

fn running_state(framerate: u32) -> AppState {
    let mut st = AppState::new(4096, framerate, 0.1f32.to_bits());
    st.resumed(800, 600);
    st
}

#[test]
fn startup_defaults() {
    let st = running_state(0);
    assert!(st.is_paused);
    assert!(!st.step);
    assert_eq!(st.sim.particles, 4096);
    let pm = st.physics.deref();
    assert_eq!(pm.particle_capacity, 4096);
    assert_eq!(pm.current, 0);
    let f = st.follow.deref();
    assert!(!f.enabled && f.center_of_mass && !f.auto_zoom);
    let c = st.capture.deref();
    assert!(!c.enabled);
    assert_eq!((c.width, c.height), (800, 600));
}

#[test]
fn shortcuts_toggle_state() {
    let mut st = running_state(0);
    assert_eq!(st.handle_key(KeyCode::Space, true), KeyOutcome::Handled);
    assert!(!st.is_paused);
    assert_eq!(st.handle_key(KeyCode::Space, true), KeyOutcome::Handled);
    assert!(st.is_paused);
    assert_eq!(st.handle_key(KeyCode::KeyN, true), KeyOutcome::Handled);
    assert!(st.step);
    assert_eq!(st.handle_key(KeyCode::KeyF, true), KeyOutcome::Handled);
    assert!(st.follow.deref().enabled);
    assert_eq!(st.handle_key(KeyCode::KeyC, true), KeyOutcome::Handled);
    assert!(st.capture.deref().enabled);
    assert_eq!(st.handle_key(KeyCode::F11, true), KeyOutcome::ToggleFullscreen);
    assert_eq!(st.handle_key(KeyCode::KeyA, true), KeyOutcome::Forward);
    assert_eq!(st.handle_key(KeyCode::Space, false), KeyOutcome::Forward);
    assert!(st.is_paused);
}

#[test]
fn right_button_drives_panning() {
    let mut st = running_state(0);
    assert!(!st.is_right_click_pressed);
    assert!(!st.handle_mouse_button(MouseButton::Right, true));
    assert!(st.is_right_click_pressed);
    assert!(st.handle_mouse_button(MouseButton::Left, true));
    assert!(st.is_right_click_pressed);
    assert!(!st.handle_mouse_button(MouseButton::Right, false));
    assert!(!st.is_right_click_pressed);
}

#[test]
fn capture_force_disabled_without_fixed_framerate() {
    let mut st = running_state(0);
    st.handle_key(KeyCode::KeyC, true);
    assert!(st.capture.deref().enabled);
    let warned = st.enforce_capture_framerate();
    assert!(warned);
    assert!(!st.capture.deref().enabled);
    // The next tick has nothing left to disable.
    assert!(!st.enforce_capture_framerate());
}

#[test]
fn capture_runs_under_fixed_framerate() {
    let mut st = running_state(60);
    st.handle_key(KeyCode::KeyC, true);
    let warned = st.enforce_capture_framerate();
    assert!(!warned);
    assert!(st.capture.deref().enabled);
}

#[test]
fn physics_steps_only_when_unpaused_or_stepped() {
    let mut st = running_state(0);
    assert!(st.is_paused);
    assert_eq!(st.physics_step(), None);
    assert_eq!(st.physics.deref().current, 0);

    st.handle_key(KeyCode::KeyN, true);
    assert_eq!(st.physics_step(), Some((0, 16)));
    assert!(!st.step);
    assert_eq!(st.physics.deref().current, 1);
    // The single step was consumed; paused again means no dispatch.
    assert_eq!(st.physics_step(), None);

    st.handle_key(KeyCode::Space, true);
    assert_eq!(st.physics_step(), Some((1, 16)));
    assert_eq!(st.physics.deref().current, 0);
}

#[test]
fn invalid_edits_change_nothing() {
    let mut st = running_state(0);
    let before_particles = st.sim.particles;
    let before_gravity = st.sim.gravity;

    st.sim.edited_particles = 0;
    st.sim.edited_gravity = 0.5f32.to_bits();
    let outcome = st.apply_edits(true);
    assert!(!outcome.regenerate && !outcome.update_gravity);
    assert_eq!(st.sim.particles, before_particles);
    assert_eq!(st.sim.gravity, before_gravity);
    assert_eq!(st.physics.deref().particle_capacity, 4096);

    st.sim.edited_particles = 8192;
    st.sim.edited_gravity = 0.0f32.to_bits();
    let outcome = st.apply_edits(true);
    assert!(!outcome.regenerate && !outcome.update_gravity);
    assert_eq!(st.sim.particles, before_particles);

    st.sim.edited_gravity = (-0.5f32).to_bits();
    let outcome = st.apply_edits(true);
    assert!(!outcome.regenerate && !outcome.update_gravity);
    assert_eq!(st.sim.particles, before_particles);

    // Without a click nothing fires even on valid edits.
    st.sim.edited_gravity = 0.5f32.to_bits();
    let outcome = st.apply_edits(false);
    assert!(!outcome.regenerate && !outcome.update_gravity);
    assert_eq!(st.sim.particles, before_particles);
}

#[test]
fn valid_edits_resize_and_update_gravity() {
    let mut st = running_state(0);
    st.sim.edited_particles = 4100;
    st.sim.edited_gravity = 0.5f32.to_bits();
    let outcome = st.apply_edits(true);
    assert!(outcome.regenerate);
    assert!(outcome.update_gravity);
    assert_eq!(st.sim.particles, 4100);
    assert_eq!(st.sim.gravity, 0.5f32.to_bits());
    assert_eq!(st.physics.deref().particle_capacity, 4352);

    // Applying the same values again changes nothing further.
    let outcome = st.apply_edits(true);
    assert!(!outcome.regenerate && !outcome.update_gravity);
}

#[test]
fn window_resize_updates_capture_target() {
    let mut st = running_state(60);
    st.resize(1920, 1080);
    let c = st.capture.deref();
    assert_eq!((c.width, c.height), (1920, 1080));
    assert_eq!(c.padded_bytes_per_row(), 7680);
}

#[test]
fn follow_camera_actions_respect_toggles() {
    let mut st = running_state(0);
    {
        let f = st.follow.deref();
        assert_eq!(f.camera_actions(true), (false, false));
    }
    st.handle_key(KeyCode::KeyF, true);
    let f = st.follow.deref_mut();
    assert_eq!(f.camera_actions(true), (true, false));
    assert_eq!(f.camera_actions(false), (false, false));
    f.auto_zoom = true;
    assert_eq!(f.camera_actions(true), (true, true));
    f.center_of_mass = false;
    assert_eq!(f.camera_actions(true), (false, true));
}
