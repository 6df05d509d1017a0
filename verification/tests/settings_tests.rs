use fxaa_render::settings::FxaaSettings;
use fxaa_render::settings::FxaaSystem;
use fxaa_render::settings::InputEvent;
use fxaa_render::settings::KeyCode;
use fxaa_render::settings::initial_settings;
use fxaa_render::state::MainState;
use fxaa_render::state::SimpleTrans;
use fxaa_render::state::StateEvent;
use fxaa_render::state::WindowEvent;

fn key(k: KeyCode) -> InputEvent {
    InputEvent::KeyPressed { key_code: k }
}

#[test]
fn settings_default_to_disabled_and_start_enabled() {
    assert!(!FxaaSettings::default().enabled);
    assert!(initial_settings().enabled);
    let mut state = MainState::default();
    assert!(state.on_start().enabled);
}

#[test]
fn the_toggle_key_flips_the_setting_once_per_press() {
    let mut system = FxaaSystem::new(0);
    let mut settings = initial_settings();
    let events = vec![key(KeyCode::F)];
    system.run(&events, &mut settings);
    assert!(!settings.enabled);
    assert_eq!(system.event_reader, 1);

    let events = vec![key(KeyCode::F), key(KeyCode::F)];
    system.run(&events, &mut settings);
    assert!(settings.enabled, "one unread press flips the toggle back on");
    assert_eq!(system.event_reader, 2);

    let events = vec![key(KeyCode::F), key(KeyCode::F), key(KeyCode::F), key(KeyCode::F)];
    system.run(&events, &mut settings);
    assert!(settings.enabled, "two unread presses cancel out");
    assert_eq!(system.event_reader, 4);
}

#[test]
fn other_events_leave_the_setting_alone() {
    let mut system = FxaaSystem::new(0);
    let mut settings = initial_settings();
    let events = vec![key(KeyCode::Escape), InputEvent::Other, key(KeyCode::Other)];
    system.run(&events, &mut settings);
    assert!(settings.enabled);
    assert_eq!(system.event_reader, 3);
}

#[test]
fn a_second_run_reads_only_new_events() {
    let mut system = FxaaSystem::new(0);
    let mut settings = initial_settings();
    let mut events = vec![key(KeyCode::F)];
    system.run(&events, &mut settings);
    assert!(!settings.enabled);
    system.run(&events, &mut settings);
    assert!(!settings.enabled, "an already read press must not fire twice");
    events.push(key(KeyCode::F));
    system.run(&events, &mut settings);
    assert!(settings.enabled);
}

#[test]
fn close_and_escape_quit_the_session() {
    let mut state = MainState::default();
    assert_eq!(
        state.handle_event(&StateEvent::Window(WindowEvent::CloseRequested)),
        SimpleTrans::Quit,
    );
    assert_eq!(
        state.handle_event(&StateEvent::Window(WindowEvent::KeyDown { key: KeyCode::Escape })),
        SimpleTrans::Quit,
    );
    assert_eq!(
        state.handle_event(&StateEvent::Window(WindowEvent::KeyDown { key: KeyCode::F })),
        SimpleTrans::Stay,
    );
    assert_eq!(state.handle_event(&StateEvent::Other), SimpleTrans::Stay);
}
