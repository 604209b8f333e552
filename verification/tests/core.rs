//! Button classification, app switching and brightness decisions.

use unicorn_core::apps::{
    network_state_from_error_signal, AppId, Balls, Effects, EffectsApp, MqttApp, NetworkState,
};
use unicorn_core::brightness::{
    auto_after_set, brightness_command, light_level_update, AutoBrightness, BrightnessCommand,
};
use unicorn_core::buttons::{
    classify_press, ButtonEvent, ButtonPress, Classifier, GestureSlot, LogicalButton, Phase,
};
use unicorn_core::controller::{
    button_target, network_switch_delay_ms, network_target, route_button, AppControllerState,
    RoutedButton, CONNECTED_GRACE_MS,
};

#[test]
fn short_press_below_both_boundaries() {
    assert_eq!(classify_press(499, None), ButtonPress::Short);
    assert_eq!(classify_press(0, None), ButtonPress::Short);
    assert_eq!(classify_press(499, Some(251)), ButtonPress::Short);
}

#[test]
fn double_press_within_window() {
    assert_eq!(classify_press(100, Some(0)), ButtonPress::Double);
    assert_eq!(classify_press(499, Some(250)), ButtonPress::Double);
}

#[test]
fn long_press_at_and_above_boundary() {
    assert_eq!(classify_press(500, None), ButtonPress::Long);
    assert_eq!(classify_press(500, Some(10)), ButtonPress::Long);
    assert_eq!(classify_press(10_000, None), ButtonPress::Long);
}

#[test]
fn classifier_reports_long_at_threshold_not_release() {
    let mut c = Classifier::new();
    assert_eq!(c.step(ButtonEvent::Down { at: 1000 }), None);
    assert_eq!(c.step(ButtonEvent::Tick { now: 1499 }), None);
    assert_eq!(c.step(ButtonEvent::Tick { now: 1500 }), Some(ButtonPress::Long));
    assert_eq!(c.phase, Phase::LongHeld);
    assert_eq!(c.step(ButtonEvent::Up { at: 2500 }), None);
    assert_eq!(c.phase, Phase::Debounce { since: 2500 });
}

#[test]
fn classifier_reports_double_at_second_press() {
    let mut c = Classifier::new();
    assert_eq!(c.step(ButtonEvent::Down { at: 0 }), None);
    assert_eq!(c.step(ButtonEvent::Up { at: 300 }), None);
    assert_eq!(c.step(ButtonEvent::Down { at: 550 }), Some(ButtonPress::Double));
    assert_eq!(c.phase, Phase::DoubleHeld);
}

#[test]
fn classifier_reports_short_when_window_expires() {
    let mut c = Classifier::new();
    assert_eq!(c.step(ButtonEvent::Down { at: 0 }), None);
    assert_eq!(c.step(ButtonEvent::Up { at: 300 }), None);
    assert_eq!(c.step(ButtonEvent::Tick { now: 550 }), None);
    assert_eq!(c.step(ButtonEvent::Tick { now: 551 }), Some(ButtonPress::Short));
}

#[test]
fn classifier_rearms_after_debounce() {
    let mut c = Classifier::new();
    c.step(ButtonEvent::Down { at: 0 });
    c.step(ButtonEvent::Tick { now: 600 });
    c.step(ButtonEvent::Up { at: 700 });
    assert_eq!(c.step(ButtonEvent::Tick { now: 850 }), None);
    assert_eq!(c.phase, Phase::Debounce { since: 700 });
    assert_eq!(c.step(ButtonEvent::Tick { now: 900 }), None);
    assert_eq!(c.phase, Phase::Idle);
}

#[test]
fn gesture_slot_keeps_latest_only() {
    let mut s = GestureSlot::new();
    s.publish(ButtonPress::Short);
    s.publish(ButtonPress::Long);
    assert_eq!(s.take(), Some(ButtonPress::Long));
    assert_eq!(s.take(), None);
}

#[test]
fn boot_state_is_system_with_clock_restore() {
    let s = AppControllerState::boot();
    assert_eq!(s.active, AppId::System);
    assert_eq!(s.previous, AppId::Clock);
}

#[test]
fn change_app_to_active_app_is_noop() {
    let mut s = AppControllerState::boot();
    let out = s.change_app(AppId::System);
    assert_eq!(out.stopped, None);
    assert_eq!(out.started, None);
    assert_eq!(out.broadcast, None);
    assert_eq!(s.active, AppId::System);
    assert_eq!(s.previous, AppId::Clock);
}

#[test]
fn change_app_stops_starts_and_records_previous() {
    let mut s = AppControllerState::boot();
    let out = s.change_app(AppId::Effects);
    assert_eq!(out.stopped, Some(AppId::System));
    assert_eq!(out.started, Some(AppId::Effects));
    assert_eq!(out.broadcast, Some(AppId::Effects));
    assert_eq!(s.active, AppId::Effects);
    // stopping the system app records the clock app, never System itself
    assert_eq!(s.previous, AppId::Clock);

    let out = s.change_app(AppId::Mqtt);
    assert_eq!(out.stopped, Some(AppId::Effects));
    assert_eq!(s.previous, AppId::Effects);
    assert_ne!(s.previous, AppId::System);
}

#[test]
fn buttons_map_to_apps_without_system() {
    assert_eq!(button_target(LogicalButton::SwitchA), Some(AppId::Clock));
    assert_eq!(button_target(LogicalButton::SwitchB), Some(AppId::Effects));
    assert_eq!(button_target(LogicalButton::SwitchC), Some(AppId::Mqtt));
    assert_eq!(button_target(LogicalButton::SwitchD), None);
    assert_eq!(button_target(LogicalButton::BrightnessUp), None);
}

#[test]
fn active_app_gets_the_gesture_instead_of_a_switch() {
    let r = route_button(AppId::Clock, LogicalButton::SwitchA, ButtonPress::Short);
    assert_eq!(r, RoutedButton::Forward { app: AppId::Clock, press: ButtonPress::Short });
    let r = route_button(AppId::Clock, LogicalButton::SwitchB, ButtonPress::Short);
    assert_eq!(r, RoutedButton::Switch { to: AppId::Effects });
    let r = route_button(AppId::Clock, LogicalButton::SwitchD, ButtonPress::Long);
    assert_eq!(r, RoutedButton::Ignore);
}

#[test]
fn network_error_then_recovery_restores_interrupted_app() {
    // active=Clock when the network goes NotInitialised -> Error -> Connected
    let mut s = AppControllerState::boot();
    s.change_app(AppId::Clock);
    let out = s.on_network_event(NetworkState::NotInitialised);
    assert_eq!(out.stopped, None);
    assert_eq!(s.active, AppId::Clock);

    let out = s.on_network_event(NetworkState::Error);
    assert_eq!(out.stopped, Some(AppId::Clock));
    assert_eq!(out.started, Some(AppId::System));
    assert_eq!(s.active, AppId::System);
    assert_eq!(s.previous, AppId::Clock);

    // recovery while the system app shows its connected indication: the
    // restore waits out the grace period, then switches back
    assert_eq!(
        network_switch_delay_ms(NetworkState::Connected, s.active),
        CONNECTED_GRACE_MS
    );
    let out = s.on_network_event(NetworkState::Connected);
    assert_eq!(out.started, Some(AppId::Clock));
    assert_eq!(s.active, AppId::Clock);
    // a recovery seen while an ordinary app is active restores immediately
    assert_eq!(network_switch_delay_ms(NetworkState::Connected, s.active), 0);
    assert_eq!(network_switch_delay_ms(NetworkState::Error, AppId::System), 0);
}

#[test]
fn network_target_policy() {
    let s = AppControllerState::boot();
    assert_eq!(network_target(NetworkState::NotInitialised, &s), None);
    assert_eq!(network_target(NetworkState::Connected, &s), Some(AppId::Clock));
    assert_eq!(network_target(NetworkState::Error, &s), Some(AppId::System));
}

#[test]
fn client_error_signal_maps_to_network_state() {
    assert_eq!(network_state_from_error_signal(true), NetworkState::Error);
    assert_eq!(network_state_from_error_signal(false), NetworkState::Connected);
}

#[test]
fn brightness_steps_and_saturates() {
    assert_eq!(
        brightness_command(true, ButtonPress::Short, false, 100),
        BrightnessCommand::SetLevel(110)
    );
    assert_eq!(
        brightness_command(true, ButtonPress::Short, false, 250),
        BrightnessCommand::SetLevel(255)
    );
    assert_eq!(
        brightness_command(true, ButtonPress::Long, false, 3),
        BrightnessCommand::SetLevel(255)
    );
    assert_eq!(
        brightness_command(true, ButtonPress::Double, false, 230),
        BrightnessCommand::SetLevel(255)
    );
    assert_eq!(
        brightness_command(false, ButtonPress::Short, false, 5),
        BrightnessCommand::SetLevel(0)
    );
    assert_eq!(
        brightness_command(false, ButtonPress::Long, false, 200),
        BrightnessCommand::SetLevel(20)
    );
    assert_eq!(
        brightness_command(false, ButtonPress::Double, false, 60),
        BrightnessCommand::SetLevel(10)
    );
}

#[test]
fn both_brightness_buttons_toggle_auto() {
    assert_eq!(
        brightness_command(true, ButtonPress::Short, true, 100),
        BrightnessCommand::ToggleAuto
    );
    assert_eq!(
        brightness_command(false, ButtonPress::Long, true, 100),
        BrightnessCommand::ToggleAuto
    );
}

#[test]
fn manual_brightness_drives_auto_switch() {
    assert_eq!(auto_after_set(0, 40), Some(true));
    assert_eq!(auto_after_set(40, 0), Some(false));
    assert_eq!(auto_after_set(40, 50), None);
    assert_eq!(auto_after_set(0, 0), Some(false));
}

#[test]
fn light_level_updates_only_outside_band() {
    assert_eq!(light_level_update(100, 100), None);
    assert_eq!(light_level_update(110, 100), None);
    assert_eq!(light_level_update(111, 100), Some(111));
    assert_eq!(light_level_update(90, 100), None);
    assert_eq!(light_level_update(89, 100), Some(89));
    assert_eq!(light_level_update(1000, 100), Some(255));
    assert_eq!(light_level_update(300, 250), None);
}

#[test]
fn auto_brightness_schedule() {
    let mut ab = AutoBrightness::new(1000);
    assert!(ab.enabled);
    assert!(!ab.has_min_duration_passed(3000));
    assert!(ab.has_min_duration_passed(4001));
    ab.disable_short(10_000);
    assert!(ab.temp_disable);
    assert!(!ab.has_min_duration_passed(40_000));
    assert!(ab.has_min_duration_passed(41_001));
    ab.set_default_checks();
    assert!(!ab.temp_disable);
    ab.checked(50_000);
    assert_eq!(ab.last_check_ms, 50_000);
    assert!(ab.has_min_duration_passed(53_000));
}

#[test]
fn mqtt_app_shows_latest_or_notice() {
    let mut app = MqttApp::new();
    assert_eq!(app.display_text(), "No message!");
    assert!(!app.is_active);
    app.start();
    assert!(app.is_active);
    app.set_last_message(String::from("breaking news"));
    app.set_last_message(String::from("newer news"));
    assert_eq!(app.display_text(), "newer news");
    app.stop();
    assert!(!app.is_active);
}

#[test]
fn effects_app_cycles_its_single_effect() {
    let app = EffectsApp::new();
    assert_eq!(app.active_effect, Effects::Balls);
    assert_eq!(app.next_effect(), Effects::Balls);
}

#[test]
fn balls_seed_position_stays_inside_row() {
    assert_eq!(Balls::seed_position(0), 1);
    assert_eq!(Balls::seed_position(50), 51);
    assert_eq!(Balls::seed_position(51), 1);
    assert_eq!(Balls::seed_position(u64::MAX), (u64::MAX % 51 + 1) as usize);
    let _ = Balls::new();
}
