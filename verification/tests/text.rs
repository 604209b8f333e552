//! Parsing, colors, topic routing and the clock's strings and face.

use unicorn_core::apps::{AppId, ClockEffect};
use unicorn_core::clock::{
    civil_from_epoch_ms, clock_frame_request, compose_clock_frame, draw_colon, draw_numbers,
    ntp_retry_delay_s, Civil, ClockAction, ClockApp, Time,
};
use unicorn_core::color::{color_from_name, parse_rgb, Rgb};
use unicorn_core::frame::Frame;
use unicorn_core::mqtt::{
    app_command, app_state_message, auto_brightness_state_message, brightness_state_message,
    clock_state_message, color_state_message, display_command, route_domain, send_mqtt_states,
    system_triggers_ntp_sync, AppCommand, DisplayCommand, MqttDomain, MqttMessage,
    MqttReceiveMessage, Qos,
};
use unicorn_core::parse::{parse_u8, str_contains, str_eq, str_eq_ignore_case, u8_to_string};
use unicorn_core::DISPLAY_WIDTH;

#[test]
fn parse_u8_accepts_digits_in_range() {
    assert_eq!(parse_u8("0"), Some(0));
    assert_eq!(parse_u8("7"), Some(7));
    assert_eq!(parse_u8("255"), Some(255));
    assert_eq!(parse_u8("007"), Some(7));
    assert_eq!(parse_u8("0255"), Some(255));
}

#[test]
fn parse_u8_rejects_everything_else() {
    assert_eq!(parse_u8(""), None);
    assert_eq!(parse_u8("256"), None);
    assert_eq!(parse_u8("1000"), None);
    assert_eq!(parse_u8("12a"), None);
    assert_eq!(parse_u8("-1"), None);
    assert_eq!(parse_u8("+1"), None);
    assert_eq!(parse_u8(" 1"), None);
}

#[test]
fn u8_to_string_has_no_leading_zeros() {
    assert_eq!(u8_to_string(0), "0");
    assert_eq!(u8_to_string(9), "9");
    assert_eq!(u8_to_string(10), "10");
    assert_eq!(u8_to_string(99), "99");
    assert_eq!(u8_to_string(100), "100");
    assert_eq!(u8_to_string(255), "255");
}

#[test]
fn string_comparisons() {
    assert!(str_eq("abc", "abc"));
    assert!(!str_eq("abc", "abd"));
    assert!(!str_eq("abc", "ab"));
    assert!(str_eq_ignore_case("MqTT", "mqtt"));
    assert!(!str_eq_ignore_case("mqtt", "mqt"));
    assert!(str_contains("galactic/display/rgb", "display"));
    assert!(!str_contains("galactic/rgb", "display"));
    assert!(str_contains("abc", ""));
}

#[test]
fn rgb_line_round_trip() {
    let c = Rgb::new(12, 0, 255);
    let line = c.to_state_string();
    assert_eq!(line, "12,0,255");
    assert_eq!(parse_rgb(&line), Some(c));
}

#[test]
fn parse_rgb_accepts_exactly_three_components() {
    assert_eq!(parse_rgb("1,2,3"), Some(Rgb::new(1, 2, 3)));
    assert_eq!(parse_rgb("255,255,255"), Some(Rgb::new(255, 255, 255)));
    assert_eq!(parse_rgb("0,0,0"), Some(Rgb::new(0, 0, 0)));
}

#[test]
fn parse_rgb_rejects_malformed_lines() {
    assert_eq!(parse_rgb(""), None);
    assert_eq!(parse_rgb("1,2"), None);
    assert_eq!(parse_rgb("1,2,3,4"), None);
    assert_eq!(parse_rgb("256,0,0"), None);
    assert_eq!(parse_rgb("1,,3"), None);
    assert_eq!(parse_rgb("1, 2,3"), None);
    assert_eq!(parse_rgb("a,b,c"), None);
}

#[test]
fn color_names_are_case_insensitive() {
    assert_eq!(color_from_name("red"), Some(Rgb::new(255, 0, 0)));
    assert_eq!(color_from_name("RED"), Some(Rgb::new(255, 0, 0)));
    assert_eq!(color_from_name("Purple"), Some(Rgb::new(128, 0, 128)));
    assert_eq!(color_from_name("gold"), Some(Rgb::new(255, 215, 0)));
    assert_eq!(color_from_name("mauve"), None);
    let long = "r".repeat(33);
    assert_eq!(color_from_name(&long), None);
}

#[test]
fn app_names_are_case_insensitive() {
    assert_eq!(AppId::from_name("clock"), Some(AppId::Clock));
    assert_eq!(AppId::from_name("MQTT"), Some(AppId::Mqtt));
    assert_eq!(AppId::from_name("Effects"), Some(AppId::Effects));
    assert_eq!(AppId::from_name("system"), Some(AppId::System));
    assert_eq!(AppId::from_name("radio"), None);
    assert_eq!(ClockEffect::from_name("rainbow"), Some(ClockEffect::Rainbow));
    assert_eq!(ClockEffect::from_name("COLOR"), Some(ClockEffect::Color));
    assert_eq!(ClockEffect::from_name("sepia"), None);
}

#[test]
fn topics_fan_out_by_domain() {
    assert_eq!(route_domain("galactic_unicorn/display/rgb/set"), MqttDomain::Display);
    assert_eq!(route_domain("galactic_unicorn/app/text/set"), MqttDomain::App);
    assert_eq!(route_domain("galactic_unicorn/system/ntp/sync"), MqttDomain::System);
    assert_eq!(route_domain("homeassistant/status"), MqttDomain::HomeAssistant);
    assert_eq!(route_domain("elsewhere/topic"), MqttDomain::Unknown);
}

#[test]
fn display_commands_parse_their_bodies() {
    assert_eq!(
        display_command("galactic_unicorn/display/brightness/set", "90"),
        DisplayCommand::SetBrightness(90)
    );
    // a malformed brightness falls back to full
    assert_eq!(
        display_command("galactic_unicorn/display/brightness/set", "bright"),
        DisplayCommand::SetBrightness(255)
    );
    assert_eq!(
        display_command("galactic_unicorn/display/auto_brightness/set", "ON"),
        DisplayCommand::SetAutoBrightness(true)
    );
    assert_eq!(
        display_command("galactic_unicorn/display/auto_brightness/set", "OFF"),
        DisplayCommand::SetAutoBrightness(false)
    );
    assert_eq!(
        display_command("galactic_unicorn/display/rgb/set", "10,20,30"),
        DisplayCommand::SetColor(Rgb::new(10, 20, 30))
    );
    // a malformed color is silently ignored
    assert_eq!(
        display_command("galactic_unicorn/display/rgb/set", "10,20"),
        DisplayCommand::Ignore
    );
    assert_eq!(display_command("galactic_unicorn/display/other", "x"), DisplayCommand::Ignore);
}

#[test]
fn app_commands_route_text_clock_and_switches() {
    assert_eq!(app_command("galactic_unicorn/app/text/set", "hello"), AppCommand::ShowText);
    assert_eq!(
        app_command("galactic_unicorn/app/clock/set", "rainbow"),
        AppCommand::SetClockEffect(ClockEffect::Rainbow)
    );
    assert_eq!(
        app_command("galactic_unicorn/app/set", "effects"),
        AppCommand::SwitchTo(AppId::Effects)
    );
    // unknown app names are ignored
    assert_eq!(app_command("galactic_unicorn/app/set", "tetris"), AppCommand::Ignore);
    assert_eq!(app_command("galactic_unicorn/app/other", "x"), AppCommand::Ignore);
}

#[test]
fn ntp_sync_trigger_and_retry() {
    assert!(system_triggers_ntp_sync("galactic_unicorn/system/ntp/sync"));
    assert!(!system_triggers_ntp_sync("galactic_unicorn/system/other"));
    assert_eq!(ntp_retry_delay_s(true), 3600);
    assert_eq!(ntp_retry_delay_s(false), 10);
}

#[test]
fn outbound_messages_are_fire_and_forget() {
    let m = MqttMessage::enqueue_state("some/topic", "body");
    assert_eq!(m.topic, "some/topic");
    assert_eq!(m.text, "body");
    assert_eq!(m.qos, Qos::AtMostOnce);
    assert!(!m.retain);
    let d = MqttMessage::enqueue_debug("oops");
    assert_eq!(d.topic, "galactic_unicorn/debug");
    assert_eq!(d.text, "oops");
    let r = MqttReceiveMessage::new("t", "b");
    assert_eq!((r.topic.as_str(), r.body.as_str()), ("t", "b"));
}

#[test]
fn state_messages_carry_their_values() {
    assert_eq!(app_state_message(AppId::Effects).text, "Effects");
    assert_eq!(app_state_message(AppId::Effects).topic, "galactic_unicorn/app/state");
    assert_eq!(clock_state_message(ClockEffect::Rainbow).text, "Rainbow");
    assert_eq!(brightness_state_message(128).text, "128");
    assert_eq!(auto_brightness_state_message(true).text, "ON");
    assert_eq!(auto_brightness_state_message(false).text, "OFF");
    assert_eq!(color_state_message(&Rgb::new(1, 2, 3)).text, "1,2,3");
}

#[test]
fn bundled_state_publication() {
    let msgs = send_mqtt_states(AppId::Clock, ClockEffect::Color);
    assert_eq!(msgs.len(), 2);
    assert_eq!(msgs[0].topic, "galactic_unicorn/app/state");
    assert_eq!(msgs[0].text, "Clock");
    assert_eq!(msgs[1].topic, "galactic_unicorn/app/clock/state");
    assert_eq!(msgs[1].text, "Color");
}

#[test]
fn general_enqueue_keeps_its_fields() {
    let m = MqttMessage::enqueue("a/topic", "payload", Qos::AtLeastOnce, true);
    assert_eq!(m.topic, "a/topic");
    assert_eq!(m.text, "payload");
    assert_eq!(m.qos, Qos::AtLeastOnce);
    assert!(m.retain);
}

#[test]
fn civil_time_in_winter_and_summer() {
    // 2024-01-15 12:00:00 UTC: London is on GMT, a Monday
    let c = civil_from_epoch_ms(1_705_320_000_000);
    assert_eq!(
        c,
        Civil { year: 2024, month: 1, day: 15, weekday: 0, hour: 12, minute: 0, second: 0 }
    );
    // 2024-07-01 12:00:00 UTC: London is on BST, one hour ahead
    let c = civil_from_epoch_ms(1_719_835_200_000);
    assert_eq!(c.hour, 13);
    assert_eq!((c.month, c.day, c.weekday), (7, 1, 0));
}

#[test]
fn time_base_tracks_synchronisation() {
    let mut t = Time::new();
    assert_eq!(t.now_ms(500), 500);
    // synchronised at epoch 10_000 when the monotonic clock read 400
    t.set_time(10_000, 400);
    assert_eq!(t.base_ms, 9_600);
    assert_eq!(t.now_ms(500), 10_100);
}

#[test]
fn date_strings() {
    let app = ClockApp::new();
    let c = Civil { year: 2024, month: 1, day: 5, weekday: 0, hour: 12, minute: 0, second: 0 };
    assert_eq!(app.get_date_str(&c), "Mon 5 Jan ");
    assert_eq!(app.get_day_str(&c), "05");
    let c = Civil { year: 2024, month: 12, day: 25, weekday: 2, hour: 0, minute: 0, second: 0 };
    assert_eq!(app.get_date_str(&c), "Wed 25 Dec ");
    assert_eq!(app.get_day_str(&c), "25");
}

#[test]
fn clock_gestures() {
    let mut app = ClockApp::new();
    assert_eq!(app.effect, ClockEffect::Color);
    assert!(matches!(
        app.button_action(unicorn_core::buttons::ButtonPress::Short),
        ClockAction::ShowDate
    ));
    assert!(matches!(
        app.button_action(unicorn_core::buttons::ButtonPress::Long),
        ClockAction::NoAction
    ));
    match app.button_action(unicorn_core::buttons::ButtonPress::Double) {
        ClockAction::SetEffect(e) => {
            assert_eq!(e, ClockEffect::Rainbow);
            app.set_effect(e);
        }
        other => panic!("expected an effect change, got {other:?}"),
    }
    assert_eq!(app.effect, ClockEffect::Rainbow);
    assert_eq!(app.effect.toggled(), ClockEffect::Color);
}

fn pix_at(f: &Frame, x: usize, y: usize) -> Rgb {
    f.pixels[y * DISPLAY_WIDTH + x]
}

#[test]
fn clock_face_regions() {
    let mut f = Frame::new();
    let c = Rgb::new(0, 200, 50);
    compose_clock_frame(&mut f, 12, 34, 56, c);
    // red band of the date panel
    assert_eq!(pix_at(&f, 45, 1), Rgb::new(255, 0, 0));
    // grey body of the date panel
    assert_eq!(pix_at(&f, 45, 5), Rgb::new(100, 100, 100));
    // colon dots between hours and minutes
    assert_eq!(pix_at(&f, 13, 3), Rgb::new(100, 100, 100));
    assert_eq!(pix_at(&f, 13, 5), Rgb::black());
    // the hour's tens digit is a one: its stem is lit in the clock color
    assert_eq!(pix_at(&f, 3, 5), c);
    // the gap column between the hour digits stays dark
    assert_eq!(pix_at(&f, 6, 5), Rgb::black());
}

#[test]
fn clock_frame_request_is_a_short_app_frame() {
    let r = clock_frame_request(23, 59, 58, Rgb::new(0, 0, 250));
    assert_eq!(r.min_ms, 250);
    assert!(r.first_shown.is_none());
    // the face itself is composed: red band, colon and a digit pixel
    assert_eq!(pix_at(&r.frame, 45, 1), Rgb::new(255, 0, 0));
    assert_eq!(pix_at(&r.frame, 27, 7), Rgb::new(100, 100, 100));
    // both hour digits of 23 light the cell column next to their left edge
    assert_eq!(pix_at(&r.frame, 1, 1), Rgb::new(0, 0, 250));
}

#[test]
fn colon_and_numbers_draw_where_asked() {
    let mut f = Frame::new();
    draw_colon(&mut f, 20);
    assert_eq!(pix_at(&f, 20, 3), Rgb::new(100, 100, 100));
    assert_eq!(pix_at(&f, 20, 4), Rgb::new(100, 100, 100));
    assert_eq!(pix_at(&f, 20, 7), Rgb::new(100, 100, 100));
    assert_eq!(pix_at(&f, 20, 8), Rgb::new(100, 100, 100));
    assert_eq!(pix_at(&f, 20, 5), Rgb::black());

    let mut f = Frame::new();
    let c = Rgb::new(9, 9, 9);
    // 07: the zero-padded tens digit is a zero, whose second column is full
    draw_numbers(&mut f, 7, 0, c);
    for y in 0..11 {
        assert_eq!(pix_at(&f, 1, y), c);
    }
    // the ones digit, a seven, has its whole top row lit
    for x in 7..13 {
        assert_eq!(pix_at(&f, x, 0), c);
    }
}
