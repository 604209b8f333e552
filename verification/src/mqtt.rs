//! The MQTT surface: topic constants, the outbound message shape, the
//! per-domain routing of inbound messages, and the commands each domain's
//! messages decide. The wire client itself is an external collaborator;
//! malformed payloads are ignored, never propagated.

use vstd::prelude::*;

use crate::apps::{spec_app_of_name, spec_clock_effect_of_name, AppId, ClockEffect};
use crate::color::{parse_rgb, spec_parse_rgb, Rgb};
use crate::parse::{
    parse_u8, spec_contains, spec_parse_u8, spec_to_upper, str_contains, str_eq,
};

verus! {

/// Topic a debug line is published to.
pub const DEBUG_TOPIC: &'static str = "galactic_unicorn/debug";

/// Topic a brightness command arrives on.
pub const BRIGHTNESS_SET_TOPIC: &'static str = "galactic_unicorn/display/brightness/set";

/// Topic the brightness state is published to.
pub const BRIGHTNESS_STATE_TOPIC: &'static str = "galactic_unicorn/display/brightness/state";

/// Topic an auto-brightness command arrives on.
pub const AUTO_BRIGHTNESS_SET_TOPIC: &'static str = "galactic_unicorn/display/auto_brightness/set";

/// Topic the auto-brightness state is published to.
pub const AUTO_BRIGHTNESS_STATE_TOPIC: &'static str =
    "galactic_unicorn/display/auto_brightness/state";

/// Topic a color command arrives on.
pub const RGB_SET_TOPIC: &'static str = "galactic_unicorn/display/rgb/set";

/// Topic the color state is published to.
pub const RGB_STATE_TOPIC: &'static str = "galactic_unicorn/display/rgb/state";

/// Topic a text to display arrives on.
pub const TEXT_SET_TOPIC: &'static str = "galactic_unicorn/app/text/set";

/// Topic an app-switch command arrives on.
pub const APP_SET_TOPIC: &'static str = "galactic_unicorn/app/set";

/// Topic the active app is published to.
pub const APP_STATE_TOPIC: &'static str = "galactic_unicorn/app/state";

/// Topic a clock-effect command arrives on.
pub const CLOCK_APP_SET_TOPIC: &'static str = "galactic_unicorn/app/clock/set";

/// Topic the clock effect is published to.
pub const CLOCK_APP_STATE_TOPIC: &'static str = "galactic_unicorn/app/clock/state";

/// Topic an NTP synchronisation trigger arrives on.
pub const NTP_SYNC_TOPIC: &'static str = "galactic_unicorn/system/ntp/sync";

/// Prefix of the home-automation topics.
pub const HASS_BASE_TOPIC: &'static str = "homeassistant";

/// The longest outbound payload, in characters.
pub const MAX_PAYLOAD_CHARS: usize = 512;

/// The longest inbound topic or body, in characters.
pub const MAX_INBOUND_CHARS: usize = 64;

/// Delivery guarantee of an outbound message.
#[derive(Clone, Copy, PartialEq, Eq, Structural, Debug)]
pub enum Qos {
    /// Fire and forget.
    AtMostOnce,
    /// Delivered at least once.
    AtLeastOnce,
}

/// An outbound message: fire-and-forget work for the wire client.
pub struct MqttMessage {
    /// Topic to publish to.
    pub topic: String,
    /// The payload.
    pub text: String,
    /// Delivery guarantee asked of the broker.
    pub qos: Qos,
    /// Whether the broker should retain the message.
    pub retain: bool,
}

impl MqttMessage {
    /// Payload respects the client's bounded buffer.
    pub open spec fn wf(self) -> bool {
        self.text@.len() <= MAX_PAYLOAD_CHARS
    }

    /// A message bound for the send queue.
    pub fn enqueue(topic: &str, content: &str, qos: Qos, retain: bool) -> (m: MqttMessage)
        requires
            content@.len() <= MAX_PAYLOAD_CHARS,
        ensures
            m.wf(),
            m.topic@ == topic@,
            m.text@ == content@,
            m.qos == qos,
            m.retain == retain,
    {
        MqttMessage {
            topic: String::from_str(topic),
            text: String::from_str(content),
            qos,
            retain,
        }
    }

    /// A state report: fire-and-forget, not retained.
    pub fn enqueue_state(topic: &str, content: &str) -> (m: MqttMessage)
        requires
            content@.len() <= MAX_PAYLOAD_CHARS,
        ensures
            m.wf(),
            m.topic@ == topic@,
            m.text@ == content@,
            m.qos is AtMostOnce,
            !m.retain,
    {
        MqttMessage::enqueue(topic, content, Qos::AtMostOnce, false)
    }

    /// A debug line: a state report on the debug topic.
    pub fn enqueue_debug(content: &str) -> (m: MqttMessage)
        requires
            content@.len() <= MAX_PAYLOAD_CHARS,
        ensures
            m.wf(),
            m.topic@ == DEBUG_TOPIC@,
            m.text@ == content@,
            m.qos is AtMostOnce,
            !m.retain,
    {
        MqttMessage::enqueue(DEBUG_TOPIC, content, Qos::AtMostOnce, false)
    }
}

/// An inbound message: a topic and body pair handed in from the wire
/// client.
pub struct MqttReceiveMessage {
    /// Topic the message arrived on.
    pub topic: String,
    /// The payload.
    pub body: String,
}

impl MqttReceiveMessage {
    /// Both parts respect the bounded inbound buffers.
    pub open spec fn wf(self) -> bool {
        self.topic@.len() <= MAX_INBOUND_CHARS && self.body@.len() <= MAX_INBOUND_CHARS
    }

    /// Build an inbound message from its parts.
    pub fn new(topic: &str, body: &str) -> (m: MqttReceiveMessage)
        requires
            topic@.len() <= MAX_INBOUND_CHARS,
            body@.len() <= MAX_INBOUND_CHARS,
        ensures
            m.wf(),
            m.topic@ == topic@,
            m.body@ == body@,
    {
        MqttReceiveMessage { topic: String::from_str(topic), body: String::from_str(body) }
    }
}

/// The domain an inbound topic is fanned out to. Matched in order: display,
/// app, system, then the home-automation prefix.
#[derive(Clone, Copy, PartialEq, Eq, Structural, Debug)]
pub enum MqttDomain {
    /// Brightness and color handling.
    Display,
    /// App switching, text display and per-app configuration.
    App,
    /// System concerns, such as the NTP trigger.
    System,
    /// The home-automation integration.
    HomeAssistant,
    /// No router subscribes to it.
    Unknown,
}

/// The fan-out decision over the topic's characters.
pub open spec fn spec_route_domain(topic: Seq<char>) -> MqttDomain {
    if spec_contains(topic, "display"@) {
        MqttDomain::Display
    } else if spec_contains(topic, "app"@) {
        MqttDomain::App
    } else if spec_contains(topic, "system"@) {
        MqttDomain::System
    } else if spec_contains(topic, "homeassistant"@) {
        MqttDomain::HomeAssistant
    } else {
        MqttDomain::Unknown
    }
}

/// Fan an inbound topic out to its domain's router.
pub fn route_domain(topic: &str) -> (d: MqttDomain)
    ensures
        d == spec_route_domain(topic@),
{
    if str_contains(topic, "display") {
        MqttDomain::Display
    } else if str_contains(topic, "app") {
        MqttDomain::App
    } else if str_contains(topic, "system") {
        MqttDomain::System
    } else if str_contains(topic, "homeassistant") {
        MqttDomain::HomeAssistant
    } else {
        MqttDomain::Unknown
    }
}

/// What a display-domain message asks for.
#[derive(Clone, Copy, PartialEq, Eq, Structural, Debug)]
pub enum DisplayCommand {
    /// Set the display brightness.
    SetBrightness(u8),
    /// Enable or disable auto-brightness.
    SetAutoBrightness(bool),
    /// Set the display color.
    SetColor(Rgb),
    /// Not a display command, or a malformed one: ignored.
    Ignore,
}

/// The display-domain decision: a brightness command parses its body, with
/// full brightness as the fallback for a malformed value; an
/// auto-brightness command is on exactly for the body `ON`; a color command
/// takes a well-formed `r,g,b` triple and ignores anything else.
pub open spec fn spec_display_command(topic: Seq<char>, body: Seq<char>) -> DisplayCommand {
    if topic == BRIGHTNESS_SET_TOPIC@ {
        match spec_parse_u8(body) {
            Some(v) => DisplayCommand::SetBrightness(v),
            None => DisplayCommand::SetBrightness(255),
        }
    } else if topic == AUTO_BRIGHTNESS_SET_TOPIC@ {
        DisplayCommand::SetAutoBrightness(body == "ON"@)
    } else if topic == RGB_SET_TOPIC@ {
        match spec_parse_rgb(body) {
            Some(c) => DisplayCommand::SetColor(c),
            None => DisplayCommand::Ignore,
        }
    } else {
        DisplayCommand::Ignore
    }
}

/// Decide what a display-domain message asks for.
pub fn display_command(topic: &str, body: &str) -> (r: DisplayCommand)
    ensures
        r == spec_display_command(topic@, body@),
{
    if str_eq(topic, BRIGHTNESS_SET_TOPIC) {
        match parse_u8(body) {
            Some(v) => DisplayCommand::SetBrightness(v),
            None => DisplayCommand::SetBrightness(255),
        }
    } else if str_eq(topic, AUTO_BRIGHTNESS_SET_TOPIC) {
        DisplayCommand::SetAutoBrightness(str_eq(body, "ON"))
    } else if str_eq(topic, RGB_SET_TOPIC) {
        match parse_rgb(body) {
            Some(c) => DisplayCommand::SetColor(c),
            None => DisplayCommand::Ignore,
        }
    } else {
        DisplayCommand::Ignore
    }
}

/// What an app-domain message asks for.
#[derive(Clone, Copy, PartialEq, Eq, Structural, Debug)]
pub enum AppCommand {
    /// Show the body as a remote text request, and record it as the MQTT
    /// app's last message.
    ShowText,
    /// Set the clock app's effect; handled whether or not the clock app is
    /// active.
    SetClockEffect(ClockEffect),
    /// Switch the active app.
    SwitchTo(AppId),
    /// Not an app command, or an unknown name: ignored.
    Ignore,
}

/// The app-domain decision: the text topic shows its body, the clock topic
/// names an effect, the app topic names the app to switch to; unknown names
/// are ignored.
pub open spec fn spec_app_command(topic: Seq<char>, body: Seq<char>) -> AppCommand {
    if topic == TEXT_SET_TOPIC@ {
        AppCommand::ShowText
    } else if topic == CLOCK_APP_SET_TOPIC@ {
        match spec_clock_effect_of_name(spec_to_upper(body)) {
            Some(e) => AppCommand::SetClockEffect(e),
            None => AppCommand::Ignore,
        }
    } else if topic == APP_SET_TOPIC@ {
        match spec_app_of_name(spec_to_upper(body)) {
            Some(a) => AppCommand::SwitchTo(a),
            None => AppCommand::Ignore,
        }
    } else {
        AppCommand::Ignore
    }
}

/// Decide what an app-domain message asks for.
pub fn app_command(topic: &str, body: &str) -> (r: AppCommand)
    ensures
        r == spec_app_command(topic@, body@),
{
    if str_eq(topic, TEXT_SET_TOPIC) {
        AppCommand::ShowText
    } else if str_eq(topic, CLOCK_APP_SET_TOPIC) {
        match ClockEffect::from_name(body) {
            Some(e) => AppCommand::SetClockEffect(e),
            None => AppCommand::Ignore,
        }
    } else if str_eq(topic, APP_SET_TOPIC) {
        match AppId::from_name(body) {
            Some(a) => AppCommand::SwitchTo(a),
            None => AppCommand::Ignore,
        }
    } else {
        AppCommand::Ignore
    }
}

/// The state report naming the active app: the app-state topic carrying
/// exactly the active app's wire name.
pub fn app_state_message(active: AppId) -> (m: MqttMessage)
    ensures
        m.wf(),
        m.topic@ == APP_STATE_TOPIC@,
        m.text@ == crate::apps::spec_app_wire_name(active),
        m.qos is AtMostOnce,
        !m.retain,
{
    proof {
        reveal_strlit("System");
        reveal_strlit("Clock");
        reveal_strlit("Effects");
        reveal_strlit("Mqtt");
    }
    MqttMessage::enqueue_state(APP_STATE_TOPIC, active.as_str())
}

/// The state report naming the clock app's effect: the clock-state topic
/// carrying exactly the effect's wire name.
pub fn clock_state_message(effect: ClockEffect) -> (m: MqttMessage)
    ensures
        m.wf(),
        m.topic@ == CLOCK_APP_STATE_TOPIC@,
        m.text@ == crate::apps::spec_clock_effect_wire_name(effect),
        m.qos is AtMostOnce,
        !m.retain,
{
    proof {
        reveal_strlit("Rainbow");
        reveal_strlit("Color");
    }
    MqttMessage::enqueue_state(CLOCK_APP_STATE_TOPIC, effect.as_str())
}

/// The state report carrying the display brightness in decimal.
pub fn brightness_state_message(brightness: u8) -> (m: MqttMessage)
    ensures
        m.wf(),
        m.topic@ == BRIGHTNESS_STATE_TOPIC@,
        m.text@ == crate::parse::spec_u8_string(brightness),
{
    let text = crate::parse::u8_to_string(brightness);
    MqttMessage::enqueue_state(BRIGHTNESS_STATE_TOPIC, text.as_str())
}

/// The state report saying whether auto-brightness is on.
pub fn auto_brightness_state_message(enabled: bool) -> (m: MqttMessage)
    ensures
        m.wf(),
        m.topic@ == AUTO_BRIGHTNESS_STATE_TOPIC@,
        enabled ==> m.text@ == "ON"@,
        !enabled ==> m.text@ == "OFF"@,
{
    proof {
        reveal_strlit("ON");
        reveal_strlit("OFF");
    }
    if enabled {
        MqttMessage::enqueue_state(AUTO_BRIGHTNESS_STATE_TOPIC, "ON")
    } else {
        MqttMessage::enqueue_state(AUTO_BRIGHTNESS_STATE_TOPIC, "OFF")
    }
}

/// The state report carrying the display color as `r,g,b`.
pub fn color_state_message(color: &Rgb) -> (m: MqttMessage)
    ensures
        m.wf(),
        m.topic@ == RGB_STATE_TOPIC@,
        m.text@ == crate::color::spec_rgb_string(*color),
{
    let text = color.to_state_string();
    proof {
        reveal_strlit(",");
        assert(crate::color::spec_rgb_string(*color).len() <= 11);
    }
    MqttMessage::enqueue_state(RGB_STATE_TOPIC, text.as_str())
}

/// The states published after every handled gesture or message: first the
/// active app's wire name on the app-state topic, then the clock effect's
/// wire name on the clock-state topic; both fire-and-forget, not retained.
/// The effects and MQTT apps publish no state of their own.
pub fn send_mqtt_states(active: AppId, clock_effect: ClockEffect) -> (msgs: Vec<MqttMessage>)
    ensures
        msgs@.len() == 2,
        msgs@[0].topic@ == APP_STATE_TOPIC@,
        msgs@[0].text@ == crate::apps::spec_app_wire_name(active),
        msgs@[1].topic@ == CLOCK_APP_STATE_TOPIC@,
        msgs@[1].text@ == crate::apps::spec_clock_effect_wire_name(clock_effect),
        msgs@[0].wf() && msgs@[1].wf(),
        msgs@[0].qos is AtMostOnce && !msgs@[0].retain,
        msgs@[1].qos is AtMostOnce && !msgs@[1].retain,
{
    let mut msgs: Vec<MqttMessage> = Vec::new();
    msgs.push(app_state_message(active));
    msgs.push(clock_state_message(clock_effect));
    msgs
}

/// Whether a system-domain message triggers an NTP synchronisation.
pub fn system_triggers_ntp_sync(topic: &str) -> (r: bool)
    ensures
        r == (topic@ == NTP_SYNC_TOPIC@),
{
    str_eq(topic, NTP_SYNC_TOPIC)
}

} // verus!
