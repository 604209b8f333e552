//! The closed set of apps that can own the display, and the small per-app
//! state that the controller reads.

use vstd::prelude::*;

use crate::parse::{spec_to_upper, str_eq_ignore_case};
use crate::request::{lemma_text_bytes_at_least_chars, spec_text_bytes, MAX_TEXT_BYTES};

verus! {

/// Identity of one of the four selectable apps.
#[derive(Clone, Copy, PartialEq, Eq, Structural, Debug)]
pub enum AppId {
    /// The system status app. Only the system itself switches to it.
    System,
    /// The clock app.
    Clock,
    /// The effects app.
    Effects,
    /// The MQTT message-board app.
    Mqtt,
}

/// The wire name an app is published under in state messages.
pub open spec fn spec_app_wire_name(a: AppId) -> Seq<char> {
    match a {
        AppId::System => "System"@,
        AppId::Clock => "Clock"@,
        AppId::Effects => "Effects"@,
        AppId::Mqtt => "Mqtt"@,
    }
}

impl AppId {
    /// The wire name of the app, as published in state messages.
    pub fn as_str(self) -> (r: &'static str)
        ensures
            r@ == spec_app_wire_name(self),
    {
        match self {
            AppId::System => "System",
            AppId::Clock => "Clock",
            AppId::Effects => "Effects",
            AppId::Mqtt => "Mqtt",
        }
    }
}

/// The app a wire name stands for, ASCII-case-insensitively, over the
/// upper-cased name. Unknown names stand for nothing and are ignored.
pub open spec fn spec_app_of_name(up: Seq<char>) -> Option<AppId> {
    if up == "SYSTEM"@ {
        Some(AppId::System)
    } else if up == "CLOCK"@ {
        Some(AppId::Clock)
    } else if up == "EFFECTS"@ {
        Some(AppId::Effects)
    } else if up == "MQTT"@ {
        Some(AppId::Mqtt)
    } else {
        None
    }
}

impl AppId {
    /// Parse an app's wire name, ASCII-case-insensitively.
    pub fn from_name(text: &str) -> (r: Option<AppId>)
        ensures
            r == spec_app_of_name(spec_to_upper(text@)),
    {
        proof {
            reveal_strlit("System");
            reveal_strlit("SYSTEM");
            reveal_strlit("Clock");
            reveal_strlit("CLOCK");
            reveal_strlit("Effects");
            reveal_strlit("EFFECTS");
            reveal_strlit("Mqtt");
            reveal_strlit("MQTT");
            assert(spec_to_upper("System"@) =~= "SYSTEM"@);
            assert(spec_to_upper("Clock"@) =~= "CLOCK"@);
            assert(spec_to_upper("Effects"@) =~= "EFFECTS"@);
            assert(spec_to_upper("Mqtt"@) =~= "MQTT"@);
        }
        if str_eq_ignore_case(text, "System") {
            Some(AppId::System)
        } else if str_eq_ignore_case(text, "Clock") {
            Some(AppId::Clock)
        } else if str_eq_ignore_case(text, "Effects") {
            Some(AppId::Effects)
        } else if str_eq_ignore_case(text, "Mqtt") {
            Some(AppId::Mqtt)
        } else {
            None
        }
    }
}

/// Network health as reported by the Wi-Fi / MQTT collaborators.
#[derive(Clone, Copy, PartialEq, Eq, Structural, Debug)]
pub enum NetworkState {
    NotInitialised,
    Connected,
    Error,
}

/// Translate an MQTT client's health signal into the network state: a
/// raised error signal means the network failed, a cleared one that it
/// recovered.
pub fn network_state_from_error_signal(error: bool) -> (r: NetworkState)
    ensures
        error ==> r is Error,
        !error ==> r is Connected,
{
    if error {
        NetworkState::Error
    } else {
        NetworkState::Connected
    }
}

/// The kinds of system state whose change is broadcast to the controller.
#[derive(Clone, Copy, PartialEq, Eq, Structural, Debug)]
pub enum StateUpdates {
    Network,
}

/// Effects that the clock app can render its digits with.
#[derive(Clone, Copy, PartialEq, Eq, Structural, Debug)]
pub enum ClockEffect {
    /// An animated rainbow effect.
    Rainbow,
    /// The single active display color.
    Color,
}

/// The wire name a clock effect is published under in state messages.
pub open spec fn spec_clock_effect_wire_name(e: ClockEffect) -> Seq<char> {
    match e {
        ClockEffect::Rainbow => "Rainbow"@,
        ClockEffect::Color => "Color"@,
    }
}

impl ClockEffect {
    /// The wire name of the effect, as published in state messages.
    pub fn as_str(self) -> (r: &'static str)
        ensures
            r@ == spec_clock_effect_wire_name(self),
    {
        match self {
            ClockEffect::Rainbow => "Rainbow",
            ClockEffect::Color => "Color",
        }
    }

    /// The effect a double press of the clock app's button switches to.
    pub fn toggled(self) -> (r: ClockEffect)
        ensures
            self is Rainbow ==> r is Color,
            self is Color ==> r is Rainbow,
    {
        match self {
            ClockEffect::Rainbow => ClockEffect::Color,
            ClockEffect::Color => ClockEffect::Rainbow,
        }
    }
}

/// The clock effect a wire name stands for, ASCII-case-insensitively, over
/// the upper-cased name.
pub open spec fn spec_clock_effect_of_name(up: Seq<char>) -> Option<ClockEffect> {
    if up == "RAINBOW"@ {
        Some(ClockEffect::Rainbow)
    } else if up == "COLOR"@ {
        Some(ClockEffect::Color)
    } else {
        None
    }
}

impl ClockEffect {
    /// Parse a clock effect's wire name, ASCII-case-insensitively.
    pub fn from_name(text: &str) -> (r: Option<ClockEffect>)
        ensures
            r == spec_clock_effect_of_name(spec_to_upper(text@)),
    {
        proof {
            reveal_strlit("Rainbow");
            reveal_strlit("RAINBOW");
            reveal_strlit("Color");
            reveal_strlit("COLOR");
            assert(spec_to_upper("Rainbow"@) =~= "RAINBOW"@);
            assert(spec_to_upper("Color"@) =~= "COLOR"@);
        }
        if str_eq_ignore_case(text, "Rainbow") {
            Some(ClockEffect::Rainbow)
        } else if str_eq_ignore_case(text, "Color") {
            Some(ClockEffect::Color)
        } else {
            None
        }
    }
}

/// The effects the effects app can show.
#[derive(Clone, Copy, PartialEq, Eq, Structural, Debug)]
pub enum Effects {
    /// The rising-heat balls effect.
    Balls,
}

/// The effects app: which effect is showing. A button press moves to the
/// next effect in the cycle; with one effect the cycle stays put.
pub struct EffectsApp {
    /// The effect being shown.
    pub active_effect: Effects,
}

impl EffectsApp {
    /// A fresh effects app, showing the balls effect.
    pub fn new() -> (a: EffectsApp)
        ensures
            a.active_effect is Balls,
    {
        EffectsApp { active_effect: Effects::Balls }
    }

    /// The effect a button press swaps to.
    pub fn next_effect(&self) -> (r: Effects)
        ensures
            self.active_effect is Balls ==> r is Balls,
    {
        match self.active_effect {
            Effects::Balls => Effects::Balls,
        }
    }
}

/// State of the balls effect. The pixel physics run outside the core; the
/// core only decides where a new heat seed lands.
pub struct Balls;

impl Balls {
    /// Create a new balls effect.
    pub fn new() -> Balls {
        Balls
    }

    /// Column where a new heat seed is planted, derived from a tick counter.
    /// Always leaves room for the two neighbouring columns that are seeded
    /// with it.
    pub fn seed_position(ticks: u64) -> (px: usize)
        ensures
            1 <= px <= 51,
            px == ticks % 51 + 1,
    {
        (ticks % 51) as usize + 1
    }
}

/// The MQTT message-board app: shows the latest message received on the
/// text topic.
pub struct MqttApp {
    /// The last message received, once one has arrived.
    pub last_message: Option<String>,
    /// Whether the app is currently active.
    pub is_active: bool,
}

impl MqttApp {
    /// The shown message respects the display's text bound, in bytes and so
    /// in characters too.
    pub open spec fn wf(self) -> bool {
        self.last_message matches Some(m) ==> spec_text_bytes(m@) <= MAX_TEXT_BYTES && m@.len()
            <= MAX_TEXT_BYTES
    }

    /// A fresh app: no message yet, not active.
    pub fn new() -> (a: MqttApp)
        ensures
            a.wf(),
            a.last_message is None,
            !a.is_active,
    {
        MqttApp { last_message: None, is_active: false }
    }

    /// Record the message last received; it replaces whatever was shown.
    pub fn set_last_message(&mut self, message: String)
        requires
            old(self).wf(),
            spec_text_bytes(message@) <= MAX_TEXT_BYTES,
        ensures
            final(self).wf(),
            final(self).last_message == Some(message),
            final(self).is_active == old(self).is_active,
    {
        proof {
            lemma_text_bytes_at_least_chars(message@);
        }
        self.last_message = Some(message);
    }

    /// The text the app shows: the last message received, or a fixed notice
    /// while none has arrived.
    pub fn display_text(&self) -> (r: String)
        requires
            self.wf(),
        ensures
            spec_text_bytes(r@) <= MAX_TEXT_BYTES,
            r@.len() <= MAX_TEXT_BYTES,
            self.last_message matches Some(m) ==> r@ == m@,
            self.last_message is None ==> r@ == "No message!"@,
    {
        proof {
            reveal_strlit("No message!");
            assert(vstd::utf8::is_ascii_chars("No message!"@));
            vstd::utf8::is_ascii_chars_encode_utf8("No message!"@);
        }
        match &self.last_message {
            Some(m) => m.clone(),
            None => String::from_str("No message!"),
        }
    }

    /// Start the app.
    pub fn start(&mut self)
        ensures
            *final(self) == (MqttApp { is_active: true, ..*old(self) }),
    {
        self.is_active = true;
    }

    /// Stop the app.
    pub fn stop(&mut self)
        ensures
            *final(self) == (MqttApp { is_active: false, ..*old(self) }),
    {
        self.is_active = false;
    }
}

/// The system status app. Its animation runs outside the core.
pub struct SystemApp;

impl SystemApp {
    /// Create the system app.
    pub fn new() -> SystemApp {
        SystemApp
    }
}

} // verus!
