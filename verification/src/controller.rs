//! The app controller: which app is active, which was active before, and how
//! button gestures, remote commands and network-state changes drive switches.
//!
//! A switch is a single transition on [`AppControllerState`] that also names
//! the lifecycle calls the firmware owes: stop the outgoing app, start the
//! incoming one, and broadcast the change so the display arbitration engine
//! cancels whatever it is drawing.

use vstd::prelude::*;

use crate::apps::{AppId, NetworkState};
use crate::buttons::{ButtonPress, LogicalButton};

verus! {

/// Which app owns the display, and which owned it before. Exactly one app is
/// active at any instant: the representation itself allows no other reading.
#[derive(Clone, Copy, PartialEq, Eq, Structural, Debug)]
pub struct AppControllerState {
    /// The app currently active.
    pub active: AppId,
    /// The last distinct app that was active before the current one; the
    /// restore target for network recovery. Never `System`.
    pub previous: AppId,
}

/// The lifecycle calls one switch operation owes its surroundings.
#[derive(Clone, Copy, PartialEq, Eq, Structural, Debug)]
pub struct SwitchOutcome {
    /// The app whose `stop` must be called, if any.
    pub stopped: Option<AppId>,
    /// The app whose `start` must be called, if any.
    pub started: Option<AppId>,
    /// The app-changed broadcast the display engine must observe, if any.
    pub broadcast: Option<AppId>,
}

impl SwitchOutcome {
    /// An outcome with no calls owed: the switch was a no-op.
    pub open spec fn is_noop(self) -> bool {
        self.stopped is None && self.started is None && self.broadcast is None
    }
}

/// The app recorded as "previous" when `from` stops: stopping the system app
/// records the clock app instead, so that the system app is never a restore
/// target.
pub open spec fn spec_restore_record(from: AppId) -> AppId {
    if from is System {
        AppId::Clock
    } else {
        from
    }
}

/// The switch transition: next state, and the calls owed. Switching to the
/// active app itself changes nothing and owes nothing.
pub open spec fn spec_change_app(s: AppControllerState, new: AppId) -> (
    AppControllerState,
    SwitchOutcome,
) {
    if new == s.active {
        (s, SwitchOutcome { stopped: None, started: None, broadcast: None })
    } else {
        (
            AppControllerState { active: new, previous: spec_restore_record(s.active) },
            SwitchOutcome {
                stopped: Some(s.active),
                started: Some(new),
                broadcast: Some(new),
            },
        )
    }
}

/// The controller's own invariant: the restore target is never the system
/// app.
pub open spec fn wf_controller(s: AppControllerState) -> bool {
    !(s.previous is System)
}

impl AppControllerState {
    /// The boot state: the system app is active, the clock app is the
    /// restore target.
    pub fn boot() -> (s: AppControllerState)
        ensures
            s.active is System,
            s.previous is Clock,
            wf_controller(s),
    {
        AppControllerState { active: AppId::System, previous: AppId::Clock }
    }

    /// Switch the active app. No-op when `new` is already active; otherwise
    /// stops the outgoing app, records it (normalised away from `System`) as
    /// previous, starts and broadcasts the incoming app.
    pub fn change_app(&mut self, new: AppId) -> (out: SwitchOutcome)
        ensures
            (*final(self), out) == spec_change_app(*old(self), new),
            new == old(self).active ==> out.is_noop() && *final(self) == *old(self),
            new != old(self).active ==> {
                &&& out.stopped == Some(old(self).active)
                &&& out.started == Some(new)
                &&& out.broadcast == Some(new)
                &&& final(self).active == new
                &&& final(self).previous == spec_restore_record(old(self).active)
            },
            wf_controller(*final(self)) || !wf_controller(*old(self)),
    {
        if new == self.active {
            return SwitchOutcome { stopped: None, started: None, broadcast: None };
        }
        let outgoing = self.active;
        let recorded = if matches!(outgoing, AppId::System) {
            AppId::Clock
        } else {
            outgoing
        };
        self.previous = recorded;
        self.active = new;
        SwitchOutcome { stopped: Some(outgoing), started: Some(new), broadcast: Some(new) }
    }
}

/// Switching to the already-active app performs zero stop or start calls and
/// leaves the state unchanged; any real switch stops and starts exactly one
/// app each.
pub proof fn lemma_change_app_self_is_noop(s: AppControllerState, new: AppId)
    ensures
        new == s.active ==> spec_change_app(s, new) == (
            s,
            SwitchOutcome { stopped: None, started: None, broadcast: None },
        ),
        new != s.active ==> spec_change_app(s, new).1.stopped == Some(s.active)
            && spec_change_app(s, new).1.started == Some(new),
{
}

/// A switch always leaves `previous` equal to the app that was active
/// immediately before it (with the system app recorded as the clock app),
/// and `previous` is never the system app.
pub proof fn lemma_previous_records_predecessor(s: AppControllerState, new: AppId)
    requires
        new != s.active,
    ensures
        spec_change_app(s, new).0.previous == spec_restore_record(s.active),
        !(spec_change_app(s, new).0.previous is System),
        s.active is System ==> spec_change_app(s, new).0.previous is Clock,
        !(s.active is System) ==> spec_change_app(s, new).0.previous == s.active,
{
}

/// The switch transition preserves the controller invariant.
pub proof fn lemma_change_app_preserves_wf(s: AppControllerState, new: AppId)
    requires
        wf_controller(s),
    ensures
        wf_controller(spec_change_app(s, new).0),
{
}

/// The app a direct button press maps to. The system app is reachable by no
/// button.
pub open spec fn spec_button_target(b: LogicalButton) -> Option<AppId> {
    match b {
        LogicalButton::SwitchA => Some(AppId::Clock),
        LogicalButton::SwitchB => Some(AppId::Effects),
        LogicalButton::SwitchC => Some(AppId::Mqtt),
        _ => None,
    }
}

/// Map a button to the app it selects, if it selects one. Switches A, B and
/// C select the clock, effects and MQTT apps; no button selects the system
/// app.
pub fn button_target(b: LogicalButton) -> (r: Option<AppId>)
    ensures
        r == spec_button_target(b),
        !(r == Some(AppId::System)),
{
    match b {
        LogicalButton::SwitchA => Some(AppId::Clock),
        LogicalButton::SwitchB => Some(AppId::Effects),
        LogicalButton::SwitchC => Some(AppId::Mqtt),
        _ => None,
    }
}

/// What the controller's main loop does with one classified gesture.
#[derive(Clone, Copy, PartialEq, Eq, Structural, Debug)]
pub enum RoutedButton {
    /// The mapped app is already active: hand the gesture to its own button
    /// handler.
    Forward { app: AppId, press: ButtonPress },
    /// The mapped app is not active: switch to it.
    Switch { to: AppId },
    /// The button selects no app; nothing to do.
    Ignore,
}

/// The main loop's routing decision as a spec-level function.
pub open spec fn spec_route_button(active: AppId, b: LogicalButton, press: ButtonPress)
    -> RoutedButton {
    match spec_button_target(b) {
        Some(target) => if target == active {
            RoutedButton::Forward { app: active, press }
        } else {
            RoutedButton::Switch { to: target }
        },
        None => RoutedButton::Ignore,
    }
}

/// Route one classified gesture: forward it to the mapped app when that app
/// is already active, otherwise switch to the mapped app.
pub fn route_button(active: AppId, b: LogicalButton, press: ButtonPress) -> (r: RoutedButton)
    ensures
        r == spec_route_button(active, b, press),
{
    match button_target(b) {
        Some(target) => {
            if target == active {
                RoutedButton::Forward { app: active, press }
            } else {
                RoutedButton::Switch { to: target }
            }
        },
        None => RoutedButton::Ignore,
    }
}

/// The switch target that a network-state change demands: an error forces
/// the system app; a recovery restores the previous app; an uninitialised
/// network demands nothing.
pub open spec fn spec_network_target(net: NetworkState, s: AppControllerState) -> Option<AppId> {
    match net {
        NetworkState::NotInitialised => None,
        NetworkState::Connected => Some(s.previous),
        NetworkState::Error => Some(AppId::System),
    }
}

/// Decide the switch a network-state change demands.
pub fn network_target(net: NetworkState, s: &AppControllerState) -> (r: Option<AppId>)
    ensures
        r == spec_network_target(net, *s),
{
    match net {
        NetworkState::NotInitialised => None,
        NetworkState::Connected => Some(s.previous),
        NetworkState::Error => Some(AppId::System),
    }
}

/// How long the system app may keep the display after the network recovers,
/// to show its connected indication before the previous app is restored.
pub const CONNECTED_GRACE_MS: u64 = 2000;

/// Milliseconds to wait before performing the switch a network-state change
/// demands: a recovery observed while the system app is active gets the
/// grace period; every other switch is immediate.
pub fn network_switch_delay_ms(net: NetworkState, active: AppId) -> (r: u64)
    ensures
        net is Connected && active is System ==> r == CONNECTED_GRACE_MS,
        !(net is Connected && active is System) ==> r == 0,
{
    if matches!(net, NetworkState::Connected) && matches!(active, AppId::System) {
        CONNECTED_GRACE_MS
    } else {
        0
    }
}

impl AppControllerState {
    /// Apply one network-state change: switch to the app the policy names,
    /// if it names one.
    pub fn on_network_event(&mut self, net: NetworkState) -> (out: SwitchOutcome)
        ensures
            spec_network_target(net, *old(self)) is None ==> *final(self) == *old(self)
                && out.is_noop(),
            spec_network_target(net, *old(self)) matches Some(target) ==> (*final(self), out)
                == spec_change_app(*old(self), target),
    {
        match network_target(net, self) {
            Some(target) => self.change_app(target),
            None => SwitchOutcome { stopped: None, started: None, broadcast: None },
        }
    }
}

/// A gesture on a button mapped to an app that is not active performs the
/// full switch: the interrupted app is stopped and recorded as previous, the
/// target app is started, and the change is broadcast for the display
/// engine to cancel the interrupted app's rendering.
pub proof fn lemma_inactive_button_switches(s: AppControllerState, b: LogicalButton, press:
    ButtonPress)
    requires
        wf_controller(s),
        spec_button_target(b) is Some,
        spec_button_target(b)->0 != s.active,
    ensures
        spec_route_button(s.active, b, press) == (RoutedButton::Switch {
            to: spec_button_target(b)->0,
        }),
        ({
            let target = spec_button_target(b)->0;
            let (s2, out) = spec_change_app(s, target);
            &&& out.stopped == Some(s.active)
            &&& out.started == Some(target)
            &&& out.broadcast == Some(target)
            &&& s2.active == target
            &&& s2.previous == spec_restore_record(s.active)
            &&& wf_controller(s2)
        }),
{
}

/// A network error followed by a recovery restores the app that was active
/// when the error struck: the error switches to the system app and records
/// the interrupted app, and the recovery switches back to it.
pub proof fn lemma_error_then_recovery_restores(s: AppControllerState)
    requires
        wf_controller(s),
        !(s.active is System),
    ensures
        ({
            let after_error = spec_change_app(s, AppId::System).0;
            let after_recovery = spec_change_app(after_error, after_error.previous).0;
            &&& after_error.active is System
            &&& after_error.previous == s.active
            &&& after_recovery.active == s.active
        }),
{
}

} // verus!
