//! What the control panel shows for a state of the egress flag.

use vstd::prelude::*;

verus! {

/// The texts of the control panel: the state of the switch, and the button
/// that sets it to the other state.
#[derive(Debug, Clone, Copy, PartialEq, Eq)]
pub struct ControlPanel {
    /// The state in words.
    pub status_text: &'static str,
    /// The style class of the state.
    pub status_class: &'static str,
    /// What the button says.
    pub button_label: &'static str,
    /// Where the button leads: the route that sets the other state.
    pub button_href: &'static str,
}

/// The address on which the control panel is served.
pub const LISTEN_ADDRESS: &'static str = "127.0.0.1:3000";

/// The route that shows the panel.
pub const ROUTE_PANEL: &'static str = "/";

/// The route that switches Tor egress on.
pub const ROUTE_ON: &'static str = "/on";

/// The route that switches Tor egress off.
pub const ROUTE_OFF: &'static str = "/off";

/// The route that sets the switch to `on`.
pub open spec fn route_to(on: bool) -> Seq<char> {
    if on {
        ROUTE_ON@
    } else {
        ROUTE_OFF@
    }
}

/// The state in words.
pub open spec fn status_text_of(on: bool) -> Seq<char> {
    if on {
        "ON (Tor)"@
    } else {
        "OFF (Direct)"@
    }
}

/// The style class of the state.
pub open spec fn status_class_of(on: bool) -> Seq<char> {
    if on {
        "on"@
    } else {
        "off"@
    }
}

/// What the button says when the switch is `on`.
pub open spec fn button_label_of(on: bool) -> Seq<char> {
    if on {
        "Switch to Direct (OFF)"@
    } else {
        "Switch to Tor (ON)"@
    }
}

/// The panel for a state of the switch. Its button always leads to the
/// other state.
pub fn control_panel(on: bool) -> (panel: ControlPanel)
    ensures
        panel.status_text@ == status_text_of(on),
        panel.status_class@ == status_class_of(on),
        panel.button_label@ == button_label_of(on),
        panel.button_href@ == route_to(!on),
{
    if on {
        ControlPanel {
            status_text: "ON (Tor)",
            status_class: "on",
            button_label: "Switch to Direct (OFF)",
            button_href: ROUTE_OFF,
        }
    } else {
        ControlPanel {
            status_text: "OFF (Direct)",
            status_class: "off",
            button_label: "Switch to Tor (ON)",
            button_href: ROUTE_ON,
        }
    }
}

} // verus!
