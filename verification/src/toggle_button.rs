use vstd::prelude::*;

verus! {

/// Pointer and focus events as the buttons see them. Whether a tap lies inside the control is
/// decided by the caller's hit test.
#[derive(PartialEq, Eq, Structural, Clone, Copy, Debug)]
pub enum ControlEvent {
    TapDown,
    TapUp { inside: bool },
    TapMove { inside: bool },
    HoverChange(bool),
    FocusChange(bool),
    Other,
}

/// The styles of a toggle button. `Default` and `CheckBox` toggle on a click; `Tab`, `Radio`
/// and `DropDown` only check (they cannot be unchecked by a click).
#[derive(PartialEq, Eq, Structural, Clone, Copy, Debug)]
pub enum ToggleButtonStyleKind {
    Default,
    CheckBox,
    Tab,
    Radio,
    DropDown,
}

/// The state of a toggle button: checked, being tapped, hovered, focused.
#[derive(PartialEq, Eq, Structural, Clone, Copy, Debug)]
pub struct ToggleButtonState {
    pub is_checked: bool,
    pub is_tapped: bool,
    pub is_hover: bool,
    pub is_focused: bool,
}

pub open spec fn toggles(kind: ToggleButtonStyleKind) -> bool {
    kind == ToggleButtonStyleKind::Default || kind == ToggleButtonStyleKind::CheckBox
}

/// The state after an event.
pub open spec fn toggle_step(
    kind: ToggleButtonStyleKind,
    s: ToggleButtonState,
    e: ControlEvent,
) -> ToggleButtonState {
    match e {
        ControlEvent::TapDown => ToggleButtonState { is_tapped: true, ..s },
        ControlEvent::TapUp { inside } => ToggleButtonState {
            is_checked: if inside {
                if toggles(kind) {
                    !s.is_checked
                } else {
                    true
                }
            } else {
                s.is_checked
            },
            is_tapped: false,
            ..s
        },
        ControlEvent::TapMove { inside } => ToggleButtonState { is_tapped: inside, ..s },
        ControlEvent::HoverChange(v) => ToggleButtonState { is_hover: v, ..s },
        ControlEvent::FocusChange(v) => ToggleButtonState { is_focused: v, ..s },
        ControlEvent::Other => s,
    }
}

/// Whether the button is drawn pressed: the default style shows the state that a release would
/// give, the others show checked or tapped buttons pressed.
pub open spec fn toggle_pressed(kind: ToggleButtonStyleKind, s: ToggleButtonState) -> bool {
    if kind == ToggleButtonStyleKind::Default {
        s.is_tapped != s.is_checked
    } else {
        s.is_tapped || s.is_checked
    }
}

impl ToggleButtonState {
    /// A button that is checked or not, and neither tapped, hovered nor focused.
    pub fn new(is_checked: bool) -> (s: Self)
        ensures
            s == (ToggleButtonState {
                is_checked,
                is_tapped: false,
                is_hover: false,
                is_focused: false,
            }),
    {
        ToggleButtonState { is_checked, is_tapped: false, is_hover: false, is_focused: false }
    }

    /// Handles an event in the given style.
    pub fn handle_event(&mut self, kind: ToggleButtonStyleKind, event: ControlEvent)
        ensures
            *final(self) == toggle_step(kind, *old(self), event),
    {
        match event {
            ControlEvent::TapDown => {
                self.is_tapped = true;
            },
            ControlEvent::TapUp { inside } => {
                if inside {
                    match kind {
                        ToggleButtonStyleKind::Default | ToggleButtonStyleKind::CheckBox => {
                            self.is_checked = !self.is_checked;
                        },
                        _ => {
                            self.is_checked = true;
                        },
                    }
                }
                self.is_tapped = false;
            },
            ControlEvent::TapMove { inside } => {
                self.is_tapped = inside;
            },
            ControlEvent::HoverChange(v) => {
                self.is_hover = v;
            },
            ControlEvent::FocusChange(v) => {
                self.is_focused = v;
            },
            ControlEvent::Other => {},
        }
    }

    /// Whether the button is drawn pressed in the given style.
    pub fn is_pressed(&self, kind: ToggleButtonStyleKind) -> (r: bool)
        ensures
            r == toggle_pressed(kind, *self),
    {
        match kind {
            ToggleButtonStyleKind::Default => self.is_tapped != self.is_checked,
            _ => self.is_tapped || self.is_checked,
        }
    }
}

/// A tap inside a toggling button (pressed and released inside) flips it and leaves it
/// untapped.
pub proof fn lemma_click_toggles(kind: ToggleButtonStyleKind, s: ToggleButtonState)
    requires
        toggles(kind),
    ensures
        ({
            let t = toggle_step(
                kind,
                toggle_step(kind, s, ControlEvent::TapDown),
                ControlEvent::TapUp { inside: true },
            );
            t.is_checked == !s.is_checked && !t.is_tapped
        }),
{
}

/// A tab, radio or drop-down button, once checked, stays checked whatever event comes.
pub proof fn lemma_radio_never_unchecks(
    kind: ToggleButtonStyleKind,
    s: ToggleButtonState,
    e: ControlEvent,
)
    requires
        !toggles(kind),
        s.is_checked,
    ensures
        toggle_step(kind, s, e).is_checked,
{
}

/// A click (tap pressed and released inside) on a tab, radio or drop-down button checks it,
/// whether it was checked before or not; on a default or check-box button it flips the check.
/// Either way the button ends untapped and keeps its hover and focus.
pub proof fn lemma_click_checks(kind: ToggleButtonStyleKind, s: ToggleButtonState)
    ensures
        ({
            let t = toggle_step(
                kind,
                toggle_step(kind, s, ControlEvent::TapDown),
                ControlEvent::TapUp { inside: true },
            );
            &&& (kind == ToggleButtonStyleKind::Tab || kind == ToggleButtonStyleKind::Radio || kind
                == ToggleButtonStyleKind::DropDown) ==> t.is_checked
            &&& (kind == ToggleButtonStyleKind::Default || kind == ToggleButtonStyleKind::CheckBox)
                ==> t.is_checked == !s.is_checked
            &&& !t.is_tapped
            &&& t.is_hover == s.is_hover
            &&& t.is_focused == s.is_focused
        }),
        (kind == ToggleButtonStyleKind::Tab || kind == ToggleButtonStyleKind::Radio || kind
            == ToggleButtonStyleKind::DropDown) ==> toggle_step(
            kind,
            s,
            ControlEvent::TapUp { inside: true },
        ).is_checked,
{
}

/// A tap released outside the button changes nothing but the tapped flag.
pub proof fn lemma_release_outside_keeps_checked(
    kind: ToggleButtonStyleKind,
    s: ToggleButtonState,
)
    ensures
        toggle_step(kind, s, ControlEvent::TapUp { inside: false }) == (ToggleButtonState {
            is_tapped: false,
            ..s
        }),
{
}

/// The state of a push button.
#[derive(PartialEq, Eq, Structural, Clone, Copy, Debug)]
pub struct ButtonState {
    pub is_pressed: bool,
    pub is_hover: bool,
    pub is_focused: bool,
}

pub open spec fn button_step(s: ButtonState, e: ControlEvent) -> ButtonState {
    match e {
        ControlEvent::TapDown => ButtonState { is_pressed: true, ..s },
        ControlEvent::TapUp { .. } => ButtonState { is_pressed: false, ..s },
        ControlEvent::TapMove { inside } => ButtonState { is_pressed: inside, ..s },
        ControlEvent::HoverChange(v) => ButtonState { is_hover: v, ..s },
        ControlEvent::FocusChange(v) => ButtonState { is_focused: v, ..s },
        ControlEvent::Other => s,
    }
}

impl ButtonState {
    /// A button neither pressed, hovered nor focused.
    pub fn new() -> (s: Self)
        ensures
            s == (ButtonState { is_pressed: false, is_hover: false, is_focused: false }),
    {
        ButtonState { is_pressed: false, is_hover: false, is_focused: false }
    }

    /// Handles an event; returns whether the button was clicked (released inside).
    pub fn handle_event(&mut self, event: ControlEvent) -> (clicked: bool)
        ensures
            *final(self) == button_step(*old(self), event),
            clicked == (event == ControlEvent::TapUp { inside: true }),
    {
        match event {
            ControlEvent::TapDown => {
                self.is_pressed = true;
                false
            },
            ControlEvent::TapUp { inside } => {
                self.is_pressed = false;
                inside
            },
            ControlEvent::TapMove { inside } => {
                self.is_pressed = inside;
                false
            },
            ControlEvent::HoverChange(v) => {
                self.is_hover = v;
                false
            },
            ControlEvent::FocusChange(v) => {
                self.is_focused = v;
                false
            },
            ControlEvent::Other => false,
        }
    }
}

/// The callbacks that a gesture area emits.
#[derive(PartialEq, Eq, Structural, Clone, Copy, Debug)]
pub enum GestureSignal {
    TapDown,
    TapUp,
    HoverChange(bool),
}

/// The callback that a gesture area emits for an event, if any.
pub fn gesture_signal(event: ControlEvent) -> (r: Option<GestureSignal>)
    ensures
        r == match event {
            ControlEvent::TapDown => Some(GestureSignal::TapDown),
            ControlEvent::TapUp { .. } => Some(GestureSignal::TapUp),
            ControlEvent::HoverChange(v) => Some(GestureSignal::HoverChange(v)),
            _ => None::<GestureSignal>,
        },
{
    match event {
        ControlEvent::TapDown => Some(GestureSignal::TapDown),
        ControlEvent::TapUp { .. } => Some(GestureSignal::TapUp),
        ControlEvent::HoverChange(v) => Some(GestureSignal::HoverChange(v)),
        _ => None,
    }
}

} // verus!
