//! Open/close state machines of the side panels and of the double panels.
//!
//! Each function takes the current state of one panel and one event, and
//! returns the next state together with the window operations that the
//! application must perform. `panel_alive` tells whether the panel's window
//! still exists; when it does not, no window operation is requested.
use vstd::prelude::*;
use crate::panel::Place;

verus! {

/// What can happen to a side panel.
#[derive(Clone, Copy, PartialEq, Eq, Structural, Debug)]
pub enum SidePanelEvent {
    /// The panel's menu button was pressed.
    Toggle,
    /// The close button inside the panel was pressed.
    CloseClicked,
    /// The edge hover trigger asks for the panel to open.
    TriggerOpen,
    /// The closing animation has run its course.
    HideTimerFired,
}

/// The outcome of one event for a side panel.
#[derive(Clone, Copy, PartialEq, Eq, Structural, Debug)]
pub struct SidePanelStep {
    /// Whether the panel counts as open afterwards.
    pub open: bool,
    /// Where to move the panel's window now, if anywhere.
    pub move_window: Option<Place>,
    /// Where the panel's animated rectangle must slide, if anywhere.
    pub move_target: Option<Place>,
    /// Whether to start the closing animation timer, after which the window
    /// is moved off screen (event [`SidePanelEvent::HideTimerFired`]).
    pub hide_after_animation: bool,
}

pub open spec fn no_action(open: bool) -> SidePanelStep {
    SidePanelStep { open, move_window: None, move_target: None, hide_after_animation: false }
}

pub open spec fn opening_step() -> SidePanelStep {
    SidePanelStep {
        open: true,
        move_window: Some(Place::Open),
        move_target: Some(Place::Open),
        hide_after_animation: false,
    }
}

pub open spec fn closing_step() -> SidePanelStep {
    SidePanelStep {
        open: false,
        move_window: None,
        move_target: Some(Place::Closed),
        hide_after_animation: true,
    }
}

/// The transition table of a side panel.
///
/// - A toggle flips the state whether or not the window exists; an opening
///   toggle puts window and rectangle at the open place at once, a closing
///   one slides the rectangle out and leaves the window until the animation
///   is over.
/// - The close button and the hover trigger act only on an existing
///   window: the first closes (as a closing toggle does), the second opens.
/// - When the animation timer fires, the window is moved to its closed
///   place, whatever the state is by then.
pub open spec fn spec_side_panel_step(
    open: bool,
    event: SidePanelEvent,
    panel_alive: bool,
) -> SidePanelStep {
    match event {
        SidePanelEvent::Toggle => if !panel_alive {
            no_action(!open)
        } else if !open {
            opening_step()
        } else {
            closing_step()
        },
        SidePanelEvent::CloseClicked => if panel_alive {
            closing_step()
        } else {
            no_action(open)
        },
        SidePanelEvent::TriggerOpen => if panel_alive {
            opening_step()
        } else {
            no_action(open)
        },
        SidePanelEvent::HideTimerFired => if panel_alive {
            SidePanelStep {
                open,
                move_window: Some(Place::Closed),
                move_target: None,
                hide_after_animation: false,
            }
        } else {
            no_action(open)
        },
    }
}

fn opening() -> (step: SidePanelStep)
    ensures
        step == opening_step(),
{
    SidePanelStep {
        open: true,
        move_window: Some(Place::Open),
        move_target: Some(Place::Open),
        hide_after_animation: false,
    }
}

fn closing() -> (step: SidePanelStep)
    ensures
        step == closing_step(),
{
    SidePanelStep {
        open: false,
        move_window: None,
        move_target: Some(Place::Closed),
        hide_after_animation: true,
    }
}

/// Decides what `event` does to a side panel that is currently `open` (or
/// not).
pub fn side_panel_step(open: bool, event: SidePanelEvent, panel_alive: bool) -> (step:
    SidePanelStep)
    ensures
        step == spec_side_panel_step(open, event, panel_alive),
        event == SidePanelEvent::TriggerOpen && panel_alive ==> step.open && step.move_window
            == Some(Place::Open) && step.move_target == Some(Place::Open)
            && !step.hide_after_animation,
        event == SidePanelEvent::Toggle ==> step.open == !open,
        event == SidePanelEvent::CloseClicked && panel_alive ==> !step.open,
        event == SidePanelEvent::HideTimerFired ==> step.open == open,
{
    let idle = SidePanelStep {
        open,
        move_window: None,
        move_target: None,
        hide_after_animation: false,
    };
    match event {
        SidePanelEvent::Toggle => {
            if !panel_alive {
                SidePanelStep { open: !open, ..idle }
            } else if !open {
                opening()
            } else {
                closing()
            }
        },
        SidePanelEvent::CloseClicked => {
            if panel_alive {
                closing()
            } else {
                idle
            }
        },
        SidePanelEvent::TriggerOpen => {
            if panel_alive {
                opening()
            } else {
                idle
            }
        },
        SidePanelEvent::HideTimerFired => {
            if panel_alive {
                SidePanelStep { move_window: Some(Place::Closed), ..idle }
            } else {
                idle
            }
        },
    }
}

/// Decides what the menu button does to a double panel: the state flips,
/// and an existing window is moved to the place that matches the new state.
pub open spec fn spec_double_panel_toggle(open: bool, panel_alive: bool) -> (bool, Option<Place>) {
    let opening = !open;
    (
        opening,
        if panel_alive {
            Some(
                if opening {
                    Place::Open
                } else {
                    Place::Closed
                },
            )
        } else {
            None
        },
    )
}

/// Toggles a double panel: returns the new state and where to move its
/// window, if anywhere.
pub fn double_panel_toggle(open: bool, panel_alive: bool) -> (step: (bool, Option<Place>))
    ensures
        step == spec_double_panel_toggle(open, panel_alive),
{
    let opening = !open;
    let place = if panel_alive {
        Some(
            if opening {
                Place::Open
            } else {
                Place::Closed
            },
        )
    } else {
        None
    };
    (opening, place)
}

/// Pressing a side panel's menu button twice brings its state back to what
/// it was, whether or not its window exists at either press.
pub proof fn lemma_side_toggle_twice(open: bool, alive1: bool, alive2: bool)
    ensures
        spec_side_panel_step(spec_side_panel_step(open, SidePanelEvent::Toggle, alive1).open,
            SidePanelEvent::Toggle, alive2).open == open,
{
}

/// On an existing side panel, every event but the animation timer slides
/// the rectangle to the place that matches the new state, and the window is
/// only ever moved off screen by the animation timer, never at once.
pub proof fn lemma_side_target_follows_state(open: bool, event: SidePanelEvent)
    ensures
        ({
            let step = spec_side_panel_step(open, event, true);
            &&& event != SidePanelEvent::HideTimerFired ==> step.move_target == Some(
                if step.open {
                    Place::Open
                } else {
                    Place::Closed
                },
            )
            &&& step.move_window == Some(Place::Closed) ==> event == SidePanelEvent::HideTimerFired
            &&& step.hide_after_animation ==> !step.open
        }),
{
}

/// What each event does to an existing side panel, whatever its state:
/// the hover trigger always opens it at once (an open panel stays open and
/// is put back in place), an opening toggle opens it at once, a closing
/// toggle and the close button start sliding it out, and the animation
/// timer only moves the window off screen.
pub proof fn lemma_side_events_on_live_panel(open: bool)
    ensures
        spec_side_panel_step(open, SidePanelEvent::TriggerOpen, true) == (SidePanelStep {
            open: true,
            move_window: Some(Place::Open),
            move_target: Some(Place::Open),
            hide_after_animation: false,
        }),
        spec_side_panel_step(false, SidePanelEvent::Toggle, true) == (SidePanelStep {
            open: true,
            move_window: Some(Place::Open),
            move_target: Some(Place::Open),
            hide_after_animation: false,
        }),
        spec_side_panel_step(true, SidePanelEvent::Toggle, true) == (SidePanelStep {
            open: false,
            move_window: None,
            move_target: Some(Place::Closed),
            hide_after_animation: true,
        }),
        spec_side_panel_step(open, SidePanelEvent::CloseClicked, true) == (SidePanelStep {
            open: false,
            move_window: None,
            move_target: Some(Place::Closed),
            hide_after_animation: true,
        }),
        spec_side_panel_step(open, SidePanelEvent::HideTimerFired, true) == (SidePanelStep {
            open: open,
            move_window: Some(Place::Closed),
            move_target: None,
            hide_after_animation: false,
        }),
{
}

/// The hover trigger never closes a panel: after it, the panel is open
/// whenever its window exists, and otherwise unchanged.
pub proof fn lemma_trigger_never_closes(open: bool, alive: bool)
    ensures
        spec_side_panel_step(open, SidePanelEvent::TriggerOpen, alive).open == (alive || open),
        spec_side_panel_step(open, SidePanelEvent::TriggerOpen, alive).hide_after_animation
            == false,
        spec_side_panel_step(open, SidePanelEvent::TriggerOpen, alive).move_target != Some(
            Place::Closed,
        ),
{
}

/// A panel whose window is gone is never asked to move.
pub proof fn lemma_side_dead_panel_is_left_alone(open: bool, event: SidePanelEvent)
    ensures
        ({
            let step = spec_side_panel_step(open, event, false);
            step.move_window is None && step.move_target is None && !step.hide_after_animation
        }),
{
}

/// Pressing a double panel's menu button twice brings it back to its state,
/// and an existing window always lands where the new state says.
pub proof fn lemma_double_toggle(open: bool, alive1: bool, alive2: bool)
    ensures
        spec_double_panel_toggle(spec_double_panel_toggle(open, alive1).0, alive2).0 == open,
        spec_double_panel_toggle(open, true).1 == Some(
            if spec_double_panel_toggle(open, true).0 {
                Place::Open
            } else {
                Place::Closed
            },
        ),
{
}

} // verus!
