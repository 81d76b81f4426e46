use myall::panel::{
    panel_layout, side_panel_shadow, PanelDirection, PanelKind, Place, PANEL_COUNT,
    WEB_PANEL_ID, WEB_PANEL_LAYOUT_INDEX,
};
use myall::side_panel::{double_panel_toggle, side_panel_step, SidePanelEvent, SidePanelStep};

#[test]
fn layout_has_the_twelve_panels_in_order() {
    let layout = panel_layout();
    assert_eq!(layout.len(), PANEL_COUNT);
    let ids: Vec<i32> = layout.iter().map(|s| s.id).collect();
    assert_eq!(ids, vec![1, 2, 3, 4, 5, 8, 7, 6, 11, 12, 13, 14]);
    let slots: Vec<u32> = layout.iter().map(|s| s.open_slot).collect();
    assert_eq!(slots, vec![0, 1, 2, 3, 4, 1, 2, 3, 0, 1, 2, 3]);
    for s in &layout[0..5] {
        assert_eq!(s.kind, PanelKind::Side);
        assert_eq!(s.direction, PanelDirection::LeftToRight);
    }
    for s in &layout[5..8] {
        assert_eq!(s.kind, PanelKind::Side);
        assert_eq!(s.direction, PanelDirection::RightToLeft);
    }
    for s in &layout[8..12] {
        assert_eq!(s.kind, PanelKind::Double);
        assert_eq!(s.direction, PanelDirection::LeftToRight);
    }
}

#[test]
fn layout_ids_are_distinct_and_side_slots_do_not_collide() {
    let layout = panel_layout();
    for i in 0..layout.len() {
        for j in (i + 1)..layout.len() {
            assert_ne!(layout[i].id, layout[j].id);
            if layout[i].kind == PanelKind::Side
                && layout[j].kind == PanelKind::Side
                && layout[i].direction == layout[j].direction
            {
                assert_ne!(layout[i].open_slot, layout[j].open_slot);
            }
        }
    }
}

#[test]
fn web_panel_shares_the_third_double_configuration() {
    let layout = panel_layout();
    assert_eq!(layout[WEB_PANEL_LAYOUT_INDEX].id, 13);
    assert_eq!(layout[WEB_PANEL_LAYOUT_INDEX].kind, PanelKind::Double);
    assert_eq!(WEB_PANEL_ID, 23);
}

#[test]
fn shadow_placement_follows_direction() {
    assert_eq!(side_panel_shadow(PanelDirection::LeftToRight), (1, false));
    assert_eq!(side_panel_shadow(PanelDirection::RightToLeft), (-1, true));
}

fn step(open: bool, move_window: Option<Place>, move_target: Option<Place>, hide: bool) -> SidePanelStep {
    SidePanelStep { open, move_window, move_target, hide_after_animation: hide }
}

#[test]
fn toggle_opens_a_closed_panel_at_once() {
    assert_eq!(
        side_panel_step(false, SidePanelEvent::Toggle, true),
        step(true, Some(Place::Open), Some(Place::Open), false)
    );
}

#[test]
fn toggle_closes_an_open_panel_after_the_animation() {
    assert_eq!(
        side_panel_step(true, SidePanelEvent::Toggle, true),
        step(false, None, Some(Place::Closed), true)
    );
}

#[test]
fn toggle_flips_state_even_without_window() {
    assert_eq!(side_panel_step(false, SidePanelEvent::Toggle, false), step(true, None, None, false));
    assert_eq!(side_panel_step(true, SidePanelEvent::Toggle, false), step(false, None, None, false));
}

#[test]
fn toggle_twice_restores_state() {
    for open in [false, true] {
        for a1 in [false, true] {
            for a2 in [false, true] {
                let s1 = side_panel_step(open, SidePanelEvent::Toggle, a1);
                let s2 = side_panel_step(s1.open, SidePanelEvent::Toggle, a2);
                assert_eq!(s2.open, open);
            }
        }
    }
}

#[test]
fn close_button_closes_only_an_existing_panel() {
    assert_eq!(
        side_panel_step(true, SidePanelEvent::CloseClicked, true),
        step(false, None, Some(Place::Closed), true)
    );
    assert_eq!(
        side_panel_step(false, SidePanelEvent::CloseClicked, true),
        step(false, None, Some(Place::Closed), true)
    );
    assert_eq!(side_panel_step(true, SidePanelEvent::CloseClicked, false), step(true, None, None, false));
}

#[test]
fn trigger_opens_only_an_existing_panel() {
    assert_eq!(
        side_panel_step(false, SidePanelEvent::TriggerOpen, true),
        step(true, Some(Place::Open), Some(Place::Open), false)
    );
    assert_eq!(side_panel_step(false, SidePanelEvent::TriggerOpen, false), step(false, None, None, false));
}

#[test]
fn hide_timer_moves_the_window_off_screen_whatever_the_state() {
    assert_eq!(
        side_panel_step(false, SidePanelEvent::HideTimerFired, true),
        step(false, Some(Place::Closed), None, false)
    );
    assert_eq!(
        side_panel_step(true, SidePanelEvent::HideTimerFired, true),
        step(true, Some(Place::Closed), None, false)
    );
    assert_eq!(side_panel_step(true, SidePanelEvent::HideTimerFired, false), step(true, None, None, false));
}

#[test]
fn double_panel_toggle_moves_window_with_state() {
    assert_eq!(double_panel_toggle(false, true), (true, Some(Place::Open)));
    assert_eq!(double_panel_toggle(true, true), (false, Some(Place::Closed)));
    assert_eq!(double_panel_toggle(false, false), (true, None));
    let (s1, _) = double_panel_toggle(false, true);
    let (s2, _) = double_panel_toggle(s1, false);
    assert!(!s2);
}
