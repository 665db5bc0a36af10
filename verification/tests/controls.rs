use fui::alignment::Alignment;
use fui::menu::{menu_item_background, menu_popup, MenuBackground, MenuData};
use fui::popup::{auto_hide_requested, PopupAutoHide, PopupPlacement, RelativeLayoutEvent};
use fui::move_resize::{
    cursor_for_edge, position_to_edge, CursorShape, DefaultMoveResizeAreaStyle, Edge, EdgeZones,
    MoveResizeEvent, MoveResizeSettings, WindowRequest,
};
use fui::radio_controller::{RadioController, RadioElement};
use fui::selectors::{tab_title, DropDown, TabControl};
use fui::toggle_button::{
    gesture_signal, ButtonState, ControlEvent, GestureSignal, ToggleButtonState,
    ToggleButtonStyleKind,
};
use fui::view_models::StringViewModel;

fn zones() -> EdgeZones {
    EdgeZones {
        in_left_border: false,
        in_right_border: false,
        in_top_border: false,
        in_bottom_border: false,
        near_top: false,
        near_bottom: false,
        near_left: false,
        near_right: false,
        has_left_border: true,
        has_right_border: true,
        has_top_border: true,
        has_bottom_border: true,
    }
}

fn edge(left: bool, right: bool, top: bool, bottom: bool) -> Edge {
    Edge { left, right, top, bottom }
}

#[test]
fn checkbox_click_toggles() {
    let mut s = ToggleButtonState::new(false);
    s.handle_event(ToggleButtonStyleKind::CheckBox, ControlEvent::TapDown);
    assert!(s.is_tapped);
    s.handle_event(ToggleButtonStyleKind::CheckBox, ControlEvent::TapUp { inside: true });
    assert!(s.is_checked);
    assert!(!s.is_tapped);
    s.handle_event(ToggleButtonStyleKind::CheckBox, ControlEvent::TapDown);
    s.handle_event(ToggleButtonStyleKind::CheckBox, ControlEvent::TapUp { inside: true });
    assert!(!s.is_checked);
}

#[test]
fn radio_click_never_unchecks() {
    let mut s = ToggleButtonState::new(true);
    s.handle_event(ToggleButtonStyleKind::Radio, ControlEvent::TapDown);
    s.handle_event(ToggleButtonStyleKind::Radio, ControlEvent::TapUp { inside: true });
    assert!(s.is_checked);
    let mut t = ToggleButtonState::new(false);
    t.handle_event(ToggleButtonStyleKind::Tab, ControlEvent::TapUp { inside: true });
    assert!(t.is_checked);
}

#[test]
fn release_outside_keeps_state() {
    let mut s = ToggleButtonState::new(false);
    s.handle_event(ToggleButtonStyleKind::Default, ControlEvent::TapDown);
    s.handle_event(ToggleButtonStyleKind::Default, ControlEvent::TapMove { inside: false });
    assert!(!s.is_tapped);
    s.handle_event(ToggleButtonStyleKind::Default, ControlEvent::TapUp { inside: false });
    assert!(!s.is_checked);
}

#[test]
fn default_toggle_shows_what_release_gives() {
    let mut s = ToggleButtonState::new(true);
    assert!(s.is_pressed(ToggleButtonStyleKind::Default));
    s.handle_event(ToggleButtonStyleKind::Default, ControlEvent::TapDown);
    assert!(!s.is_pressed(ToggleButtonStyleKind::Default));
    assert!(s.is_pressed(ToggleButtonStyleKind::CheckBox));
    s.handle_event(ToggleButtonStyleKind::Default, ControlEvent::HoverChange(true));
    assert!(s.is_hover);
    s.handle_event(ToggleButtonStyleKind::Default, ControlEvent::FocusChange(true));
    assert!(s.is_focused);
}

#[test]
fn button_clicks_only_when_released_inside() {
    let mut b = ButtonState::new();
    assert!(!b.handle_event(ControlEvent::TapDown));
    assert!(b.is_pressed);
    assert!(!b.handle_event(ControlEvent::TapMove { inside: false }));
    assert!(!b.is_pressed);
    assert!(!b.handle_event(ControlEvent::TapUp { inside: false }));
    b.handle_event(ControlEvent::TapDown);
    assert!(b.handle_event(ControlEvent::TapUp { inside: true }));
    assert!(!b.is_pressed);
}

#[test]
fn gesture_signals() {
    assert_eq!(gesture_signal(ControlEvent::TapDown), Some(GestureSignal::TapDown));
    assert_eq!(gesture_signal(ControlEvent::TapUp { inside: false }), Some(GestureSignal::TapUp));
    assert_eq!(
        gesture_signal(ControlEvent::HoverChange(true)),
        Some(GestureSignal::HoverChange(true))
    );
    assert_eq!(gesture_signal(ControlEvent::FocusChange(true)), None);
    assert_eq!(gesture_signal(ControlEvent::Other), None);
}

fn el(id: u64, is_checked: bool) -> RadioElement {
    RadioElement { id, is_checked }
}

#[test]
fn radio_group_checks_first_when_none_checked() {
    let c = RadioController::new(vec![el(1, false), el(2, false), el(3, false)]);
    assert_eq!(c.get_elements(), &vec![el(1, true), el(2, false), el(3, false)]);
    let c = RadioController::new(vec![el(1, false), el(2, true)]);
    assert_eq!(c.get_elements(), &vec![el(1, false), el(2, true)]);
    let c = RadioController::new(vec![]);
    assert!(c.get_elements().is_empty());
}

#[test]
fn radio_check_is_exclusive() {
    let mut c = RadioController::new(vec![el(1, true), el(2, false), el(3, false), el(2, false)]);
    c.set_is_checked(2, true);
    assert_eq!(c.get_elements(), &vec![el(1, false), el(2, true), el(3, false), el(2, true)]);
    c.set_is_checked(2, false);
    assert_eq!(c.get_elements(), &vec![el(1, false), el(2, false), el(3, false), el(2, false)]);
}

#[test]
fn radio_first_added_is_checked() {
    let mut c = RadioController::new(vec![]);
    c.push(el(7, false));
    assert_eq!(c.get_elements(), &vec![el(7, true)]);
    c.insert_at(0, el(8, false));
    assert_eq!(c.get_elements(), &vec![el(8, false), el(7, true)]);
    c.move_item(1, 0);
    assert_eq!(c.get_elements(), &vec![el(7, true), el(8, false)]);
    c.remove_at(0);
    assert_eq!(c.get_elements(), &vec![el(8, false)]);
    c.pop();
    assert!(c.get_elements().is_empty());
    c.push(el(9, false));
    c.clear();
    assert!(c.get_elements().is_empty());
}

#[test]
fn menu_bar_switches_open_menu_on_hover() {
    let mut d = MenuData::new();
    let a = d.add_menu(false, true);
    let b = d.add_menu(false, true);
    let sub = d.add_menu(true, true);
    assert_eq!(d.get_menu(a).menu_id, 1);
    assert_eq!(d.get_menu(b).menu_id, 2);
    assert_eq!(d.get_menu(sub).menu_id, 0);
    d.tap_up(a);
    assert!(d.get_menu(a).is_open);
    assert_eq!(d.get_active_menu_id(), 1);
    d.hover(b, true);
    assert_eq!(d.get_active_menu_id(), 2);
    assert!(d.get_menu(b).is_open);
    assert!(!d.get_menu(a).is_open);
    assert_eq!(d.get_menu(a).background, MenuBackground::Transparent);
    d.hover(sub, true);
    assert!(d.get_menu(sub).is_open);
    d.close_all();
    assert_eq!(d.get_active_menu_id(), 0);
    assert!(!d.get_menu(b).is_open);
    assert!(!d.get_menu(sub).is_open);
}

#[test]
fn menu_hover_without_open_menu_only_shades() {
    let mut d = MenuData::new();
    let a = d.add_menu(false, true);
    d.hover(a, true);
    assert!(!d.get_menu(a).is_open);
    assert_eq!(d.get_menu(a).background, MenuBackground::Hovered);
    d.hover(a, false);
    assert_eq!(d.get_menu(a).background, MenuBackground::Transparent);
}

#[test]
fn menu_tap_twice_closes_and_auto_hide_closes() {
    let mut d = MenuData::new();
    let a = d.add_menu(false, true);
    d.tap_up(a);
    d.tap_up(a);
    assert!(!d.get_menu(a).is_open);
    assert_eq!(d.get_active_menu_id(), 0);
    d.tap_up(a);
    d.auto_hide(a);
    assert!(!d.get_menu(a).is_open);
    assert_eq!(d.get_active_menu_id(), 0);
}

#[test]
fn menu_without_items_does_not_open() {
    let mut d = MenuData::new();
    let a = d.add_menu(false, false);
    d.tap_up(a);
    assert!(!d.get_menu(a).is_open);
    assert_eq!(d.get_active_menu_id(), 0);
}

#[test]
fn menu_popups_placement_and_auto_hide() {
    assert_eq!(menu_popup(true), (PopupPlacement::BelowOrAboveParent, PopupAutoHide::MenuTopLevel));
    assert_eq!(menu_popup(false), (PopupPlacement::LeftOrRightParent, PopupAutoHide::Menu));
    let away = RelativeLayoutEvent::PointerMove { inside_relative_control: false, inside_layout: false };
    assert!(auto_hide_requested(PopupAutoHide::MenuTopLevel, RelativeLayoutEvent::TapDown));
    assert!(!auto_hide_requested(PopupAutoHide::MenuTopLevel, away));
    assert!(auto_hide_requested(PopupAutoHide::Menu, away));
}

#[test]
fn menu_active_id_follows_open_menu() {
    let mut d = MenuData::new();
    let a = d.add_menu(false, true);
    let b = d.add_menu(false, true);
    d.tap_up(b);
    assert_eq!(d.get_active_menu_id(), d.get_menu(b).menu_id);
    d.auto_hide(b);
    assert_eq!(d.get_active_menu_id(), 0);
    assert!(!d.get_menu(a).is_open && !d.get_menu(b).is_open);
}

#[test]
fn menu_item_backgrounds() {
    assert_eq!(menu_item_background(true), MenuBackground::Highlighted);
    assert_eq!(menu_item_background(false), MenuBackground::Transparent);
}

#[test]
fn edge_sides_and_corners() {
    assert!(position_to_edge(zones()).is_empty());
    let mut z = zones();
    z.in_left_border = true;
    assert_eq!(position_to_edge(z), edge(true, false, false, false));
    z.near_top = true;
    assert_eq!(position_to_edge(z), edge(true, false, true, false));
    z.near_bottom = true;
    assert_eq!(position_to_edge(z), edge(true, false, true, false));
    let mut z = zones();
    z.in_right_border = true;
    z.near_bottom = true;
    assert_eq!(position_to_edge(z), edge(false, true, false, true));
    let mut z = zones();
    z.in_bottom_border = true;
    z.near_right = true;
    assert_eq!(position_to_edge(z), edge(false, true, false, true));
    let mut z = zones();
    z.in_left_border = true;
    z.in_right_border = true;
    z.in_top_border = true;
    z.in_bottom_border = true;
    assert_eq!(position_to_edge(z), edge(true, false, true, false));
}

#[test]
fn zero_border_gives_no_corner_on_that_edge() {
    // left border 0: in the top border near the left corner only the top resizes
    let mut z = zones();
    z.has_left_border = false;
    z.in_top_border = true;
    z.near_top = true;
    z.near_left = true;
    assert_eq!(position_to_edge(z), edge(false, false, true, false));
    // the same with a left border gives the corner
    z.has_left_border = true;
    assert_eq!(position_to_edge(z), edge(true, false, true, false));
    // top border 0: in the left border near the top only the left side resizes
    let mut z = zones();
    z.has_top_border = false;
    z.in_left_border = true;
    z.near_top = true;
    assert_eq!(position_to_edge(z), edge(true, false, false, false));
}

#[test]
fn cursor_shapes_for_edges() {
    assert_eq!(
        cursor_for_edge(edge(true, false, false, false), true, CursorShape::CrossCursor),
        CursorShape::SizeHorCursor
    );
    assert_eq!(
        cursor_for_edge(edge(false, false, false, true), true, CursorShape::CrossCursor),
        CursorShape::SizeVerCursor
    );
    assert_eq!(
        cursor_for_edge(edge(true, false, true, false), true, CursorShape::CrossCursor),
        CursorShape::SizeFDiagCursor
    );
    assert_eq!(
        cursor_for_edge(edge(false, true, true, false), true, CursorShape::CrossCursor),
        CursorShape::SizeBDiagCursor
    );
    assert_eq!(
        cursor_for_edge(Edge::empty(), true, CursorShape::CrossCursor),
        CursorShape::CrossCursor
    );
    assert_eq!(
        cursor_for_edge(Edge::empty(), false, CursorShape::CrossCursor),
        CursorShape::ArrowCursor
    );
}

#[test]
fn move_resize_area_requests() {
    let settings = MoveResizeSettings { has_move_area: true, move_area_cursor: CursorShape::CrossCursor };
    let mut s = DefaultMoveResizeAreaStyle::new();
    let r = s.handle_event(settings, MoveResizeEvent::TapDown);
    assert!(r.release_capture);
    assert_eq!(r.request, WindowRequest::StartSystemMove);
    let mut z = zones();
    z.in_top_border = true;
    let r = s.handle_event(settings, MoveResizeEvent::PointerMove(z));
    assert_eq!(r.request, WindowRequest::SetCursor(CursorShape::SizeVerCursor));
    let r = s.handle_event(settings, MoveResizeEvent::TapDown);
    assert_eq!(r.request, WindowRequest::StartSystemResize(edge(false, false, true, false)));
    let r = s.handle_event(settings, MoveResizeEvent::HitTestChange(false));
    assert_eq!(r.request, WindowRequest::SetCursor(CursorShape::ArrowCursor));
    let r = s.handle_event(settings, MoveResizeEvent::HitTestChange(true));
    assert_eq!(r.request, WindowRequest::Nothing);
    let no_move = MoveResizeSettings { has_move_area: false, ..settings };
    let mut s = DefaultMoveResizeAreaStyle::new();
    let r = s.handle_event(no_move, MoveResizeEvent::TapDown);
    assert!(r.release_capture);
    assert_eq!(r.request, WindowRequest::Nothing);
    let r = s.handle_event(no_move, MoveResizeEvent::Other);
    assert!(!r.release_capture);
}

#[test]
fn drop_down_selection() {
    let mut d = DropDown::new(vec![10, 20, 10, 30], Some(30));
    assert_eq!(d.get_selected_item(), Some(30));
    assert!(d.is_item_checked(3));
    assert!(!d.is_item_checked(0));
    d.show();
    assert!(d.is_popup_open());
    d.select_item(2);
    assert_eq!(d.get_selected_item(), Some(10));
    assert!(!d.is_popup_open());
    assert!(d.is_item_checked(0));
    assert!(d.is_item_checked(2));
    assert!(!d.is_item_checked(1));
    d.show();
    d.close_popup();
    assert_eq!(d.get_selected_item(), Some(10));
    assert_eq!(d.get_items(), &vec![10, 20, 10, 30]);
}

#[test]
fn new_drop_down_selects_first_item_when_none_matches() {
    let d = DropDown::new(vec![10, 20], None);
    assert_eq!(d.get_selected_item(), Some(10));
    assert!(d.is_item_checked(0));
    assert!(!d.is_popup_open());
    let d = DropDown::new(vec![10, 20], Some(99));
    assert_eq!(d.get_selected_item(), Some(10));
    let d = DropDown::new(vec![], None);
    assert_eq!(d.get_selected_item(), None);
}

#[test]
fn tab_control_selects_first_and_titles() {
    let mut t = TabControl::new(vec![Some("One".to_string()), None]);
    assert_eq!(t.get_selected_index(), 0);
    assert_eq!(t.get_titles(), &vec!["One".to_string(), "Tab".to_string()]);
    t.select(1);
    assert_eq!(t.get_selected_index(), 1);
    assert_eq!(tab_title(None), "Tab");
    assert_eq!(tab_title(Some("X".to_string())), "X");
}

#[test]
fn alignment_attached_wins() {
    assert_eq!(Alignment::effective(Some(Alignment::End), Alignment::Start), Alignment::End);
    assert_eq!(Alignment::effective(None, Alignment::Stretch), Alignment::Stretch);
}

#[test]
fn string_view_model_holds_text() {
    let vm = StringViewModel::new("item");
    assert_eq!(vm.text, "item");
    assert!(*vm == *StringViewModel::new("item"));
}
