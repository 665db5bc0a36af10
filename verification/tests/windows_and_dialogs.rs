use fui::dialogs::{InputDialog, MessageBox};
use fui::popup::{auto_hide_requested, Popup, PopupAutoHide, PopupPlacement, RelativeLayoutEvent};
use fui::window::{TranslucentEffect, WindowFrameType, WindowLayers, WindowOptions, WindowRegistry};

#[test]
fn window_options_defaults() {
    let o = WindowOptions::new();
    assert_eq!(o.title, "");
    assert!(o.icon.is_empty());
    assert_eq!((o.width, o.height), (800, 600));
    assert!(!o.stay_on_top);
    assert!(!o.transparent_for_input);
    assert_eq!(o.translucent_effect, TranslucentEffect::NoEffect);
    assert_eq!(o.frame_type, WindowFrameType::Normal);
    assert!(o.visible);
}

#[test]
fn window_options_builders() {
    let o = WindowOptions::new()
        .with_title("Main")
        .with_icon(vec![1, 2, 3])
        .with_size(1024, 768)
        .with_stay_on_top(true)
        .with_transparent_for_input(true)
        .with_translucent_background(TranslucentEffect::Blur)
        .with_frame_type(WindowFrameType::Frameless)
        .with_visibility(false);
    assert_eq!(o.title, "Main");
    assert_eq!(o.icon, vec![1, 2, 3]);
    assert_eq!((o.width, o.height), (1024, 768));
    assert!(o.stay_on_top);
    assert!(o.transparent_for_input);
    assert_eq!(o.translucent_effect, TranslucentEffect::Blur);
    assert_eq!(o.frame_type, WindowFrameType::Frameless);
    assert!(!o.visible);
}

#[test]
fn layers_add_and_remove() {
    let mut l = WindowLayers::new();
    l.add_layer(1);
    l.add_layer(2);
    l.add_layer(1);
    l.add_layer(3);
    l.remove_layer(1);
    assert_eq!(l.get_layers(), &vec![2, 3]);
    l.remove_layer(9);
    assert_eq!(l.get_layers(), &vec![2, 3]);
}

#[test]
fn layer_added_then_removed_restores() {
    let mut l = WindowLayers::new();
    l.add_layer(4);
    l.add_layer(5);
    l.add_layer(6);
    l.remove_layer(6);
    assert_eq!(l.get_layers(), &vec![4, 5]);
}

#[test]
fn set_vm_replaces_the_view_layer() {
    let mut l = WindowLayers::new();
    l.set_vm(10);
    l.add_layer(20);
    assert_eq!(l.get_layers(), &vec![10, 20]);
    l.set_vm(11);
    assert_eq!(l.get_layers(), &vec![20, 11]);
    assert_eq!(l.get_view(), Some(11));
}

#[test]
fn registry_hands_out_fresh_ids() {
    let mut r: WindowRegistry<&str> = WindowRegistry::new();
    assert_eq!(r.get_next_window_id(), 1);
    let a = r.register("first");
    let b = r.register("second");
    assert_eq!((a, b), (1, 2));
    assert_eq!(r.get(a), Some(&"first"));
    assert_eq!(r.get(b), Some(&"second"));
    assert_eq!(r.unregister(a), Some("first"));
    assert_eq!(r.get(a), None);
    assert_eq!(r.unregister(a), None);
    let c = r.register("third");
    assert_eq!(c, 3);
    assert_eq!(r.get(b), Some(&"second"));
}

#[test]
fn message_box_answers_with_clicked_index() {
    let mut layers = WindowLayers::new();
    layers.set_vm(1);
    let mb = MessageBox::new("Save changes?").with_button("Yes").with_button("No").with_button("Cancel");
    assert_eq!(mb.get_message(), "Save changes?");
    assert_eq!(mb.get_buttons(), &vec!["Yes".to_string(), "No".to_string(), "Cancel".to_string()]);
    let mut shown = mb.show(7, &mut layers);
    assert_eq!(layers.get_layers(), &vec![1, 7]);
    assert!(!shown.is_answered());
    assert_eq!(shown.click(1, &mut layers), 1);
    assert!(shown.is_answered());
    assert_eq!(layers.get_layers(), &vec![1]);
}

#[test]
fn input_dialog_ok_and_cancel() {
    let mut layers = WindowLayers::new();
    let d = InputDialog::new("Name:");
    assert_eq!(d.get_message(), "Name:");
    let mut shown = d.get_text("John", 3, &mut layers);
    assert_eq!(shown.get_text(), "John");
    assert!(!shown.is_password());
    shown.set_text("Jane".to_string());
    assert_eq!(shown.click(true, &mut layers), Some("Jane".to_string()));
    assert!(layers.get_layers().is_empty());

    let mut shown = InputDialog::new("Password:").get_password(4, &mut layers);
    assert!(shown.is_password());
    assert_eq!(shown.get_text(), "");
    shown.set_text("secret".to_string());
    assert_eq!(shown.click(false, &mut layers), None);
    assert!(layers.get_layers().is_empty());
}

#[test]
fn auto_hide_decisions() {
    let outside = RelativeLayoutEvent::PointerMove { inside_relative_control: false, inside_layout: false };
    let over_parent = RelativeLayoutEvent::PointerMove { inside_relative_control: true, inside_layout: false };
    assert!(auto_hide_requested(PopupAutoHide::ClickedOutside, RelativeLayoutEvent::TapDown));
    assert!(auto_hide_requested(PopupAutoHide::Menu, RelativeLayoutEvent::TapDown));
    assert!(!auto_hide_requested(PopupAutoHide::Disabled, RelativeLayoutEvent::TapDown));
    assert!(auto_hide_requested(PopupAutoHide::Menu, outside));
    assert!(!auto_hide_requested(PopupAutoHide::Menu, over_parent));
    assert!(!auto_hide_requested(PopupAutoHide::ClickedOutside, outside));
    assert!(!auto_hide_requested(PopupAutoHide::Menu, RelativeLayoutEvent::Other));
}

#[test]
fn popup_open_close_restores_layers() {
    let mut layers = WindowLayers::new();
    layers.set_vm(1);
    let mut p = Popup::new(PopupPlacement::BelowOrAboveParent, PopupAutoHide::ClickedOutside);
    assert_eq!(p.placement(), PopupPlacement::BelowOrAboveParent);
    assert!(!p.is_open());
    p.set_is_open(true, true, 42, &mut layers);
    assert!(p.is_open());
    assert_eq!(p.get_content(), Some(42));
    assert_eq!(layers.get_layers(), &vec![1, 42]);
    p.set_is_open(true, true, 43, &mut layers);
    assert_eq!(layers.get_layers(), &vec![1, 42]);
    p.set_is_open(false, true, 0, &mut layers);
    assert!(!p.is_open());
    assert_eq!(p.get_content(), None);
    assert_eq!(layers.get_layers(), &vec![1]);
}

#[test]
fn popup_hides_itself_on_outside_tap() {
    let mut layers = WindowLayers::new();
    let mut p = Popup::new(PopupPlacement::FullSize, PopupAutoHide::Menu);
    p.set_is_open(true, true, 5, &mut layers);
    let moved = RelativeLayoutEvent::PointerMove { inside_relative_control: false, inside_layout: true };
    assert!(!p.handle_layout_event(moved, true, &mut layers));
    assert!(p.is_open());
    assert!(p.handle_layout_event(RelativeLayoutEvent::TapDown, true, &mut layers));
    assert!(!p.is_open());
    assert!(layers.get_layers().is_empty());
    assert_eq!(p.auto_hide(), PopupAutoHide::Menu);
}

#[test]
fn popup_without_window_only_tracks_state() {
    let mut layers = WindowLayers::new();
    let mut p = Popup::new(PopupPlacement::LeftOrRightParent, PopupAutoHide::Disabled);
    p.set_is_open(true, false, 5, &mut layers);
    assert!(p.is_open());
    assert_eq!(p.get_content(), None);
    assert!(layers.get_layers().is_empty());
    assert!(!p.handle_layout_event(RelativeLayoutEvent::TapDown, false, &mut layers));
}
