use vstd::prelude::*;
use crate::window::{WindowLayers, without, lemma_add_then_remove_restores};

verus! {

/// Where a popup is placed.
#[derive(PartialEq, Eq, Structural, Clone, Copy, Debug)]
pub enum PopupPlacement {
    /// The popup fills the whole window.
    FullSize,
    /// The popup is placed above or below its parent (where there is more room), as wide as the
    /// parent.
    BelowOrAboveParent,
    /// The popup is placed to the left or to the right of its parent.
    LeftOrRightParent,
}

/// When a popup hides by itself.
#[derive(PartialEq, Eq, Structural, Clone, Copy, Debug)]
pub enum PopupAutoHide {
    /// Never.
    Disabled,
    /// When the user clicks outside it.
    ClickedOutside,
    /// When the user clicks outside it or moves the pointer away from it and its parent (the
    /// behavior of a submenu).
    Menu,
    /// The popup of a menu on a menu bar: when the user clicks outside it (the bar's triggers
    /// are left uncovered, so clicks on them reach the bar, which switches menus), but not when
    /// the pointer moves away.
    MenuTopLevel,
}

/// The events the layout of an open popup sees. Whether the pointer lies inside the popup's
/// own rectangle or the rectangle of the control it is placed at is decided by the caller.
#[derive(PartialEq, Eq, Structural, Clone, Copy, Debug)]
pub enum RelativeLayoutEvent {
    /// A tap that reached the layout, so outside the popup's content.
    TapDown,
    PointerMove { inside_relative_control: bool, inside_layout: bool },
    Other,
}

/// Whether an event asks the popup to hide.
pub open spec fn auto_hide_requested_spec(auto_hide: PopupAutoHide, e: RelativeLayoutEvent) -> bool {
    match e {
        RelativeLayoutEvent::TapDown => auto_hide != PopupAutoHide::Disabled,
        RelativeLayoutEvent::PointerMove { inside_relative_control, inside_layout } => auto_hide
            == PopupAutoHide::Menu && !inside_relative_control && !inside_layout,
        RelativeLayoutEvent::Other => false,
    }
}

/// Whether an event asks the popup to hide: a tap outside it does unless auto hide is disabled;
/// with the menu behavior, a pointer that leaves both the popup and its parent does too.
pub fn auto_hide_requested(auto_hide: PopupAutoHide, e: RelativeLayoutEvent) -> (b: bool)
    ensures
        b == auto_hide_requested_spec(auto_hide, e),
{
    match e {
        RelativeLayoutEvent::TapDown => match auto_hide {
            PopupAutoHide::ClickedOutside | PopupAutoHide::Menu | PopupAutoHide::MenuTopLevel => {
                true
            },
            PopupAutoHide::Disabled => false,
        },
        RelativeLayoutEvent::PointerMove { inside_relative_control, inside_layout } => {
            match auto_hide {
                PopupAutoHide::Menu => !inside_relative_control && !inside_layout,
                _ => false,
            }
        },
        RelativeLayoutEvent::Other => false,
    }
}

/// A popup: whether it is open, and the window layer that shows its content while it is.
pub struct Popup {
    placement: PopupPlacement,
    auto_hide: PopupAutoHide,
    is_open: bool,
    content: Option<u64>,
}

impl Popup {
    pub closed spec fn is_open_spec(&self) -> bool {
        self.is_open
    }

    pub closed spec fn content_spec(&self) -> Option<u64> {
        self.content
    }

    pub closed spec fn placement_spec(&self) -> PopupPlacement {
        self.placement
    }

    pub closed spec fn auto_hide_spec(&self) -> PopupAutoHide {
        self.auto_hide
    }

    /// Where the popup is placed.
    pub fn placement(&self) -> (p: PopupPlacement)
        ensures
            p == self.placement_spec(),
    {
        self.placement
    }

    /// When the popup hides by itself.
    pub fn auto_hide(&self) -> (a: PopupAutoHide)
        ensures
            a == self.auto_hide_spec(),
    {
        self.auto_hide
    }

    /// A closed popup.
    pub fn new(placement: PopupPlacement, auto_hide: PopupAutoHide) -> (p: Self)
        ensures
            p.placement_spec() == placement,
            p.auto_hide_spec() == auto_hide,
            !p.is_open_spec(),
            p.content_spec() == None::<u64>,
    {
        Popup { placement, auto_hide, is_open: false, content: None }
    }

    /// Whether the popup is open.
    pub fn is_open(&self) -> (b: bool)
        ensures
            b == self.is_open_spec(),
    {
        self.is_open
    }

    /// The layer that shows the content, while the popup is open.
    pub fn get_content(&self) -> (c: Option<u64>)
        ensures
            c == self.content_spec(),
    {
        self.content
    }

    /// Opens or closes the popup. Nothing happens when the state does not change. When the
    /// window and the popup's child are there (`window_available`), opening puts the content
    /// (the layer `content`) on top of the window and closing removes it again.
    pub fn set_is_open(
        &mut self,
        is_open: bool,
        window_available: bool,
        content: u64,
        layers: &mut WindowLayers,
    )
        requires
            is_open || !window_available || old(self).is_open_spec() == is_open
                || old(self).content_spec().is_some(),
        ensures
            final(self).is_open_spec() == is_open,
            final(self).placement_spec() == old(self).placement_spec(),
            final(self).auto_hide_spec() == old(self).auto_hide_spec(),
            old(self).is_open_spec() == is_open || !window_available ==> {
                &&& final(self).content_spec() == old(self).content_spec()
                &&& final(layers).layers() == old(layers).layers()
            },
            old(self).is_open_spec() != is_open && window_available && is_open ==> {
                &&& final(self).content_spec() == Some(content)
                &&& final(layers).layers() == old(layers).layers().push(content)
            },
            old(self).is_open_spec() != is_open && window_available && !is_open ==> {
                &&& final(self).content_spec() == None::<u64>
                &&& final(layers).layers() == without(
                    old(layers).layers(),
                    old(self).content_spec().unwrap(),
                )
            },
            final(layers).view_layer() == old(layers).view_layer(),
    {
        if self.is_open == is_open {
            return;
        }
        self.is_open = is_open;
        if window_available {
            if is_open {
                self.content = Some(content);
                layers.add_layer(content);
            } else {
                match self.content {
                    Some(c) => {
                        layers.remove_layer(c);
                    },
                    None => {},
                }
                self.content = None;
            }
        }
    }

    /// Reacts to an event of the popup's layout: when it asks the popup to hide, the popup is
    /// closed and `true` is returned (the popup tells its owner that it hid itself).
    pub fn handle_layout_event(
        &mut self,
        e: RelativeLayoutEvent,
        window_available: bool,
        layers: &mut WindowLayers,
    ) -> (hidden: bool)
        requires
            !window_available || !old(self).is_open_spec() || old(self).content_spec().is_some(),
        ensures
            hidden == auto_hide_requested_spec(old(self).auto_hide_spec(), e),
            hidden ==> !final(self).is_open_spec(),
            !hidden ==> final(self).is_open_spec() == old(self).is_open_spec()
                && final(self).content_spec() == old(self).content_spec() && final(layers).layers()
                == old(layers).layers(),
            hidden && old(self).is_open_spec() && window_available ==> final(layers).layers()
                == without(old(layers).layers(), old(self).content_spec().unwrap())
                && final(self).content_spec() == None::<u64>,
            hidden && (!old(self).is_open_spec() || !window_available) ==> final(layers).layers()
                == old(layers).layers() && final(self).content_spec() == old(self).content_spec(),
            final(layers).view_layer() == old(layers).view_layer(),
            final(self).placement_spec() == old(self).placement_spec(),
            final(self).auto_hide_spec() == old(self).auto_hide_spec(),
    {
        if auto_hide_requested(self.auto_hide, e) {
            let c = match self.content {
                Some(c) => c,
                None => 0,
            };
            self.set_is_open(false, window_available, c, layers);
            true
        } else {
            false
        }
    }
}

/// A popup opened and closed again (by its owner or by hiding itself) leaves the window's
/// layers as they were, when its content layer was not among them.
pub proof fn lemma_open_close_restores_layers(layers: Seq<u64>, content: u64)
    requires
        !layers.contains(content),
    ensures
        without(layers.push(content), content) == layers,
{
    lemma_add_then_remove_restores(layers, content);
}

/// A popup that hides on an outside click always hides on a tap that reaches its layout, and
/// one whose auto hide is disabled never hides by itself.
pub proof fn lemma_auto_hide_modes(e: RelativeLayoutEvent)
    ensures
        auto_hide_requested_spec(PopupAutoHide::ClickedOutside, RelativeLayoutEvent::TapDown),
        auto_hide_requested_spec(PopupAutoHide::Menu, RelativeLayoutEvent::TapDown),
        auto_hide_requested_spec(PopupAutoHide::MenuTopLevel, e) == auto_hide_requested_spec(
            PopupAutoHide::ClickedOutside,
            e,
        ),
        !auto_hide_requested_spec(PopupAutoHide::Disabled, e),
        auto_hide_requested_spec(PopupAutoHide::ClickedOutside, e) ==> auto_hide_requested_spec(
            PopupAutoHide::Menu,
            e,
        ),
{
}

} // verus!
