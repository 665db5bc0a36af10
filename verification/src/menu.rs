use vstd::prelude::*;
use crate::popup::{PopupAutoHide, PopupPlacement};

verus! {

/// The background of a menu trigger: none, the faint hover shade of a top-level trigger, or the
/// highlight of an open or hovered menu.
#[derive(PartialEq, Eq, Structural, Clone, Copy, Debug)]
pub enum MenuBackground {
    Transparent,
    Hovered,
    Highlighted,
}

/// The state of one menu: its id (non-zero for top-level menus of a menu bar, 0 otherwise),
/// whether it sits directly on a menu bar, whether it has items to show in a popup, whether
/// the popup is open, and the background of its trigger.
#[derive(PartialEq, Eq, Structural, Clone, Copy, Debug)]
pub struct MenuState {
    pub menu_id: i32,
    pub is_top_level: bool,
    pub has_popup_content: bool,
    pub is_open: bool,
    pub background: MenuBackground,
}

/// A closed menu with a transparent trigger.
pub open spec fn closed_menu(m: MenuState) -> MenuState {
    MenuState { is_open: false, background: MenuBackground::Transparent, ..m }
}

/// Hovering (or leaving) the trigger. `active` is the menu bar's active menu id, `None` for a
/// menu outside any menu bar. Returns the new state and the active id to publish, if any.
pub open spec fn menu_hover(m: MenuState, hovered: bool, active: Option<i32>) -> (
    MenuState,
    Option<i32>,
) {
    if !m.is_top_level {
        let open = if hovered && m.has_popup_content {
            true
        } else {
            m.is_open
        };
        let bg = if hovered || open {
            MenuBackground::Highlighted
        } else {
            MenuBackground::Transparent
        };
        (MenuState { is_open: open, background: bg, ..m }, None)
    } else {
        match active {
            Some(cur) => {
                let switch = hovered && cur != 0 && cur != m.menu_id;
                let open = if switch {
                    true
                } else {
                    m.is_open
                };
                let bg = if open || (hovered && cur != 0) {
                    MenuBackground::Highlighted
                } else if hovered {
                    MenuBackground::Hovered
                } else {
                    MenuBackground::Transparent
                };
                (
                    MenuState { is_open: open, background: bg, ..m },
                    if switch {
                        Some(m.menu_id)
                    } else {
                        None
                    },
                )
            },
            None => (m, None),
        }
    }
}

/// Releasing a tap on the trigger: an open menu closes, a closed one opens.
pub open spec fn menu_tap_up(m: MenuState, active: Option<i32>) -> (MenuState, Option<i32>) {
    if !m.has_popup_content {
        (m, None)
    } else if m.is_open {
        (
            closed_menu(m),
            if m.is_top_level && active == Some(m.menu_id) {
                Some(0i32)
            } else {
                None
            },
        )
    } else {
        (
            MenuState { is_open: true, background: MenuBackground::Highlighted, ..m },
            if m.is_top_level && active is Some {
                Some(m.menu_id)
            } else {
                None
            },
        )
    }
}

/// The popup hid itself (a click outside it, or the pointer left a sub-menu).
pub open spec fn menu_auto_hide(m: MenuState, active: Option<i32>) -> (MenuState, Option<i32>) {
    (
        closed_menu(m),
        if m.is_top_level && active == Some(m.menu_id) {
            Some(0i32)
        } else {
            None
        },
    )
}

/// The reaction to a new active id of the menu bar: a top-level menu closes when another one
/// becomes active, a sub-menu when none is active any more.
pub open spec fn menu_active_changed(m: MenuState, new_active: i32) -> MenuState {
    let should_close = if m.is_top_level {
        new_active != m.menu_id
    } else {
        new_active == 0
    };
    if should_close && m.is_open {
        closed_menu(m)
    } else {
        m
    }
}

impl MenuState {
    /// A closed menu.
    pub fn new(menu_id: i32, is_top_level: bool, has_popup_content: bool) -> (m: Self)
        ensures
            m == (MenuState {
                menu_id,
                is_top_level,
                has_popup_content,
                is_open: false,
                background: MenuBackground::Transparent,
            }),
    {
        MenuState {
            menu_id,
            is_top_level,
            has_popup_content,
            is_open: false,
            background: MenuBackground::Transparent,
        }
    }

    fn close(&mut self)
        ensures
            *final(self) == closed_menu(*old(self)),
    {
        self.is_open = false;
        self.background = MenuBackground::Transparent;
    }

    /// Hovering (or leaving) the trigger; returns the active id to publish on the menu bar.
    pub fn on_hover(&mut self, hovered: bool, active: Option<i32>) -> (r: Option<i32>)
        ensures
            (*final(self), r) == menu_hover(*old(self), hovered, active),
    {
        if !self.is_top_level {
            if hovered && self.has_popup_content {
                self.is_open = true;
            }
            self.background =
                if hovered || self.is_open {
                    MenuBackground::Highlighted
                } else {
                    MenuBackground::Transparent
                };
            None
        } else {
            match active {
                Some(cur) => {
                    let switch = hovered && cur != 0 && cur != self.menu_id;
                    if switch {
                        self.is_open = true;
                    }
                    self.background =
                        if self.is_open || (hovered && cur != 0) {
                            MenuBackground::Highlighted
                        } else if hovered {
                            MenuBackground::Hovered
                        } else {
                            MenuBackground::Transparent
                        };
                    if switch {
                        Some(self.menu_id)
                    } else {
                        None
                    }
                },
                None => None,
            }
        }
    }

    /// Releasing a tap on the trigger; returns the active id to publish on the menu bar.
    pub fn on_tap_up(&mut self, active: Option<i32>) -> (r: Option<i32>)
        ensures
            (*final(self), r) == menu_tap_up(*old(self), active),
    {
        if !self.has_popup_content {
            None
        } else if self.is_open {
            self.close();
            if self.is_top_level && active == Some(self.menu_id) {
                Some(0)
            } else {
                None
            }
        } else {
            self.is_open = true;
            self.background = MenuBackground::Highlighted;
            if self.is_top_level && active.is_some() {
                Some(self.menu_id)
            } else {
                None
            }
        }
    }

    /// The popup hid itself; returns the active id to publish on the menu bar.
    pub fn on_auto_hide(&mut self, active: Option<i32>) -> (r: Option<i32>)
        ensures
            (*final(self), r) == menu_auto_hide(*old(self), active),
    {
        self.close();
        if self.is_top_level && active == Some(self.menu_id) {
            Some(0)
        } else {
            None
        }
    }

    /// The menu bar's active id changed.
    pub fn on_active_changed(&mut self, new_active: i32)
        ensures
            *final(self) == menu_active_changed(*old(self), new_active),
    {
        let should_close = if self.is_top_level {
            new_active != self.menu_id
        } else {
            new_active == 0
        };
        if should_close && self.is_open {
            self.close();
        }
    }
}

/// How the popup of a menu with items is placed and when it hides by itself: a menu on the bar
/// opens below or above its trigger and hides on a click outside; a sub-menu opens to the left
/// or right of its item and also hides when the pointer leaves it and its item.
pub fn menu_popup(is_top_level: bool) -> (r: (PopupPlacement, PopupAutoHide))
    ensures
        r == (if is_top_level {
            (PopupPlacement::BelowOrAboveParent, PopupAutoHide::MenuTopLevel)
        } else {
            (PopupPlacement::LeftOrRightParent, PopupAutoHide::Menu)
        }),
{
    if is_top_level {
        (PopupPlacement::BelowOrAboveParent, PopupAutoHide::MenuTopLevel)
    } else {
        (PopupPlacement::LeftOrRightParent, PopupAutoHide::Menu)
    }
}

/// The background of a menu item's row.
pub fn menu_item_background(hovered: bool) -> (r: MenuBackground)
    ensures
        r == (if hovered {
            MenuBackground::Highlighted
        } else {
            MenuBackground::Transparent
        }),
{
    if hovered {
        MenuBackground::Highlighted
    } else {
        MenuBackground::Transparent
    }
}

/// The menus of a menu bar with their shared state: the id of the open top-level menu (0 when
/// none is) and the counter that numbers top-level menus.
pub struct MenuData {
    active_menu_id: i32,
    menu_id_counter: i32,
    menus: Vec<MenuState>,
}

/// The menus after the active id became `new_active`.
pub open spec fn menus_after_active(menus: Seq<MenuState>, new_active: i32) -> Seq<MenuState> {
    Seq::new(menus.len(), |i: int| menu_active_changed(menus[i], new_active))
}

/// The shape of a menu bar's state: top-level menus carry distinct ids between 1 and the
/// counter, other menus carry 0, and an open top-level menu is the active one.
pub open spec fn menus_wf(active: i32, counter: i32, menus: Seq<MenuState>) -> bool {
    &&& 1 <= counter
    &&& forall|i: int|
        0 <= i < menus.len() ==> if (#[trigger] menus[i]).is_top_level {
            1 <= menus[i].menu_id < counter
        } else {
            menus[i].menu_id == 0
        }
    &&& forall|i: int, j: int|
        0 <= i < menus.len() && 0 <= j < menus.len() && i != j && (#[trigger] menus[i]).is_top_level
            && (#[trigger] menus[j]).is_top_level ==> menus[i].menu_id != menus[j].menu_id
    &&& forall|i: int|
        0 <= i < menus.len() && (#[trigger] menus[i]).is_top_level && menus[i].is_open
            ==> menus[i].menu_id == active
}

/// At most one top-level menu is open.
pub proof fn lemma_one_open_top_level(active: i32, counter: i32, menus: Seq<MenuState>, i: int, j: int)
    requires
        menus_wf(active, counter, menus),
        0 <= i < menus.len(),
        0 <= j < menus.len(),
        menus[i].is_top_level && menus[i].is_open,
        menus[j].is_top_level && menus[j].is_open,
    ensures
        i == j,
{
}

/// Closing all menus while a top-level menu is active closes every menu of the bar.
pub proof fn lemma_close_all_closes_every_menu(active: i32, counter: i32, menus: Seq<MenuState>, i: int)
    requires
        menus_wf(active, counter, menus),
        active != 0,
        0 <= i < menus.len(),
    ensures
        !menus_after_active(menus, 0)[i].is_open,
{
}

/// The active id names an open top-level menu, or is 0: together with `menus_wf` (an open
/// top-level menu is the active one), the active id is 0 exactly when no top-level menu is
/// open.
pub open spec fn active_matches_open(active: i32, menus: Seq<MenuState>) -> bool {
    active != 0 ==> exists|i: int|
        0 <= i < menus.len() && (#[trigger] menus[i]).is_top_level && menus[i].is_open
            && menus[i].menu_id == active
}

/// The active id and the menus after menu `index` became `m` and `publish` (if any) was
/// published.
pub open spec fn after_publish(
    active: i32,
    menus: Seq<MenuState>,
    index: int,
    m: MenuState,
    publish: Option<i32>,
) -> (i32, Seq<MenuState>) {
    let updated = menus.update(index, m);
    match publish {
        Some(id) => (id, if id == active {
            updated
        } else {
            menus_after_active(updated, id)
        }),
        None => (active, updated),
    }
}

/// The active id is 0 exactly when no top-level menu is open.
pub proof fn lemma_active_zero_iff_none_open(active: i32, counter: i32, menus: Seq<MenuState>)
    requires
        menus_wf(active, counter, menus),
        active_matches_open(active, menus),
    ensures
        active == 0 <==> forall|i: int|
            0 <= i < menus.len() && (#[trigger] menus[i]).is_top_level ==> !menus[i].is_open,
{
    if active != 0 {
        let i = choose|i: int|
            0 <= i < menus.len() && (#[trigger] menus[i]).is_top_level && menus[i].is_open
                && menus[i].menu_id == active;
        assert(menus[i].is_top_level);
    } else {
        assert forall|i: int| 0 <= i < menus.len() && (#[trigger] menus[i]).is_top_level implies !menus[i].is_open by {
            if menus[i].is_open {
                assert(1 <= menus[i].menu_id);
            }
        }
    }
}

/// Tapping a menu with items opens it when it is closed (a menu on the bar or a sub-menu
/// alike), highlighted, and closes it when it is open; a menu without items ignores taps.
/// A menu on the bar that opens becomes the active one, and one that closes while active
/// clears the active id.
pub proof fn lemma_tap_opens_and_closes(m: MenuState, active: i32)
    ensures
        ({
            let (t, publish) = menu_tap_up(m, Some(active));
            &&& m.has_popup_content && !m.is_open ==> t.is_open && t.background
                == MenuBackground::Highlighted
            &&& m.has_popup_content && m.is_open ==> !t.is_open && t.background
                == MenuBackground::Transparent
            &&& !m.has_popup_content ==> t == m && publish is None
            &&& t.menu_id == m.menu_id && t.is_top_level == m.is_top_level
            &&& m.has_popup_content && !m.is_open && m.is_top_level ==> publish == Some(
                m.menu_id,
            )
            &&& m.has_popup_content && m.is_open && m.is_top_level && active == m.menu_id
                ==> publish == Some(0i32)
            &&& !m.is_top_level ==> publish is None
        }),
{
}

/// On a menu bar, after a tap on a closed menu with items, that menu is open and highlighted,
/// whether it sits on the bar or inside another menu.
pub proof fn lemma_bar_tap_opens(active: i32, counter: i32, menus: Seq<MenuState>, index: int)
    requires
        menus_wf(active, counter, menus),
        0 <= index < menus.len(),
        menus[index].has_popup_content,
        !menus[index].is_open,
    ensures
        ({
            let (m, publish) = menu_tap_up(menus[index], Some(active));
            let after = after_publish(active, menus, index, m, publish).1;
            after[index].is_open && after[index].background == MenuBackground::Highlighted
        }),
{
    let (m, publish) = menu_tap_up(menus[index], Some(active));
    let updated = menus.update(index, m);
    match publish {
        Some(id) => {
            if id != active {
                assert(menus_after_active(updated, id)[index] == menu_active_changed(m, id));
            }
        },
        None => {},
    }
}

/// Replacing a menu and publishing keeps the active id matching the open menu, when a non-zero
/// id is published only by the top-level menu it names as it opens, and the open active menu
/// stays open when nothing is published.
proof fn lemma_publish_keeps_match(
    active: i32,
    counter: i32,
    menus: Seq<MenuState>,
    index: int,
    m: MenuState,
    publish: Option<i32>,
)
    requires
        menus_wf(active, counter, menus),
        active_matches_open(active, menus),
        0 <= index < menus.len(),
        m.is_top_level == menus[index].is_top_level,
        m.menu_id == menus[index].menu_id,
        publish matches Some(id) ==> (id != 0 ==> m.is_top_level && m.is_open && m.menu_id == id),
        publish is None && menus[index].is_top_level && menus[index].is_open ==> m.is_open,
    ensures
        active_matches_open(
            after_publish(active, menus, index, m, publish).0,
            after_publish(active, menus, index, m, publish).1,
        ),
{
    let updated = menus.update(index, m);
    match publish {
        Some(id) => {
            if id != 0 {
                let fin = if id == active {
                    updated
                } else {
                    menus_after_active(updated, id)
                };
                assert(fin[index] == m);
            }
        },
        None => {
            if active != 0 {
                let j = choose|j: int|
                    0 <= j < menus.len() && (#[trigger] menus[j]).is_top_level && menus[j].is_open
                        && menus[j].menu_id == active;
                assert(updated[j].is_top_level && updated[j].is_open && updated[j].menu_id
                    == active);
            }
        },
    }
}

/// Publishing an active id keeps the shape when the id is 0 or that of an open-able top-level
/// menu.
proof fn lemma_publish_wf(active: i32, counter: i32, menus: Seq<MenuState>, id: i32)
    requires
        menus_wf(active, counter, menus),
    ensures
        menus_wf(id, counter, menus_after_active(menus, id)),
{
    let n = menus_after_active(menus, id);
    assert forall|i: int| 0 <= i < n.len() && (#[trigger] n[i]).is_top_level && n[i].is_open implies n[i].menu_id
        == id by {
        assert(n[i] == menu_active_changed(menus[i], id));
    }
    assert forall|i: int, j: int|
        0 <= i < n.len() && 0 <= j < n.len() && i != j && (#[trigger] n[i]).is_top_level
            && (#[trigger] n[j]).is_top_level implies n[i].menu_id != n[j].menu_id by {
        assert(n[i] == menu_active_changed(menus[i], id));
        assert(n[j] == menu_active_changed(menus[j], id));
        assert(menus[i].is_top_level && menus[j].is_top_level);
    }
    assert forall|i: int| 0 <= i < n.len() implies if (#[trigger] n[i]).is_top_level {
        1 <= n[i].menu_id < counter
    } else {
        n[i].menu_id == 0
    } by {
        assert(n[i] == menu_active_changed(menus[i], id));
    }
}

impl MenuData {
    #[verifier::type_invariant]
    closed spec fn inv(self) -> bool {
        &&& menus_wf(self.active_menu_id, self.menu_id_counter, self.menus@)
        &&& active_matches_open(self.active_menu_id, self.menus@)
    }

    /// The menus, in the order they were added.
    pub closed spec fn menus(self) -> Seq<MenuState> {
        self.menus@
    }

    /// The id of the open top-level menu, 0 when none is open.
    pub closed spec fn active(self) -> i32 {
        self.active_menu_id
    }

    /// The active id names the open top-level menu, or is 0 when none is open.
    pub open spec fn active_consistent(self) -> bool {
        active_matches_open(self.active(), self.menus())
    }

    /// The id that the next top-level menu gets.
    pub closed spec fn counter(self) -> i32 {
        self.menu_id_counter
    }

    /// A menu bar without menus; no menu is active and numbering starts at 1.
    pub fn new() -> (d: Self)
        ensures
            d.menus() == Seq::<MenuState>::empty(),
            d.active() == 0,
            d.counter() == 1,
            d.active_consistent(),
    {
        MenuData { active_menu_id: 0, menu_id_counter: 1, menus: Vec::new() }
    }

    /// The id of the open top-level menu, 0 when none is open. Every state of a menu bar has
    /// the shape of `menus_wf` (at most one top-level menu open, and it is the active one) and
    /// an active id that names the open menu or is 0.
    pub fn get_active_menu_id(&self) -> (r: i32)
        ensures
            r == self.active(),
            menus_wf(self.active(), self.counter(), self.menus()),
            self.active_consistent(),
    {
        proof {
            use_type_invariant(self);
        }
        self.active_menu_id
    }

    /// The number of menus.
    pub fn len(&self) -> (r: usize)
        ensures
            r == self.menus().len(),
    {
        self.menus.len()
    }

    /// The state of menu `index`.
    pub fn get_menu(&self, index: usize) -> (r: MenuState)
        requires
            index < self.menus().len(),
        ensures
            r == self.menus()[index as int],
    {
        self.menus[index]
    }

    /// Adds a menu: directly on the bar (a top-level menu, which gets the next id) or inside
    /// another menu (id 0). Returns its index.
    pub fn add_menu(&mut self, is_inside_menu: bool, has_popup_content: bool) -> (r: usize)
        requires
            old(self).counter() < i32::MAX,
            old(self).menus().len() < usize::MAX,
        ensures
            r == old(self).menus().len(),
            final(self).menus() == old(self).menus().push(
                MenuState {
                    menu_id: if is_inside_menu {
                        0
                    } else {
                        old(self).counter()
                    },
                    is_top_level: !is_inside_menu,
                    has_popup_content,
                    is_open: false,
                    background: MenuBackground::Transparent,
                },
            ),
            final(self).active() == old(self).active(),
            final(self).counter() == if is_inside_menu {
                old(self).counter() as int
            } else {
                old(self).counter() + 1
            },
            menus_wf(final(self).active(), final(self).counter(), final(self).menus()),
            final(self).active_consistent(),
    {
        proof {
            use_type_invariant(&*self);
        }
        let is_top_level = !is_inside_menu;
        let id = if is_top_level {
            self.menu_id_counter
        } else {
            0
        };
        let counter = if is_top_level {
            self.menu_id_counter + 1
        } else {
            self.menu_id_counter
        };
        let mut menus = self.menus.clone();
        menus.push(MenuState::new(id, is_top_level, has_popup_content));
        let ghost old_menus = self.menus@;
        assert(menus@ == old_menus.push(menus@.last()));
        assert forall|i: int| 0 <= i < menus@.len() implies if (#[trigger] menus@[i]).is_top_level {
            1 <= menus@[i].menu_id < counter
        } else {
            menus@[i].menu_id == 0
        } by {
            if i < old_menus.len() {
                assert(menus@[i] == old_menus[i]);
            }
        }
        assert forall|i: int, j: int|
            0 <= i < menus@.len() && 0 <= j < menus@.len() && i != j
                && (#[trigger] menus@[i]).is_top_level && (#[trigger] menus@[j]).is_top_level implies menus@[i].menu_id
            != menus@[j].menu_id by {
            if i < old_menus.len() {
                assert(menus@[i] == old_menus[i]);
            }
            if j < old_menus.len() {
                assert(menus@[j] == old_menus[j]);
            }
        }
        assert forall|i: int|
            0 <= i < menus@.len() && (#[trigger] menus@[i]).is_top_level && menus@[i].is_open implies menus@[i].menu_id
            == self.active_menu_id by {
            if i < old_menus.len() {
                assert(menus@[i] == old_menus[i]);
            }
        }
        proof {
            if active_matches_open(self.active_menu_id, old_menus) && self.active_menu_id != 0 {
                let j = choose|j: int|
                    0 <= j < old_menus.len() && (#[trigger] old_menus[j]).is_top_level
                        && old_menus[j].is_open && old_menus[j].menu_id == self.active_menu_id;
                assert(menus@[j] == old_menus[j]);
            }
        }
        let r = self.menus.len();
        *self = MenuData { active_menu_id: self.active_menu_id, menu_id_counter: counter, menus };
        proof {
            use_type_invariant(&*self);
        }
        r
    }

    /// Clears the active id; when it changes, every menu reacts (`menu_active_changed`).
    fn set_active_menu_id(&mut self, id: i32)
        requires
            id == 0,
        ensures
            final(self).active() == id,
            final(self).counter() == old(self).counter(),
            final(self).menus() == if id == old(self).active() {
                old(self).menus()
            } else {
                menus_after_active(old(self).menus(), id)
            },
            menus_wf(final(self).active(), final(self).counter(), final(self).menus()),
            final(self).active_consistent(),
    {
        proof {
            use_type_invariant(&*self);
        }
        if id == self.active_menu_id {
            return;
        }
        let mut menus: Vec<MenuState> = Vec::new();
        for i in 0..self.menus.len()
            invariant
                menus@ == menus_after_active(self.menus@, id).take(i as int),
        {
            let mut m = self.menus[i];
            m.on_active_changed(id);
            menus.push(m);
            assert(menus_after_active(self.menus@, id).take(i + 1) == menus_after_active(
                self.menus@,
                id,
            ).take(i as int).push(m));
        }
        assert(menus_after_active(self.menus@, id).take(self.menus@.len() as int)
            == menus_after_active(self.menus@, id));
        proof {
            lemma_publish_wf(self.active_menu_id, self.menu_id_counter, self.menus@, id);
        }
        *self = MenuData { active_menu_id: id, menu_id_counter: self.menu_id_counter, menus };
        proof {
            use_type_invariant(&*self);
        }
    }

    /// Replaces menu `index` by `m`, whose top-level flag and id are unchanged, and then
    /// publishes `publish` as the active id, if any.
    fn update_and_publish(&mut self, index: usize, m: MenuState, publish: Option<i32>)
        requires
            index < old(self).menus().len(),
            m.is_top_level == old(self).menus()[index as int].is_top_level,
            m.menu_id == old(self).menus()[index as int].menu_id,
            m.is_top_level && m.is_open ==> publish == Some(m.menu_id) || (publish is None
                && m.menu_id == old(self).active()),
            publish is Some ==> publish == Some(0i32) || (m.is_top_level && publish == Some(
                m.menu_id,
            )),
            publish matches Some(id) ==> (id != 0 ==> m.is_open),
            publish is None && old(self).menus()[index as int].is_top_level && old(
                self,
            ).menus()[index as int].is_open ==> m.is_open,
        ensures
            ({
                let updated = old(self).menus().update(index as int, m);
                match publish {
                    Some(id) => {
                        &&& final(self).active() == id
                        &&& final(self).menus() == if id == old(self).active() {
                            updated
                        } else {
                            menus_after_active(updated, id)
                        }
                    },
                    None => final(self).active() == old(self).active() && final(self).menus()
                        == updated,
                }
            }),
            final(self).counter() == old(self).counter(),
    {
        proof {
            use_type_invariant(&*self);
        }
        proof {
            lemma_publish_keeps_match(
                self.active_menu_id,
                self.menu_id_counter,
                self.menus@,
                index as int,
                m,
                publish,
            );
        }
        let ghost fin = after_publish(self.active_menu_id, self.menus@, index as int, m, publish);
        let mut menus = self.menus.clone();
        let ghost old_menus = self.menus@;
        menus.set(index, m);
        let ghost target = match publish {
            Some(id) => id,
            None => self.active_menu_id,
        };
        // Before publishing, every open top-level menu other than `m` is the active one.
        assert forall|i: int| 0 <= i < menus@.len() implies if (#[trigger] menus@[i]).is_top_level {
            1 <= menus@[i].menu_id < self.menu_id_counter
        } else {
            menus@[i].menu_id == 0
        } by {
            if i != index {
                assert(menus@[i] == old_menus[i]);
            }
        }
        assert forall|i: int, j: int|
            0 <= i < menus@.len() && 0 <= j < menus@.len() && i != j
                && (#[trigger] menus@[i]).is_top_level && (#[trigger] menus@[j]).is_top_level implies menus@[i].menu_id
            != menus@[j].menu_id by {
            if i != index {
                assert(menus@[i] == old_menus[i]);
            }
            if j != index {
                assert(menus@[j] == old_menus[j]);
            }
        }
        match publish {
            None => {
                assert forall|i: int|
                    0 <= i < menus@.len() && (#[trigger] menus@[i]).is_top_level
                        && menus@[i].is_open implies menus@[i].menu_id == self.active_menu_id by {
                    if i != index {
                        assert(menus@[i] == old_menus[i]);
                    }
                }
                *self = MenuData {
                    active_menu_id: self.active_menu_id,
                    menu_id_counter: self.menu_id_counter,
                    menus,
                };
            },
            Some(id) => {
                let active = self.active_menu_id;
                if id == active {
                    assert forall|i: int|
                        0 <= i < menus@.len() && (#[trigger] menus@[i]).is_top_level
                            && menus@[i].is_open implies menus@[i].menu_id == active by {
                        if i != index {
                            assert(menus@[i] == old_menus[i]);
                        }
                    }
                    *self = MenuData {
                        active_menu_id: active,
                        menu_id_counter: self.menu_id_counter,
                        menus,
                    };
                } else {
                    // Publishing `id` closes every open top-level menu whose id differs.
                    let mut published: Vec<MenuState> = Vec::new();
                    for i in 0..menus.len()
                        invariant
                            published@ == menus_after_active(menus@, id).take(i as int),
                    {
                        let mut x = menus[i];
                        x.on_active_changed(id);
                        published.push(x);
                        assert(menus_after_active(menus@, id).take(i + 1) == menus_after_active(
                            menus@,
                            id,
                        ).take(i as int).push(x));
                    }
                    assert(menus_after_active(menus@, id).take(menus@.len() as int)
                        == menus_after_active(menus@, id));
                    let ghost n = published@;
                    assert forall|i: int|
                        0 <= i < n.len() && (#[trigger] n[i]).is_top_level && n[i].is_open implies n[i].menu_id
                        == id by {
                        assert(n[i] == menu_active_changed(menus@[i], id));
                    }
                    assert forall|i: int| 0 <= i < n.len() implies if (#[trigger] n[i]).is_top_level {
                        1 <= n[i].menu_id < self.menu_id_counter
                    } else {
                        n[i].menu_id == 0
                    } by {
                        assert(n[i] == menu_active_changed(menus@[i], id));
                    }
                    assert forall|i: int, j: int|
                        0 <= i < n.len() && 0 <= j < n.len() && i != j
                            && (#[trigger] n[i]).is_top_level && (#[trigger] n[j]).is_top_level implies n[i].menu_id
                        != n[j].menu_id by {
                        assert(n[i] == menu_active_changed(menus@[i], id));
                        assert(n[j] == menu_active_changed(menus@[j], id));
                        assert(menus@[i].is_top_level && menus@[j].is_top_level);
                    }
                    *self = MenuData {
                        active_menu_id: id,
                        menu_id_counter: self.menu_id_counter,
                        menus: published,
                    };
                }
            },
        }
    }

    /// The pointer entered or left the trigger of menu `index`.
    pub fn hover(&mut self, index: usize, hovered: bool)
        requires
            index < old(self).menus().len(),
        ensures
            ({
                let (m, publish) = menu_hover(
                    old(self).menus()[index as int],
                    hovered,
                    Some(old(self).active()),
                );
                let updated = old(self).menus().update(index as int, m);
                match publish {
                    Some(id) => final(self).active() == id && final(self).menus() == if id
                        == old(self).active() {
                        updated
                    } else {
                        menus_after_active(updated, id)
                    },
                    None => final(self).active() == old(self).active() && final(self).menus()
                        == updated,
                }
            }),
            final(self).counter() == old(self).counter(),
            menus_wf(final(self).active(), final(self).counter(), final(self).menus()),
            final(self).active_consistent(),
            (final(self).active(), final(self).menus()) == after_publish(
                old(self).active(),
                old(self).menus(),
                index as int,
                menu_hover(old(self).menus()[index as int], hovered, Some(old(self).active())).0,
                menu_hover(old(self).menus()[index as int], hovered, Some(old(self).active())).1,
            ),
    {
        proof {
            use_type_invariant(&*self);
        }
        let mut m = self.menus[index];
        let publish = m.on_hover(hovered, Some(self.active_menu_id));
        self.update_and_publish(index, m, publish);
        proof {
            use_type_invariant(&*self);
        }
    }

    /// A tap was released on the trigger of menu `index`.
    pub fn tap_up(&mut self, index: usize)
        requires
            index < old(self).menus().len(),
        ensures
            ({
                let (m, publish) = menu_tap_up(
                    old(self).menus()[index as int],
                    Some(old(self).active()),
                );
                let updated = old(self).menus().update(index as int, m);
                match publish {
                    Some(id) => final(self).active() == id && final(self).menus() == if id
                        == old(self).active() {
                        updated
                    } else {
                        menus_after_active(updated, id)
                    },
                    None => final(self).active() == old(self).active() && final(self).menus()
                        == updated,
                }
            }),
            final(self).counter() == old(self).counter(),
            menus_wf(final(self).active(), final(self).counter(), final(self).menus()),
            final(self).active_consistent(),
            (final(self).active(), final(self).menus()) == after_publish(
                old(self).active(),
                old(self).menus(),
                index as int,
                menu_tap_up(old(self).menus()[index as int], Some(old(self).active())).0,
                menu_tap_up(old(self).menus()[index as int], Some(old(self).active())).1,
            ),
    {
        proof {
            use_type_invariant(&*self);
        }
        let mut m = self.menus[index];
        let publish = m.on_tap_up(Some(self.active_menu_id));
        self.update_and_publish(index, m, publish);
        proof {
            use_type_invariant(&*self);
        }
    }

    /// The popup of menu `index` hid itself.
    pub fn auto_hide(&mut self, index: usize)
        requires
            index < old(self).menus().len(),
        ensures
            ({
                let (m, publish) = menu_auto_hide(
                    old(self).menus()[index as int],
                    Some(old(self).active()),
                );
                let updated = old(self).menus().update(index as int, m);
                match publish {
                    Some(id) => final(self).active() == id && final(self).menus() == if id
                        == old(self).active() {
                        updated
                    } else {
                        menus_after_active(updated, id)
                    },
                    None => final(self).active() == old(self).active() && final(self).menus()
                        == updated,
                }
            }),
            final(self).counter() == old(self).counter(),
            menus_wf(final(self).active(), final(self).counter(), final(self).menus()),
            final(self).active_consistent(),
            (final(self).active(), final(self).menus()) == after_publish(
                old(self).active(),
                old(self).menus(),
                index as int,
                menu_auto_hide(old(self).menus()[index as int], Some(old(self).active())).0,
                menu_auto_hide(old(self).menus()[index as int], Some(old(self).active())).1,
            ),
    {
        proof {
            use_type_invariant(&*self);
        }
        let mut m = self.menus[index];
        let publish = m.on_auto_hide(Some(self.active_menu_id));
        self.update_and_publish(index, m, publish);
        proof {
            use_type_invariant(&*self);
        }
    }

    /// A menu item was activated: every menu of the bar closes.
    pub fn close_all(&mut self)
        ensures
            final(self).active() == 0,
            final(self).counter() == old(self).counter(),
            final(self).menus() == if old(self).active() == 0 {
                old(self).menus()
            } else {
                menus_after_active(old(self).menus(), 0)
            },
            menus_wf(final(self).active(), final(self).counter(), final(self).menus()),
            final(self).active_consistent(),
    {
        self.set_active_menu_id(0);
        proof {
            use_type_invariant(&*self);
        }
    }
}

} // verus!
