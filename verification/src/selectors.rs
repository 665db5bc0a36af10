use vstd::prelude::*;

verus! {

/// The selection of a new drop-down: the given one when an item equals it or there are no
/// items, else the first item.
pub open spec fn initial_selection(items: Seq<u64>, selected: Option<u64>) -> Option<u64> {
    if items.len() > 0 && !(exists|k: int| 0 <= k < items.len() && selected == Some(#[trigger] items[k])) {
        Some(items[0])
    } else {
        selected
    }
}

/// A drop-down list: a button showing the selected item which opens a popup with all items,
/// one toggle button each. Items are told apart by the value of their view model.
pub struct DropDown {
    items: Vec<u64>,
    selected_item: Option<u64>,
    is_popup_open: bool,
}

impl DropDown {
    pub closed spec fn items_spec(&self) -> Seq<u64> {
        self.items@
    }

    pub closed spec fn selected_spec(&self) -> Option<u64> {
        self.selected_item
    }

    pub closed spec fn is_open_spec(&self) -> bool {
        self.is_popup_open
    }

    /// Whether the toggle button of the item at `index` is checked: the item equals the
    /// selected one.
    pub open spec fn item_checked_spec(&self, index: int) -> bool {
        self.selected_spec() == Some(self.items_spec()[index])
    }

    /// A drop-down over `items` with the given selection and its popup closed. The item buttons
    /// form a radio group, which checks the first button when none is checked (no item equals
    /// the selection); that item then becomes the selection.
    pub fn new(items: Vec<u64>, selected_item: Option<u64>) -> (d: Self)
        ensures
            d.items_spec() == items@,
            d.selected_spec() == initial_selection(items@, selected_item),
            !d.is_open_spec(),
    {
        let mut any = false;
        let mut i: usize = 0;
        while i < items.len()
            invariant
                i <= items.len(),
                any == exists|k: int|
                    0 <= k < i && selected_item == Some(#[trigger] items@[k]),
            decreases items.len() - i,
        {
            if selected_item == Some(items[i]) {
                any = true;
            }
            i = i + 1;
        }
        let selected = if !any && items.len() > 0 {
            Some(items[0])
        } else {
            selected_item
        };
        DropDown { items, selected_item: selected, is_popup_open: false }
    }

    /// The items.
    pub fn get_items(&self) -> (v: &Vec<u64>)
        ensures
            v@ == self.items_spec(),
    {
        &self.items
    }

    /// The selected item.
    pub fn get_selected_item(&self) -> (s: Option<u64>)
        ensures
            s == self.selected_spec(),
    {
        self.selected_item
    }

    /// Whether the popup with the items is open.
    pub fn is_popup_open(&self) -> (b: bool)
        ensures
            b == self.is_open_spec(),
    {
        self.is_popup_open
    }

    /// Whether the toggle button of the item at `index` is checked.
    pub fn is_item_checked(&self, index: usize) -> (b: bool)
        requires
            index < self.items_spec().len(),
        ensures
            b == self.item_checked_spec(index as int),
    {
        match self.selected_item {
            Some(s) => s == self.items[index],
            None => false,
        }
    }

    /// The button was clicked: the popup opens.
    pub fn show(&mut self)
        ensures
            final(self).is_open_spec(),
            final(self).items_spec() == old(self).items_spec(),
            final(self).selected_spec() == old(self).selected_spec(),
    {
        self.is_popup_open = true;
    }

    /// The popup hid itself (a click outside it): it closes and the selection stays.
    pub fn close_popup(&mut self)
        ensures
            !final(self).is_open_spec(),
            final(self).items_spec() == old(self).items_spec(),
            final(self).selected_spec() == old(self).selected_spec(),
    {
        self.is_popup_open = false;
    }

    /// The toggle button of the item at `index` got checked: the item becomes the selection
    /// and the popup closes.
    pub fn select_item(&mut self, index: usize)
        requires
            index < old(self).items_spec().len(),
        ensures
            final(self).selected_spec() == Some(old(self).items_spec()[index as int]),
            !final(self).is_open_spec(),
            final(self).items_spec() == old(self).items_spec(),
    {
        self.selected_item = Some(self.items[index]);
        self.is_popup_open = false;
    }
}

/// After an item is selected, the checked buttons are exactly those of the items equal to it:
/// one per distinct item.
pub proof fn lemma_selected_item_checked(d: DropDown, index: int, j: int)
    requires
        0 <= index < d.items_spec().len(),
        0 <= j < d.items_spec().len(),
        d.selected_spec() == Some(d.items_spec()[index]),
    ensures
        d.item_checked_spec(j) <==> d.items_spec()[j] == d.items_spec()[index],
        d.item_checked_spec(index),
{
}

/// A new drop-down with items always has an item checked: the selected one, or the first.
pub proof fn lemma_new_drop_down_checks_an_item(items: Seq<u64>, selected: Option<u64>)
    requires
        items.len() > 0,
    ensures
        initial_selection(items, selected) matches Some(s) && exists|k: int|
            0 <= k < items.len() && items[k] == s,
        (exists|k: int| 0 <= k < items.len() && selected == Some(#[trigger] items[k]))
            ==> initial_selection(items, selected) == selected,
{
    if !(exists|k: int| 0 <= k < items.len() && selected == Some(#[trigger] items[k])) {
        assert(items[0] == items[0]);
    } else {
        let k = choose|k: int| 0 <= k < items.len() && selected == Some(#[trigger] items[k]);
        assert(items[k] == selected->0);
    }
}

/// A tab control: a row of tab buttons above the selected tab's content. Exactly one button is
/// checked, the one of the selected tab.
pub struct TabControl {
    titles: Vec<String>,
    selected_index: usize,
}

/// The title a tab's button shows: the title attached to the tab, else `Tab`.
pub fn tab_title(attached: Option<String>) -> (t: String)
    ensures
        attached.is_some() ==> t@ == attached.unwrap()@,
        attached.is_none() ==> t@ == seq!['T', 'a', 'b'],
{
    match attached {
        Some(t) => t,
        None => {
            let t = "Tab".to_owned();
            proof {
                reveal_strlit("Tab");
            }
            t
        },
    }
}

impl TabControl {
    #[verifier::type_invariant]
    closed spec fn tabs_wf(self) -> bool {
        self.selected_index < self.titles.len()
    }

    pub closed spec fn titles_spec(&self) -> Seq<Seq<char>> {
        self.titles@.map_values(|s: String| s@)
    }

    pub closed spec fn selected_spec(&self) -> nat {
        self.selected_index as nat
    }

    /// Whether the button of the tab at `index` is checked.
    pub open spec fn button_checked_spec(&self, index: int) -> bool {
        index == self.selected_spec()
    }

    /// A tab control over tabs with the given attached titles; the first tab is selected (its
    /// button is the first of the group and gets checked).
    pub fn new(attached_titles: Vec<Option<String>>) -> (t: Self)
        requires
            attached_titles.len() > 0,
        ensures
            t.selected_spec() == 0,
            t.titles_spec().len() == attached_titles@.len(),
            forall|i: int|
                0 <= i < attached_titles@.len() ==> (#[trigger] t.titles_spec()[i]) == match attached_titles@[i] {
                    Some(s) => s@,
                    None => seq!['T', 'a', 'b'],
                },
    {
        let mut titles: Vec<String> = Vec::new();
        let mut i: usize = 0;
        let mut source = attached_titles;
        let ghost given = source@;
        let n: usize = source.len();
        while i < n
            invariant
                n == given.len(),
                i <= given.len(),
                titles.len() == i,
                source@ == given.subrange(i as int, n as int),
                forall|k: int|
                    0 <= k < i ==> (#[trigger] titles@[k])@ == match given[k] {
                        Some(s) => s@,
                        None => seq!['T', 'a', 'b'],
                    },
            decreases given.len() - i,
        {
            let a = source.remove(0);
            let t = tab_title(a);
            titles.push(t);
            i = i + 1;
        }
        let t = TabControl { titles, selected_index: 0 };
        assert forall|k: int| 0 <= k < given.len() implies (#[trigger] t.titles_spec()[k])
            == match given[k] {
            Some(s) => s@,
            None => seq!['T', 'a', 'b'],
        } by {
            assert(t.titles_spec()[k] == t.titles@[k]@);
        }
        t
    }

    /// The index of the selected tab.
    pub fn get_selected_index(&self) -> (i: usize)
        ensures
            i == self.selected_spec(),
    {
        self.selected_index
    }

    /// The titles of the tab buttons.
    pub fn get_titles(&self) -> (t: &Vec<String>)
        ensures
            t@.map_values(|s: String| s@) == self.titles_spec(),
    {
        &self.titles
    }

    /// The button of the tab at `index` got checked: that tab is selected (and the group
    /// unchecks the other buttons).
    pub fn select(&mut self, index: usize)
        requires
            index < old(self).titles_spec().len(),
        ensures
            final(self).selected_spec() == index,
            final(self).titles_spec() == old(self).titles_spec(),
    {
        self.selected_index = index;
    }
}

/// Exactly one tab button is checked: the one of the selected tab.
pub proof fn lemma_one_tab_checked(t: TabControl, i: int, j: int)
    requires
        t.button_checked_spec(i),
        t.button_checked_spec(j),
    ensures
        i == j,
        i == t.selected_spec(),
{
}

} // verus!
