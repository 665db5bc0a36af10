use vstd::prelude::*;
use std::collections::HashMap;

verus! {

broadcast use vstd::std_specs::hash::group_hash_axioms;

/// The translucent effect behind a window.
#[derive(PartialEq, Eq, Structural, Clone, Copy, Debug)]
pub enum TranslucentEffect {
    NoEffect,
    Blur,
}

/// The frame a window is drawn with.
#[derive(PartialEq, Eq, Structural, Clone, Copy, Debug)]
pub enum WindowFrameType {
    Normal,
    Frameless,
}

/// How a window is created.
#[derive(Clone, Debug)]
pub struct WindowOptions {
    pub title: String,
    pub icon: Vec<u8>,
    pub width: i32,
    pub height: i32,
    pub stay_on_top: bool,
    pub transparent_for_input: bool,
    pub translucent_effect: TranslucentEffect,
    pub frame_type: WindowFrameType,
    pub visible: bool,
}

/// Options equal but for the fields named.
pub open spec fn same_options_but_title(a: WindowOptions, b: WindowOptions) -> bool {
    &&& a.icon@ == b.icon@
    &&& a.width == b.width
    &&& a.height == b.height
    &&& a.stay_on_top == b.stay_on_top
    &&& a.transparent_for_input == b.transparent_for_input
    &&& a.translucent_effect == b.translucent_effect
    &&& a.frame_type == b.frame_type
    &&& a.visible == b.visible
}

pub open spec fn same_options_but_icon_and_flags(a: WindowOptions, b: WindowOptions) -> bool {
    &&& a.title@ == b.title@
    &&& a.width == b.width
    &&& a.height == b.height
    &&& a.translucent_effect == b.translucent_effect
    &&& a.frame_type == b.frame_type
}

impl WindowOptions {
    /// An untitled visible 800 by 600 window with a normal frame, no icon, no translucency, not
    /// on top and not transparent for input.
    pub fn new() -> (o: Self)
        ensures
            o.title@ == Seq::<char>::empty(),
            o.icon@ == Seq::<u8>::empty(),
            o.width == 800,
            o.height == 600,
            !o.stay_on_top,
            !o.transparent_for_input,
            o.translucent_effect == TranslucentEffect::NoEffect,
            o.frame_type == WindowFrameType::Normal,
            o.visible,
    {
        WindowOptions {
            title: String::new(),
            icon: Vec::new(),
            width: 800,
            height: 600,
            stay_on_top: false,
            transparent_for_input: false,
            translucent_effect: TranslucentEffect::NoEffect,
            frame_type: WindowFrameType::Normal,
            visible: true,
        }
    }

    /// The same options with the given title.
    pub fn with_title(self, title: &str) -> (o: Self)
        ensures
            o.title@ == title@,
            same_options_but_title(o, self),
    {
        let mut o = self;
        o.title = title.to_owned();
        o
    }

    /// The same options with the given icon.
    pub fn with_icon(self, icon: Vec<u8>) -> (o: Self)
        ensures
            o.icon@ == icon@,
            same_options_but_icon_and_flags(o, self),
            o.stay_on_top == self.stay_on_top,
            o.transparent_for_input == self.transparent_for_input,
            o.visible == self.visible,
    {
        let mut o = self;
        o.icon = icon;
        o
    }

    /// The same options with the given size.
    pub fn with_size(self, width: i32, height: i32) -> (o: Self)
        ensures
            o.width == width,
            o.height == height,
            o.title@ == self.title@,
            o.icon@ == self.icon@,
            o.stay_on_top == self.stay_on_top,
            o.transparent_for_input == self.transparent_for_input,
            o.translucent_effect == self.translucent_effect,
            o.frame_type == self.frame_type,
            o.visible == self.visible,
    {
        let mut o = self;
        o.width = width;
        o.height = height;
        o
    }

    /// The same options, staying on top or not.
    pub fn with_stay_on_top(self, stay_on_top: bool) -> (o: Self)
        ensures
            o.stay_on_top == stay_on_top,
            same_options_but_icon_and_flags(o, self),
            o.icon@ == self.icon@,
            o.transparent_for_input == self.transparent_for_input,
            o.visible == self.visible,
    {
        let mut o = self;
        o.stay_on_top = stay_on_top;
        o
    }

    /// The same options, transparent for input or not.
    pub fn with_transparent_for_input(self, transparent_for_input: bool) -> (o: Self)
        ensures
            o.transparent_for_input == transparent_for_input,
            same_options_but_icon_and_flags(o, self),
            o.icon@ == self.icon@,
            o.stay_on_top == self.stay_on_top,
            o.visible == self.visible,
    {
        let mut o = self;
        o.transparent_for_input = transparent_for_input;
        o
    }

    /// The same options with the given translucent effect.
    pub fn with_translucent_background(self, translucent_effect: TranslucentEffect) -> (o: Self)
        ensures
            o.translucent_effect == translucent_effect,
            o.title@ == self.title@,
            o.icon@ == self.icon@,
            o.width == self.width,
            o.height == self.height,
            o.stay_on_top == self.stay_on_top,
            o.transparent_for_input == self.transparent_for_input,
            o.frame_type == self.frame_type,
            o.visible == self.visible,
    {
        let mut o = self;
        o.translucent_effect = translucent_effect;
        o
    }

    /// The same options with the given frame type.
    pub fn with_frame_type(self, frame_type: WindowFrameType) -> (o: Self)
        ensures
            o.frame_type == frame_type,
            o.title@ == self.title@,
            o.icon@ == self.icon@,
            o.width == self.width,
            o.height == self.height,
            o.stay_on_top == self.stay_on_top,
            o.transparent_for_input == self.transparent_for_input,
            o.translucent_effect == self.translucent_effect,
            o.visible == self.visible,
    {
        let mut o = self;
        o.frame_type = frame_type;
        o
    }

    /// The same options, visible or not.
    pub fn with_visibility(self, visible: bool) -> (o: Self)
        ensures
            o.visible == visible,
            same_options_but_icon_and_flags(o, self),
            o.icon@ == self.icon@,
            o.stay_on_top == self.stay_on_top,
            o.transparent_for_input == self.transparent_for_input,
    {
        let mut o = self;
        o.visible = visible;
        o
    }
}

/// The layers of a window with each layer's control held by an id. A layer is drawn over the
/// ones before it; the view of the window's view model is one of them.
pub struct WindowLayers {
    layers: Vec<u64>,
    view: Option<u64>,
}

/// The sequence `s` without any occurrence of `id`, in the order of `s`.
pub open spec fn without(s: Seq<u64>, id: u64) -> Seq<u64> {
    s.filter(|x: u64| x != id)
}

proof fn lemma_without_push(s: Seq<u64>, x: u64, id: u64)
    ensures
        without(s.push(x), id) == if x == id {
            without(s, id)
        } else {
            without(s, id).push(x)
        },
{
    reveal(Seq::filter);
    assert(s.push(x).drop_last() == s);
}

/// Removing an id that a sequence does not hold leaves the sequence as it is.
pub proof fn lemma_without_absent(s: Seq<u64>, id: u64)
    requires
        !s.contains(id),
    ensures
        without(s, id) == s,
    decreases s.len(),
{
    if s.len() > 0 {
        let t = s.drop_last();
        assert(!t.contains(id)) by {
            if t.contains(id) {
                let k = choose|k: int| 0 <= k < t.len() && t[k] == id;
                assert(s[k] == id);
            }
        }
        lemma_without_absent(t, id);
        assert(s == t.push(s.last()));
        lemma_without_push(t, s.last(), id);
    }
}

/// No occurrence of `id` is left.
pub proof fn lemma_without_removes(s: Seq<u64>, id: u64)
    ensures
        !without(s, id).contains(id),
{
    broadcast use vstd::seq_lib::group_filter_ensures;

    let w = without(s, id);
    if w.contains(id) {
        let k = choose|k: int| 0 <= k < w.len() && w[k] == id;
        s.lemma_filter_pred(|x: u64| x != id, k);
    }
}

impl WindowLayers {
    pub closed spec fn layers(&self) -> Seq<u64> {
        self.layers@
    }

    pub closed spec fn view_layer(&self) -> Option<u64> {
        self.view
    }

    /// A window with no layer and no view.
    pub fn new() -> (w: Self)
        ensures
            w.layers() == Seq::<u64>::empty(),
            w.view_layer() == None::<u64>,
    {
        WindowLayers { layers: Vec::new(), view: None }
    }

    /// The layers, bottom first.
    pub fn get_layers(&self) -> (l: &Vec<u64>)
        ensures
            l@ == self.layers(),
    {
        &self.layers
    }

    /// The layer of the current view, if any.
    pub fn get_view(&self) -> (v: Option<u64>)
        ensures
            v == self.view_layer(),
    {
        self.view
    }

    /// Puts a layer on top.
    pub fn add_layer(&mut self, id: u64)
        ensures
            final(self).layers() == old(self).layers().push(id),
            final(self).view_layer() == old(self).view_layer(),
    {
        self.layers.push(id);
    }

    /// Removes every occurrence of a layer; the others keep their order.
    pub fn remove_layer(&mut self, id: u64)
        ensures
            final(self).layers() == without(old(self).layers(), id),
            final(self).view_layer() == old(self).view_layer(),
    {
        let mut kept: Vec<u64> = Vec::new();
        let mut i: usize = 0;
        while i < self.layers.len()
            invariant
                i <= self.layers.len(),
                kept@ == without(self.layers@.subrange(0, i as int), id),
            decreases self.layers.len() - i,
        {
            let x = self.layers[i];
            proof {
                assert(self.layers@.subrange(0, i + 1) == self.layers@.subrange(0, i as int).push(
                    x,
                ));
                lemma_without_push(self.layers@.subrange(0, i as int), x, id);
            }
            if x != id {
                kept.push(x);
            }
            i = i + 1;
        }
        assert(self.layers@.subrange(0, self.layers.len() as int) == self.layers@);
        self.layers = kept;
    }

    /// Shows a new view: the layer of the previous view is removed and the new one put on top.
    pub fn set_vm(&mut self, view: u64)
        ensures
            final(self).view_layer() == Some(view),
            final(self).layers() == (match old(self).view_layer() {
                Some(v) => without(old(self).layers(), v),
                None => old(self).layers(),
            }).push(view),
    {
        match self.view {
            Some(v) => {
                self.remove_layer(v);
            },
            None => {},
        }
        self.add_layer(view);
        self.view = Some(view);
    }
}

/// A layer added and removed again leaves the layers as they were, when it was not there
/// before (a popup opened and closed, a dialog shown and answered).
pub proof fn lemma_add_then_remove_restores(layers: Seq<u64>, id: u64)
    requires
        !layers.contains(id),
    ensures
        without(layers.push(id), id) == layers,
{
    lemma_without_push(layers, id, id);
    lemma_without_absent(layers, id);
}

/// After a view is set, it is the top layer, and the previous view (when another) is gone.
pub proof fn lemma_set_vm_replaces_view(layers: Seq<u64>, old_view: u64, view: u64)
    requires
        old_view != view,
    ensures
        without(layers, old_view).push(view).last() == view,
        !without(layers, old_view).push(view).contains(old_view),
{
    lemma_without_removes(layers, old_view);
    let w = without(layers, old_view);
    if w.push(view).contains(old_view) {
        let k = choose|k: int| 0 <= k < w.push(view).len() && w.push(view)[k] == old_view;
        assert(k < w.len());
        assert(w[k] == old_view);
    }
}

/// The windows of an application, each under the id it was registered with. Ids are handed out
/// from 1 upward and never reused.
pub struct WindowRegistry<T> {
    next_window_id: i64,
    windows: HashMap<i64, T>,
}

impl<T> WindowRegistry<T> {
    #[verifier::type_invariant]
    spec fn registry_wf(self) -> bool {
        &&& 1 <= self.next_window_id
        &&& forall|k: i64| #[trigger] self.windows@.contains_key(k) ==> 1 <= k < self.next_window_id
    }

    /// The id the next window gets.
    pub closed spec fn next_id(&self) -> i64 {
        self.next_window_id
    }

    /// The registered windows by id.
    pub closed spec fn windows(&self) -> Map<i64, T> {
        self.windows@
    }

    /// No window yet; the first gets id 1.
    pub fn new() -> (r: Self)
        ensures
            r.next_id() == 1,
            r.windows() == Map::<i64, T>::empty(),
    {
        WindowRegistry { next_window_id: 1, windows: HashMap::new() }
    }

    /// The id the next window gets.
    pub fn get_next_window_id(&self) -> (id: i64)
        ensures
            id == self.next_id(),
    {
        self.next_window_id
    }

    /// Registers a window under a fresh id and returns the id.
    pub fn register(&mut self, data: T) -> (id: i64)
        requires
            old(self).next_id() < i64::MAX,
        ensures
            id == old(self).next_id(),
            !old(self).windows().contains_key(id),
            final(self).windows() == old(self).windows().insert(id, data),
            final(self).next_id() == old(self).next_id() + 1,
    {
        proof {
            use_type_invariant(&*self);
        }
        let id = self.next_window_id;
        let mut windows = HashMap::new();
        std::mem::swap(&mut windows, &mut self.windows);
        windows.insert(id, data);
        self.next_window_id = id + 1;
        self.windows = windows;
        id
    }

    /// The window registered under `id`, if any.
    pub fn get(&self, id: i64) -> (w: Option<&T>)
        ensures
            match w {
                Some(v) => self.windows().contains_key(id) && *v == self.windows()[id],
                None => !self.windows().contains_key(id),
            },
    {
        self.windows.get(&id)
    }

    /// Removes the window registered under `id` and gives it back, if there was one.
    pub fn unregister(&mut self, id: i64) -> (w: Option<T>)
        ensures
            final(self).windows() == old(self).windows().remove(id),
            final(self).next_id() == old(self).next_id(),
            match w {
                Some(v) => old(self).windows().contains_key(id) && v == old(self).windows()[id],
                None => !old(self).windows().contains_key(id),
            },
    {
        proof {
            use_type_invariant(&*self);
        }
        let mut windows = HashMap::new();
        std::mem::swap(&mut windows, &mut self.windows);
        let r = windows.remove(&id);
        self.windows = windows;
        r
    }
}

/// A window registered can be read back under its id until it is removed, and another window
/// registered later gets another id.
pub proof fn lemma_register_then_get<T>(
    before: Map<i64, T>,
    after: Map<i64, T>,
    id: i64,
    data: T,
    other: i64,
)
    requires
        after == before.insert(id, data),
        other != id,
    ensures
        after.contains_key(id),
        after[id] == data,
        after.contains_key(other) == before.contains_key(other),
        before.contains_key(other) ==> after[other] == before[other],
{
}

} // verus!
