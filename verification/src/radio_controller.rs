use vstd::prelude::*;

verus! {

/// One element of a radio group: the identity of the control (the same control may appear
/// more than once) and whether it is checked.
#[derive(PartialEq, Eq, Structural, Clone, Copy, Debug)]
pub struct RadioElement {
    pub id: u64,
    pub is_checked: bool,
}

/// Occurrences of one control agree on whether it is checked.
pub open spec fn radio_consistent(els: Seq<RadioElement>) -> bool {
    forall|i: int, j: int|
        0 <= i < els.len() && 0 <= j < els.len() && (#[trigger] els[i]).id == (#[trigger] els[j]).id
            ==> els[i].is_checked == els[j].is_checked
}

/// At most one control of the group is checked.
pub open spec fn radio_exclusive(els: Seq<RadioElement>) -> bool {
    forall|i: int, j: int|
        0 <= i < els.len() && 0 <= j < els.len() && (#[trigger] els[i]).is_checked
            && (#[trigger] els[j]).is_checked ==> els[i].id == els[j].id
}

pub open spec fn radio_any_checked(els: Seq<RadioElement>) -> bool {
    exists|i: int| 0 <= i < els.len() && (#[trigger] els[i]).is_checked
}

/// Control `id` is checked and every other control is unchecked.
pub open spec fn radio_only(els: Seq<RadioElement>, id: u64) -> Seq<RadioElement> {
    Seq::new(els.len(), |i: int| RadioElement { id: els[i].id, is_checked: els[i].id == id })
}

/// Sets control `id` to `value` everywhere it occurs.
pub open spec fn radio_assign(els: Seq<RadioElement>, id: u64, value: bool) -> Seq<RadioElement> {
    Seq::new(
        els.len(),
        |i: int|
            RadioElement {
                id: els[i].id,
                is_checked: if els[i].id == id {
                    value
                } else {
                    els[i].is_checked
                },
            },
    )
}

/// Whether setting control `id` to checked changes it (it occurs, unchecked).
pub open spec fn radio_becomes_checked(els: Seq<RadioElement>, id: u64) -> bool {
    exists|i: int| 0 <= i < els.len() && (#[trigger] els[i]).id == id && !els[i].is_checked
}

/// Setting the checked state of control `id`: when it becomes checked, every other control is
/// unchecked; otherwise only its own state is set.
pub open spec fn radio_set_checked(els: Seq<RadioElement>, id: u64, value: bool) -> Seq<
    RadioElement,
> {
    if value && radio_becomes_checked(els, id) {
        radio_only(els, id)
    } else {
        radio_assign(els, id, value)
    }
}

/// The group that the controller makes of `els`: when no control is checked, the first one
/// gets checked.
pub open spec fn radio_initial(els: Seq<RadioElement>) -> Seq<RadioElement> {
    if els.len() > 0 && !radio_any_checked(els) {
        radio_only(els, els[0].id)
    } else {
        els
    }
}

/// An element added to an empty group becomes checked.
pub open spec fn radio_added(empty_before: bool, el: RadioElement) -> RadioElement {
    if empty_before {
        RadioElement { id: el.id, is_checked: true }
    } else {
        el
    }
}

/// Keeps a radio group: checking one control unchecks all the others, and a group that gets
/// its first control (or starts without a checked one) checks it.
pub struct RadioController {
    elements: Vec<RadioElement>,
}

impl RadioController {
    #[verifier::type_invariant]
    closed spec fn inv(self) -> bool {
        radio_consistent(self.elements@)
    }

    /// The elements of the group, in order.
    pub closed spec fn elements(self) -> Seq<RadioElement> {
        self.elements@
    }

    /// The elements of the group.
    pub fn get_elements(&self) -> (r: &Vec<RadioElement>)
        ensures
            r@ == self.elements(),
    {
        &self.elements
    }

    fn rebuild(els: &Vec<RadioElement>, id: u64, only: bool, value: bool) -> (r: Vec<
        RadioElement,
    >)
        ensures
            r@ == if only {
                radio_only(els@, id)
            } else {
                radio_assign(els@, id, value)
            },
    {
        let mut r: Vec<RadioElement> = Vec::new();
        for i in 0..els.len()
            invariant
                r@ == (if only {
                    radio_only(els@, id)
                } else {
                    radio_assign(els@, id, value)
                }).take(i as int),
        {
            let e = els[i];
            let checked = if only {
                e.id == id
            } else if e.id == id {
                value
            } else {
                e.is_checked
            };
            r.push(RadioElement { id: e.id, is_checked: checked });
            assert((if only {
                radio_only(els@, id)
            } else {
                radio_assign(els@, id, value)
            }).take(i + 1) == (if only {
                radio_only(els@, id)
            } else {
                radio_assign(els@, id, value)
            }).take(i as int).push(RadioElement { id: e.id, is_checked: checked }));
        }
        assert((if only {
            radio_only(els@, id)
        } else {
            radio_assign(els@, id, value)
        }).take(els.len() as int) == (if only {
            radio_only(els@, id)
        } else {
            radio_assign(els@, id, value)
        }));
        r
    }

    fn set_checked_in(els: &Vec<RadioElement>, id: u64, value: bool) -> (r: Vec<RadioElement>)
        ensures
            r@ == radio_set_checked(els@, id, value),
    {
        let mut becomes = false;
        let mut i: usize = 0;
        while i < els.len()
            invariant
                i <= els.len(),
                becomes == exists|k: int| 0 <= k < i && (#[trigger] els@[k]).id == id && !els@[k].is_checked,
            decreases els.len() - i,
        {
            if els[i].id == id && !els[i].is_checked {
                becomes = true;
            }
            i += 1;
        }
        Self::rebuild(els, id, value && becomes, value)
    }

    /// A controller over `elements`, whose occurrences of one control must agree; when no
    /// control is checked, the first one gets checked.
    pub fn new(elements: Vec<RadioElement>) -> (c: Self)
        requires
            radio_consistent(elements@),
        ensures
            c.elements() == radio_initial(elements@),
    {
        let mut any = false;
        let mut i: usize = 0;
        while i < elements.len()
            invariant
                i <= elements.len(),
                any == exists|k: int| 0 <= k < i && (#[trigger] elements@[k]).is_checked,
            decreases elements.len() - i,
        {
            if elements[i].is_checked {
                any = true;
            }
            i += 1;
        }
        if !any && elements.len() > 0 {
            let els = Self::rebuild(&elements, elements[0].id, true, true);
            RadioController { elements: els }
        } else {
            RadioController { elements }
        }
    }

    /// Sets the checked state of control `id` (every occurrence); when it becomes checked,
    /// every other control of the group is unchecked.
    pub fn set_is_checked(&mut self, id: u64, value: bool)
        ensures
            final(self).elements() == radio_set_checked(old(self).elements(), id, value),
    {
        proof {
            use_type_invariant(&*self);
        }
        let els = Self::set_checked_in(&self.elements, id, value);
        let ghost old_els = self.elements@;
        assert forall|i: int, j: int|
            0 <= i < els@.len() && 0 <= j < els@.len() && (#[trigger] els@[i]).id == (
            #[trigger] els@[j]).id implies els@[i].is_checked == els@[j].is_checked by {
            assert(old_els[i].id == old_els[j].id);
        }
        *self = RadioController { elements: els };
    }

    /// Inserts an element at `index`; into an empty group it comes checked.
    pub fn insert_at(&mut self, index: usize, el: RadioElement)
        requires
            index <= old(self).elements().len(),
            forall|j: int|
                0 <= j < old(self).elements().len() && (#[trigger] old(self).elements()[j]).id
                    == el.id ==> old(self).elements()[j].is_checked == el.is_checked,
        ensures
            final(self).elements() == old(self).elements().insert(
                index as int,
                radio_added(old(self).elements().len() == 0, el),
            ),
    {
        proof {
            use_type_invariant(&*self);
        }
        let added = if self.elements.len() == 0 {
            RadioElement { id: el.id, is_checked: true }
        } else {
            el
        };
        let mut els = self.elements.clone();
        els.insert(index, added);
        let ghost old_els = self.elements@;
        assert forall|i: int, j: int|
            0 <= i < els@.len() && 0 <= j < els@.len() && (#[trigger] els@[i]).id == (
            #[trigger] els@[j]).id implies els@[i].is_checked == els@[j].is_checked by {
            let oi = if i < index {
                i
            } else {
                i - 1
            };
            let oj = if j < index {
                j
            } else {
                j - 1
            };
            if i != index as int {
                assert(els@[i] == old_els[oi]);
            }
            if j != index as int {
                assert(els@[j] == old_els[oj]);
            }
        }
        *self = RadioController { elements: els };
    }

    /// Appends an element; into an empty group it comes checked.
    pub fn push(&mut self, el: RadioElement)
        requires
            forall|j: int|
                0 <= j < old(self).elements().len() && (#[trigger] old(self).elements()[j]).id
                    == el.id ==> old(self).elements()[j].is_checked == el.is_checked,
        ensures
            final(self).elements() == old(self).elements().push(
                radio_added(old(self).elements().len() == 0, el),
            ),
    {
        let len = self.elements.len();
        self.insert_at(len, el);
        assert(old(self).elements().insert(
            len as int,
            radio_added(len == 0, el),
        ) == old(self).elements().push(radio_added(len == 0, el)));
    }

    /// Removes the element at `index`.
    pub fn remove_at(&mut self, index: usize)
        requires
            index < old(self).elements().len(),
        ensures
            final(self).elements() == old(self).elements().remove(index as int),
    {
        proof {
            use_type_invariant(&*self);
        }
        let mut els = self.elements.clone();
        els.remove(index);
        let ghost old_els = self.elements@;
        assert forall|i: int, j: int|
            0 <= i < els@.len() && 0 <= j < els@.len() && (#[trigger] els@[i]).id == (
            #[trigger] els@[j]).id implies els@[i].is_checked == els@[j].is_checked by {
            let oi = if i < index {
                i
            } else {
                i + 1
            };
            let oj = if j < index {
                j
            } else {
                j + 1
            };
            assert(els@[i] == old_els[oi]);
            assert(els@[j] == old_els[oj]);
        }
        *self = RadioController { elements: els };
    }

    /// Removes the last element, if any.
    pub fn pop(&mut self)
        ensures
            final(self).elements() == if old(self).elements().len() == 0 {
                old(self).elements()
            } else {
                old(self).elements().drop_last()
            },
    {
        let len = self.elements.len();
        if len > 0 {
            self.remove_at(len - 1);
            assert(old(self).elements().remove(len - 1) == old(self).elements().drop_last());
        }
    }

    /// Moves the element at `old_index` to `new_index`.
    pub fn move_item(&mut self, old_index: usize, new_index: usize)
        requires
            old_index < old(self).elements().len(),
            new_index < old(self).elements().len(),
        ensures
            final(self).elements() == old(self).elements().remove(old_index as int).insert(
                new_index as int,
                old(self).elements()[old_index as int],
            ),
    {
        proof {
            use_type_invariant(&*self);
        }
        let el = self.elements[old_index];
        self.remove_at(old_index);
        proof {
            use_type_invariant(&*self);
        }
        let ghost e = self.elements@;
        assert forall|j: int| 0 <= j < e.len() && (#[trigger] e[j]).id == el.id implies e[j].is_checked
            == el.is_checked by {
            let oj = if j < old_index {
                j
            } else {
                j + 1
            };
            assert(e[j] == old(self).elements()[oj]);
        }
        if self.elements.len() == 0 {
            // The group held only this element: it comes back unchanged.
            let mut els = self.elements.clone();
            els.insert(new_index, el);
            *self = RadioController { elements: els };
        } else {
            self.insert_at(new_index, el);
        }
    }

    /// Removes every element.
    pub fn clear(&mut self)
        ensures
            final(self).elements() == Seq::<RadioElement>::empty(),
    {
        *self = RadioController { elements: Vec::new() };
    }
}

/// Checking a control that was unchecked leaves it the only checked control of the group.
pub proof fn lemma_check_is_exclusive(els: Seq<RadioElement>, id: u64, i: int)
    requires
        radio_consistent(els),
        0 <= i < els.len(),
        els[i].id == id,
        !els[i].is_checked,
    ensures
        radio_exclusive(radio_set_checked(els, id, true)),
        forall|j: int|
            0 <= j < els.len() ==> ((#[trigger] radio_set_checked(els, id, true)[j]).is_checked
                <==> els[j].id == id),
{
    assert(radio_becomes_checked(els, id));
}

/// A non-empty group that the controller starts has a checked control, and exactly one when
/// none was checked before.
pub proof fn lemma_initial_has_checked(els: Seq<RadioElement>)
    requires
        els.len() > 0,
    ensures
        radio_any_checked(radio_initial(els)),
        !radio_any_checked(els) ==> radio_exclusive(radio_initial(els)),
{
    if !radio_any_checked(els) {
        let r = radio_initial(els);
        assert(r[0].is_checked);
    }
}

/// Unchecking, removing, moving or popping never makes a second control checked.
pub proof fn lemma_exclusive_kept(els: Seq<RadioElement>, id: u64, index: int, new_index: int)
    requires
        radio_exclusive(els),
        0 <= index < els.len(),
        0 <= new_index < els.len(),
    ensures
        radio_exclusive(radio_set_checked(els, id, false)),
        radio_exclusive(els.remove(index)),
        radio_exclusive(els.remove(index).insert(new_index, els[index])),
        radio_exclusive(els.drop_last()),
{
    let a = radio_set_checked(els, id, false);
    assert forall|i: int, j: int|
        0 <= i < a.len() && 0 <= j < a.len() && (#[trigger] a[i]).is_checked
            && (#[trigger] a[j]).is_checked implies a[i].id == a[j].id by {
        assert(els[i].is_checked && els[j].is_checked);
    }
    let r = els.remove(index);
    assert forall|i: int, j: int|
        0 <= i < r.len() && 0 <= j < r.len() && (#[trigger] r[i]).is_checked
            && (#[trigger] r[j]).is_checked implies r[i].id == r[j].id by {
        let oi = if i < index {
            i
        } else {
            i + 1
        };
        let oj = if j < index {
            j
        } else {
            j + 1
        };
        assert(r[i] == els[oi] && r[j] == els[oj]);
    }
    let m = r.insert(new_index, els[index]);
    assert forall|i: int, j: int|
        0 <= i < m.len() && 0 <= j < m.len() && (#[trigger] m[i]).is_checked
            && (#[trigger] m[j]).is_checked implies m[i].id == m[j].id by {
        let oi = if i < new_index {
            i
        } else {
            i - 1
        };
        let oj = if j < new_index {
            j
        } else {
            j - 1
        };
        if i != new_index {
            assert(m[i] == r[oi]);
        }
        if j != new_index {
            assert(m[j] == r[oj]);
        }
        if i != new_index && j != new_index {
            assert(r[oi].is_checked && r[oj].is_checked);
        } else if i != new_index {
            assert(r[oi].is_checked);
            let x = if oi < index {
                oi
            } else {
                oi + 1
            };
            assert(r[oi] == els[x]);
        } else if j != new_index {
            assert(r[oj].is_checked);
            let x = if oj < index {
                oj
            } else {
                oj + 1
            };
            assert(r[oj] == els[x]);
        }
    }
    let d = els.drop_last();
    assert forall|i: int, j: int|
        0 <= i < d.len() && 0 <= j < d.len() && (#[trigger] d[i]).is_checked
            && (#[trigger] d[j]).is_checked implies d[i].id == d[j].id by {
        assert(d[i] == els[i] && d[j] == els[j]);
    }
}

} // verus!
