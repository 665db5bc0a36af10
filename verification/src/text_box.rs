use vstd::prelude::*;

use crate::text_buffer::{
    chars_of, string_from_chars, text_backspace, text_delete, text_delete_selected, text_insert,
    text_move_word_left, text_move_word_right, text_select_all, text_selected, text_selection,
    text_set_cursor, text_wf, lemma_reinsert_deleted_selection, TextBuffer, TextState,
};

verus! {

/// The keys that a text box reacts to; every other key is `Other`.
#[derive(PartialEq, Eq, Structural, Clone, Copy, Debug)]
pub enum EditKey {
    Backspace,
    Delete,
    Home,
    End,
    Left,
    Right,
    KeyA,
    KeyC,
    KeyV,
    KeyX,
    Insert,
    Esc,
    Tab,
    Enter,
    Other,
}

/// A pressed key: its code (if the system gave one), the modifiers and the text it types.
pub struct KeyPress {
    pub keycode: Option<EditKey>,
    pub shift: bool,
    pub ctrl: bool,
    pub text: Option<String>,
}

/// What a text box asks of the clipboard after an event.
pub enum ClipboardRequest {
    /// Nothing.
    Nothing,
    /// Put this text on the clipboard.
    SetText(String),
    /// Read the clipboard and hand its text to `DefaultTextBoxStyle::paste`.
    Paste,
}

/// The clipboard request of an event, as a value of the model.
pub enum ClipboardEffect {
    Nothing,
    SetText(Seq<char>),
    Paste,
}

/// The effect of a pressed key on the buffer: the new state, whether the text box must be
/// brought in sync with the buffer and repainted, and the clipboard request.
pub struct KeyEffect {
    pub state: TextState,
    pub changed: bool,
    pub clipboard: ClipboardEffect,
}

pub open spec fn key_effect(state: TextState, changed: bool, clipboard: ClipboardEffect) -> KeyEffect {
    KeyEffect { state, changed, clipboard }
}

/// Cutting: the selection is removed and put on the clipboard; without a selection nothing
/// happens.
pub open spec fn cut_effect(st: TextState) -> KeyEffect {
    match text_selected(st) {
        Some(t) => key_effect(text_delete_selected(st), true, ClipboardEffect::SetText(t)),
        None => key_effect(st, false, ClipboardEffect::Nothing),
    }
}

/// Copying: the selection is put on the clipboard.
pub open spec fn copy_effect(st: TextState) -> KeyEffect {
    match text_selected(st) {
        Some(t) => key_effect(st, false, ClipboardEffect::SetText(t)),
        None => key_effect(st, false, ClipboardEffect::Nothing),
    }
}

/// The effect of the key itself, or `None` when the key is not one that the text box handles
/// (then the text that the key types is inserted).
pub open spec fn handled_key_effect(
    st: TextState,
    key: Option<EditKey>,
    shift: bool,
    ctrl: bool,
) -> Option<KeyEffect> {
    match key {
        Some(EditKey::Backspace) => Some(
            key_effect(text_backspace(st), true, ClipboardEffect::Nothing),
        ),
        Some(EditKey::Delete) => if shift {
            Some(cut_effect(st))
        } else {
            Some(key_effect(text_delete(st), true, ClipboardEffect::Nothing))
        },
        Some(EditKey::Home) => Some(
            key_effect(text_set_cursor(st, 0, shift), true, ClipboardEffect::Nothing),
        ),
        Some(EditKey::End) => Some(
            key_effect(
                text_set_cursor(st, st.content.len() as int, shift),
                true,
                ClipboardEffect::Nothing,
            ),
        ),
        Some(EditKey::Left) => if ctrl {
            Some(key_effect(text_move_word_left(st, shift), true, ClipboardEffect::Nothing))
        } else {
            let p = if st.cursor > 0 {
                st.cursor - 1
            } else {
                0
            };
            Some(key_effect(text_set_cursor(st, p, shift), true, ClipboardEffect::Nothing))
        },
        Some(EditKey::Right) => if ctrl {
            Some(key_effect(text_move_word_right(st, shift), true, ClipboardEffect::Nothing))
        } else {
            Some(
                key_effect(
                    text_set_cursor(st, st.cursor + 1, shift),
                    true,
                    ClipboardEffect::Nothing,
                ),
            )
        },
        Some(EditKey::KeyA) => if ctrl {
            Some(key_effect(text_select_all(st), true, ClipboardEffect::Nothing))
        } else {
            None
        },
        Some(EditKey::KeyC) => if ctrl {
            Some(copy_effect(st))
        } else {
            None
        },
        Some(EditKey::Insert) => if ctrl {
            Some(copy_effect(st))
        } else if shift {
            Some(key_effect(st, false, ClipboardEffect::Paste))
        } else {
            None
        },
        Some(EditKey::KeyV) => if ctrl {
            Some(key_effect(st, false, ClipboardEffect::Paste))
        } else {
            None
        },
        Some(EditKey::KeyX) => if ctrl {
            Some(cut_effect(st))
        } else {
            None
        },
        Some(EditKey::Esc) | Some(EditKey::Tab) | Some(EditKey::Enter) => Some(
            key_effect(st, false, ClipboardEffect::Nothing),
        ),
        _ => None,
    }
}

/// The effect of a pressed key: the key's own effect, or else (without Ctrl) the insertion of
/// the text that it types.
pub open spec fn text_key_effect(
    st: TextState,
    key: Option<EditKey>,
    shift: bool,
    ctrl: bool,
    text: Option<Seq<char>>,
) -> KeyEffect {
    match handled_key_effect(st, key, shift, ctrl) {
        Some(e) => e,
        None => if !ctrl && text is Some {
            key_effect(text_insert(st, text->0), true, ClipboardEffect::Nothing)
        } else {
            key_effect(st, false, ClipboardEffect::Nothing)
        },
    }
}

pub open spec fn clipboard_matches(r: ClipboardRequest, e: ClipboardEffect) -> bool {
    match (r, e) {
        (ClipboardRequest::Nothing, ClipboardEffect::Nothing) => true,
        (ClipboardRequest::SetText(s), ClipboardEffect::SetText(t)) => s@ == t,
        (ClipboardRequest::Paste, ClipboardEffect::Paste) => true,
        _ => false,
    }
}

/// Events that a text box handles. The position of a tap is turned into a character index by
/// the caller, which lays out the text.
pub enum TextBoxEvent {
    FocusChange(bool),
    HoverChange(bool),
    TapDown { cursor_pos: usize },
    KeyPressed(KeyPress),
    Other,
}

/// How a text box reacts to an event: whether its pixel positions must be brought in sync with
/// the buffer, whether it must be repainted, and what it asks of the clipboard.
pub struct TextBoxReaction {
    pub sync: bool,
    pub dirty: bool,
    pub clipboard: ClipboardRequest,
}

/// Parameters of the default text box style.
pub struct DefaultTextBoxStyleParams {
    /// Show every character as `*`.
    pub password: bool,
}

/// The editing state of a text box: its buffer, whether it is hovered and focused, and whether
/// it hides its text.
pub struct DefaultTextBoxStyle {
    pub password: bool,
    pub buffer: TextBuffer,
    pub is_hover: bool,
    pub is_focused: bool,
}

/// The text that a text box shows: the text, or one `*` per character for a password.
pub open spec fn display_text(content: Seq<char>, password: bool) -> Seq<char> {
    if password {
        Seq::new(content.len(), |i: int| '*')
    } else {
        content
    }
}

impl DefaultTextBoxStyle {
    /// A text box over `text`, neither hovered nor focused.
    pub fn new(params: DefaultTextBoxStyleParams, text: String) -> (s: Self)
        ensures
            s.password == params.password,
            s.buffer@ == (TextState {
                content: text@,
                cursor: text@.len() as int,
                selection_start: text@.len() as int,
            }),
            !s.is_hover,
            !s.is_focused,
    {
        DefaultTextBoxStyle {
            password: params.password,
            buffer: TextBuffer::new(text),
            is_hover: false,
            is_focused: false,
        }
    }

    /// Applies a pressed key to the buffer.
    pub fn handle_key(&mut self, key: &KeyPress) -> (r: TextBoxReaction)
        requires
            key.text is Some ==> old(self).buffer@.content.len() + key.text->0@.len()
                <= usize::MAX,
        ensures
            ({
                let t = match key.text {
                    Some(s) => Some(s@),
                    None => None,
                };
                let e = text_key_effect(old(self).buffer@, key.keycode, key.shift, key.ctrl, t);
                &&& final(self).buffer@ == e.state
                &&& r.sync == e.changed
                &&& r.dirty == e.changed
                &&& clipboard_matches(r.clipboard, e.clipboard)
            }),
            final(self).password == old(self).password,
            final(self).is_hover == old(self).is_hover,
            final(self).is_focused == old(self).is_focused,
    {
        let shift = key.shift;
        let ctrl = key.ctrl;
        let mut changed = false;
        let mut handled = false;
        let mut clipboard = ClipboardRequest::Nothing;
        match key.keycode {
            Some(EditKey::Backspace) => {
                self.buffer.backspace();
                changed = true;
                handled = true;
            },
            Some(EditKey::Delete) => {
                if shift {
                    if let Some(selected) = self.buffer.delete_selected_text() {
                        clipboard = ClipboardRequest::SetText(selected);
                        changed = true;
                    }
                } else {
                    self.buffer.delete();
                    changed = true;
                }
                handled = true;
            },
            Some(EditKey::Home) => {
                self.buffer.set_cursor(0, shift);
                changed = true;
                handled = true;
            },
            Some(EditKey::End) => {
                let len = chars_of(self.buffer.get_text_property().as_str()).len();
                self.buffer.set_cursor(len, shift);
                changed = true;
                handled = true;
            },
            Some(EditKey::Left) => {
                if ctrl {
                    self.buffer.move_word_left(shift);
                } else {
                    let cur = self.buffer.get_cursor();
                    let p = if cur > 0 {
                        cur - 1
                    } else {
                        0
                    };
                    self.buffer.set_cursor(p, shift);
                }
                changed = true;
                handled = true;
            },
            Some(EditKey::Right) => {
                if ctrl {
                    self.buffer.move_word_right(shift);
                } else {
                    let cur = self.buffer.get_cursor();
                    let len = chars_of(self.buffer.get_text_property().as_str()).len();
                    // The cursor never passes the end of the text, so `cur + 1` cannot
                    // overflow; moving to `len + 1` is clamped back to `len`.
                    let p = if cur < len {
                        cur + 1
                    } else {
                        len
                    };
                    self.buffer.set_cursor(p, shift);
                }
                changed = true;
                handled = true;
            },
            Some(EditKey::KeyA) => {
                if ctrl {
                    self.buffer.select_all();
                    changed = true;
                    handled = true;
                }
            },
            Some(EditKey::KeyC) => {
                if ctrl {
                    if let Some(selected) = self.buffer.get_selected_string() {
                        clipboard = ClipboardRequest::SetText(selected);
                    }
                    handled = true;
                }
            },
            Some(EditKey::Insert) => {
                if ctrl {
                    if let Some(selected) = self.buffer.get_selected_string() {
                        clipboard = ClipboardRequest::SetText(selected);
                    }
                    handled = true;
                } else if shift {
                    clipboard = ClipboardRequest::Paste;
                    handled = true;
                }
            },
            Some(EditKey::KeyV) => {
                if ctrl {
                    clipboard = ClipboardRequest::Paste;
                    handled = true;
                }
            },
            Some(EditKey::KeyX) => {
                if ctrl {
                    if let Some(selected) = self.buffer.delete_selected_text() {
                        clipboard = ClipboardRequest::SetText(selected);
                        changed = true;
                    }
                    handled = true;
                }
            },
            Some(EditKey::Esc) | Some(EditKey::Tab) | Some(EditKey::Enter) => {
                handled = true;
            },
            _ => {},
        }
        if !handled && !ctrl {
            if let Some(t) = &key.text {
                self.buffer.insert_str(t.as_str());
                changed = true;
            }
        }
        TextBoxReaction { sync: changed, dirty: changed, clipboard }
    }

    /// Inserts the text read from the clipboard, if there was any; says whether the buffer
    /// changed.
    pub fn paste(&mut self, text: Option<String>) -> (r: bool)
        requires
            text is Some ==> old(self).buffer@.content.len() + text->0@.len() <= usize::MAX,
        ensures
            match text {
                Some(t) => r && final(self).buffer@ == text_insert(old(self).buffer@, t@),
                None => !r && final(self).buffer@ == old(self).buffer@,
            },
            final(self).password == old(self).password,
            final(self).is_hover == old(self).is_hover,
            final(self).is_focused == old(self).is_focused,
    {
        match text {
            Some(t) => {
                self.buffer.insert_str(t.as_str());
                true
            },
            None => false,
        }
    }

    /// Handles an event of the text box.
    pub fn handle_event(&mut self, event: TextBoxEvent) -> (r: TextBoxReaction)
        requires
            event matches TextBoxEvent::KeyPressed(k) ==> (k.text is Some
                ==> old(self).buffer@.content.len() + k.text->0@.len() <= usize::MAX),
        ensures
            final(self).password == old(self).password,
            match event {
                TextBoxEvent::FocusChange(v) => {
                    &&& final(self).is_focused == v
                    &&& final(self).is_hover == old(self).is_hover
                    &&& final(self).buffer@ == old(self).buffer@
                    &&& !r.sync && r.dirty && r.clipboard is Nothing
                },
                TextBoxEvent::HoverChange(v) => {
                    &&& final(self).is_hover == v
                    &&& final(self).is_focused == old(self).is_focused
                    &&& final(self).buffer@ == old(self).buffer@
                    &&& !r.sync && r.dirty && r.clipboard is Nothing
                },
                TextBoxEvent::TapDown { cursor_pos } => {
                    &&& final(self).buffer@ == text_set_cursor(
                        old(self).buffer@,
                        cursor_pos as int,
                        false,
                    )
                    &&& final(self).is_hover == old(self).is_hover
                    &&& final(self).is_focused == old(self).is_focused
                    &&& r.sync && r.dirty && r.clipboard is Nothing
                },
                TextBoxEvent::KeyPressed(k) => {
                    let t = match k.text {
                        Some(s) => Some(s@),
                        None => None,
                    };
                    let e = text_key_effect(old(self).buffer@, k.keycode, k.shift, k.ctrl, t);
                    &&& final(self).buffer@ == e.state
                    &&& final(self).is_hover == old(self).is_hover
                    &&& final(self).is_focused == old(self).is_focused
                    &&& r.sync == e.changed
                    &&& r.dirty == e.changed
                    &&& clipboard_matches(r.clipboard, e.clipboard)
                },
                TextBoxEvent::Other => {
                    &&& final(self).buffer@ == old(self).buffer@
                    &&& final(self).is_hover == old(self).is_hover
                    &&& final(self).is_focused == old(self).is_focused
                    &&& !r.sync && !r.dirty && r.clipboard is Nothing
                },
            },
    {
        match event {
            TextBoxEvent::FocusChange(v) => {
                self.is_focused = v;
                TextBoxReaction { sync: false, dirty: true, clipboard: ClipboardRequest::Nothing }
            },
            TextBoxEvent::HoverChange(v) => {
                self.is_hover = v;
                TextBoxReaction { sync: false, dirty: true, clipboard: ClipboardRequest::Nothing }
            },
            TextBoxEvent::TapDown { cursor_pos } => {
                self.buffer.set_cursor(cursor_pos, false);
                TextBoxReaction { sync: true, dirty: true, clipboard: ClipboardRequest::Nothing }
            },
            TextBoxEvent::KeyPressed(k) => self.handle_key(&k),
            TextBoxEvent::Other => TextBoxReaction {
                sync: false,
                dirty: false,
                clipboard: ClipboardRequest::Nothing,
            },
        }
    }

    /// The text shown: the text itself, or one `*` per character for a password box.
    pub fn get_display_text(&self) -> (r: String)
        ensures
            r@ == display_text(self.buffer@.content, self.password),
    {
        let text = self.buffer.get_text_property();
        if self.password {
            let chars = chars_of(text.as_str());
            let mut masked: Vec<char> = Vec::new();
            for i in 0..chars.len()
                invariant
                    masked@ == Seq::new(i as nat, |j: int| '*'),
            {
                masked.push('*');
            }
            string_from_chars(&masked)
        } else {
            text.clone()
        }
    }
}

/// Cutting puts on the clipboard what copying would, and leaves the text with the selection
/// deleted.
pub proof fn lemma_cut_is_copy_then_delete(st: TextState)
    requires
        text_selection(st) is Some,
    ensures
        cut_effect(st).clipboard == copy_effect(st).clipboard,
        cut_effect(st).state == text_delete_selected(st),
        copy_effect(st).state == st,
{
}

/// Pasting back what was just cut gives back the text.
pub proof fn lemma_paste_after_cut_restores(st: TextState)
    requires
        text_wf(st),
        text_selection(st) is Some,
    ensures
        cut_effect(st).clipboard matches ClipboardEffect::SetText(t) && text_insert(
            cut_effect(st).state,
            t,
        ).content == st.content,
{
    lemma_reinsert_deleted_selection(st);
}

/// A password box shows as many characters as the text has, none of them from the text.
pub proof fn lemma_password_hides_text(content: Seq<char>)
    ensures
        display_text(content, true).len() == content.len(),
        forall|i: int| 0 <= i < content.len() ==> #[trigger] display_text(content, true)[i] == '*',
        display_text(content, false) == content,
{
}

} // verus!
