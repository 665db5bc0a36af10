use vstd::prelude::*;
use crate::window::{WindowLayers, without};

verus! {

/// A message with a row of buttons; it answers with the index of the button clicked.
pub struct MessageBox {
    message: String,
    buttons: Vec<String>,
}

/// The views of a vector of strings.
pub open spec fn texts_of(v: Seq<String>) -> Seq<Seq<char>> {
    v.map_values(|s: String| s@)
}

impl MessageBox {
    pub closed spec fn message_spec(&self) -> Seq<char> {
        self.message@
    }

    pub closed spec fn buttons_spec(&self) -> Seq<Seq<char>> {
        texts_of(self.buttons@)
    }

    /// A message box with no button yet.
    pub fn new(message: &str) -> (m: Self)
        ensures
            m.message_spec() == message@,
            m.buttons_spec() == Seq::<Seq<char>>::empty(),
    {
        let m = MessageBox { message: message.to_owned(), buttons: Vec::new() };
        assert(texts_of(m.buttons@) =~= Seq::<Seq<char>>::empty());
        m
    }

    /// The same message box with one more button, placed last.
    pub fn with_button(self, text: &str) -> (m: Self)
        ensures
            m.message_spec() == self.message_spec(),
            m.buttons_spec() == self.buttons_spec().push(text@),
    {
        let mut m = self;
        let ghost before = m.buttons@;
        m.buttons.push(text.to_owned());
        assert(texts_of(m.buttons@) =~= texts_of(before).push(text@));
        m
    }

    /// The message.
    pub fn get_message(&self) -> (s: &String)
        ensures
            s@ == self.message_spec(),
    {
        &self.message
    }

    /// The button texts, in order.
    pub fn get_buttons(&self) -> (b: &Vec<String>)
        ensures
            texts_of(b@) == self.buttons_spec(),
    {
        &self.buttons
    }

    /// Shows the message box as the window layer `layer`, on top of the others.
    pub fn show(self, layer: u64, layers: &mut WindowLayers) -> (d: ShownMessageBox)
        ensures
            final(layers).layers() == old(layers).layers().push(layer),
            final(layers).view_layer() == old(layers).view_layer(),
            d.layer_spec() == layer,
            d.button_count_spec() == self.buttons_spec().len(),
            !d.is_answered_spec(),
    {
        layers.add_layer(layer);
        ShownMessageBox { layer, button_count: self.buttons.len(), answered: false }
    }
}

/// A message box on screen, waiting for a click.
pub struct ShownMessageBox {
    layer: u64,
    button_count: usize,
    answered: bool,
}

impl ShownMessageBox {
    pub closed spec fn layer_spec(&self) -> u64 {
        self.layer
    }

    pub closed spec fn button_count_spec(&self) -> nat {
        self.button_count as nat
    }

    pub closed spec fn is_answered_spec(&self) -> bool {
        self.answered
    }

    /// Whether a button was clicked.
    pub fn is_answered(&self) -> (b: bool)
        ensures
            b == self.is_answered_spec(),
    {
        self.answered
    }

    /// A click on the button at `index`: the message box leaves the window and answers with the
    /// index.
    pub fn click(&mut self, index: usize, layers: &mut WindowLayers) -> (answer: i32)
        requires
            !old(self).is_answered_spec(),
            index < old(self).button_count_spec(),
            index <= i32::MAX,
        ensures
            answer == index,
            final(self).is_answered_spec(),
            final(self).layer_spec() == old(self).layer_spec(),
            final(self).button_count_spec() == old(self).button_count_spec(),
            final(layers).layers() == without(old(layers).layers(), old(self).layer_spec()),
            final(layers).view_layer() == old(layers).view_layer(),
    {
        layers.remove_layer(self.layer);
        self.answered = true;
        index as i32
    }
}

/// A message and a text box with Cancel and OK buttons; it answers with the text on OK and with
/// nothing on Cancel.
pub struct InputDialog {
    message: String,
}

impl InputDialog {
    pub closed spec fn message_spec(&self) -> Seq<char> {
        self.message@
    }

    /// An input dialog showing `message`.
    pub fn new(message: &str) -> (d: Self)
        ensures
            d.message_spec() == message@,
    {
        InputDialog { message: message.to_owned() }
    }

    /// The message.
    pub fn get_message(&self) -> (s: &String)
        ensures
            s@ == self.message_spec(),
    {
        &self.message
    }

    /// Shows the dialog as the window layer `layer` with `initial_text` in its text box.
    pub fn get_text(self, initial_text: &str, layer: u64, layers: &mut WindowLayers) -> (d:
        ShownInputDialog)
        ensures
            final(layers).layers() == old(layers).layers().push(layer),
            final(layers).view_layer() == old(layers).view_layer(),
            d.layer_spec() == layer,
            d.text_spec() == initial_text@,
            !d.is_password_spec(),
            !d.is_answered_spec(),
    {
        layers.add_layer(layer);
        ShownInputDialog {
            layer,
            text: initial_text.to_owned(),
            is_password: false,
            answered: false,
        }
    }

    /// Shows the dialog as the window layer `layer` with an empty text box that hides what is
    /// typed.
    pub fn get_password(self, layer: u64, layers: &mut WindowLayers) -> (d: ShownInputDialog)
        ensures
            final(layers).layers() == old(layers).layers().push(layer),
            final(layers).view_layer() == old(layers).view_layer(),
            d.layer_spec() == layer,
            d.text_spec() == Seq::<char>::empty(),
            d.is_password_spec(),
            !d.is_answered_spec(),
    {
        layers.add_layer(layer);
        ShownInputDialog { layer, text: String::new(), is_password: true, answered: false }
    }
}

/// An input dialog on screen with the current text of its text box.
pub struct ShownInputDialog {
    layer: u64,
    text: String,
    is_password: bool,
    answered: bool,
}

impl ShownInputDialog {
    pub closed spec fn layer_spec(&self) -> u64 {
        self.layer
    }

    pub closed spec fn text_spec(&self) -> Seq<char> {
        self.text@
    }

    pub closed spec fn is_password_spec(&self) -> bool {
        self.is_password
    }

    pub closed spec fn is_answered_spec(&self) -> bool {
        self.answered
    }

    /// The current text.
    pub fn get_text(&self) -> (s: &String)
        ensures
            s@ == self.text_spec(),
    {
        &self.text
    }

    /// Whether the text box hides what is typed.
    pub fn is_password(&self) -> (b: bool)
        ensures
            b == self.is_password_spec(),
    {
        self.is_password
    }

    /// The text box's text changed.
    pub fn set_text(&mut self, text: String)
        ensures
            final(self).text_spec() == text@,
            final(self).layer_spec() == old(self).layer_spec(),
            final(self).is_password_spec() == old(self).is_password_spec(),
            final(self).is_answered_spec() == old(self).is_answered_spec(),
    {
        self.text = text;
    }

    /// A click on OK (`ok`) or Cancel: the dialog leaves the window and answers with its text on
    /// OK, with nothing on Cancel.
    pub fn click(&mut self, ok: bool, layers: &mut WindowLayers) -> (answer: Option<String>)
        requires
            !old(self).is_answered_spec(),
        ensures
            ok ==> answer.is_some() && answer.unwrap()@ == old(self).text_spec(),
            !ok ==> answer.is_none(),
            final(self).is_answered_spec(),
            final(self).layer_spec() == old(self).layer_spec(),
            final(layers).layers() == without(old(layers).layers(), old(self).layer_spec()),
            final(layers).view_layer() == old(layers).view_layer(),
    {
        layers.remove_layer(self.layer);
        self.answered = true;
        if ok {
            Some(self.text.clone())
        } else {
            None
        }
    }
}

} // verus!
