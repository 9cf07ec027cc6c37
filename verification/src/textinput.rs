//! The single-line text-capture widget that the tag popup composes: it owns
//! the visibility state and the text buffer, and handles the editing keys
//! itself (characters, backspace, and the cancel key).

use vstd::prelude::*;

use crate::command::CommandInfo;
use crate::command::CommandInfoView;
use crate::events::InputEvent;
use crate::events::KeyCode;
use crate::ShowError;

verus! {

/// Relies on `alloc::string::String::push`: appends the given character to
/// the end of the string.
pub assume_specification[ String::push ](s: &mut String, ch: char)
    ensures
        final(s)@ == old(s)@.push(ch),
;

/// Relies on `alloc::string::String::pop`: removes the last character from
/// the string and returns it, or returns `None` if the string is empty.
pub assume_specification[ String::pop ](s: &mut String) -> (r: Option<char>)
    ensures
        old(s)@.len() == 0 ==> r is None && final(s)@ == old(s)@,
        old(s)@.len() > 0 ==> r == Some(old(s)@.last()) && final(s)@ == old(s)@.drop_last(),
;

/// Relies on `alloc::string::String::clear`: truncates the string, removing
/// all contents.
pub assume_specification[ String::clear ](s: &mut String)
    ensures
        final(s)@ == Seq::<char>::empty(),
;

/// The mathematical value of the widget: its visibility and the text
/// captured so far. The title and the placeholder hint take no part in the
/// widget's behaviour.
pub struct TextInputView {
    pub visible: bool,
    pub text: Seq<char>,
}

/// The text that the close hint of the widget carries.
pub open spec fn close_popup_name() -> Seq<char> {
    "close popup"@
}

/// Which events the widget claims for itself: while visible, it consumes
/// every character, the backspace key and the cancel key.
pub open spec fn text_input_claims(v: TextInputView, ev: InputEvent) -> bool {
    v.visible && (ev matches InputEvent::Key(code) && (code is Char || code is Backspace
        || code is Esc))
}

/// The widget's value after an event it claims: a character is appended,
/// backspace drops the last character, and the cancel key hides the widget.
pub open spec fn text_input_step(v: TextInputView, ev: InputEvent) -> TextInputView {
    match ev {
        InputEvent::Key(KeyCode::Char(c)) => TextInputView {
            visible: v.visible,
            text: v.text.push(c),
        },
        InputEvent::Key(KeyCode::Backspace) => TextInputView {
            visible: v.visible,
            text: if v.text.len() > 0 {
                v.text.drop_last()
            } else {
                v.text
            },
        },
        InputEvent::Key(KeyCode::Esc) => TextInputView { visible: false, text: v.text },
        _ => v,
    }
}

/// A single-line text entry with a visibility state.
pub struct TextInputComponent {
    visible: bool,
    text: String,
    title: String,
    default_msg: String,
}

impl View for TextInputComponent {
    type V = TextInputView;

    closed spec fn view(&self) -> TextInputView {
        TextInputView { visible: self.visible, text: self.text@ }
    }
}

impl TextInputComponent {
    /// Creates a hidden widget with an empty buffer. The title and the
    /// placeholder hint are kept for the host to draw.
    pub fn new(title: &str, default_msg: &str) -> (r: TextInputComponent)
        ensures
            r@ == (TextInputView { visible: false, text: Seq::<char>::empty() }),
    {
        TextInputComponent {
            visible: false,
            text: String::new(),
            title: title.to_owned(),
            default_msg: default_msg.to_owned(),
        }
    }

    /// Whether the widget is currently shown.
    pub fn is_visible(&self) -> (b: bool)
        ensures
            b == self@.visible,
    {
        self.visible
    }

    /// Makes the widget visible; the buffer is kept.
    pub fn show(&mut self) -> (r: Result<(), ShowError>)
        ensures
            r is Ok,
            final(self)@ == (TextInputView { visible: true, text: old(self)@.text }),
    {
        self.visible = true;
        Ok(())
    }

    /// Closes the widget, making it invisible; the buffer is kept.
    pub fn close(&mut self)
        ensures
            final(self)@ == (TextInputView { visible: false, text: old(self)@.text }),
    {
        self.visible = false;
    }

    /// The text captured so far.
    pub fn get_text(&self) -> (r: &String)
        ensures
            r@ == self@.text,
    {
        &self.text
    }

    /// Empties the buffer; the visibility is kept.
    pub fn clear(&mut self)
        ensures
            final(self)@ == (TextInputView {
                visible: old(self)@.visible,
                text: Seq::<char>::empty(),
            }),
    {
        self.text.clear();
    }

    /// The title the widget was created with.
    pub fn title(&self) -> &String {
        &self.title
    }

    /// The placeholder hint shown while the buffer is empty.
    pub fn default_msg(&self) -> &String {
        &self.default_msg
    }

    /// Offers an event to the widget. It consumes exactly the events of
    /// [`text_input_claims`] and then steps as [`text_input_step`] says;
    /// any other event leaves it unchanged.
    pub fn event(&mut self, ev: InputEvent) -> (r: Result<bool, ShowError>)
        ensures
            r == Ok::<bool, ShowError>(text_input_claims(old(self)@, ev)),
            text_input_claims(old(self)@, ev) ==> final(self)@ == text_input_step(
                old(self)@,
                ev,
            ),
            !text_input_claims(old(self)@, ev) ==> final(self)@ == old(self)@,
    {
        if self.visible {
            if let InputEvent::Key(code) = ev {
                match code {
                    KeyCode::Char(c) => {
                        self.text.push(c);
                        return Ok(true);
                    },
                    KeyCode::Backspace => {
                        let _ = self.text.pop();
                        return Ok(true);
                    },
                    KeyCode::Esc => {
                        self.visible = false;
                        return Ok(true);
                    },
                    _ => {
                        return Ok(false);
                    },
                }
            }
        }
        Ok(false)
    }

    /// Appends the widget's own command hint: closing the popup, offered as
    /// available exactly while the widget is visible.
    pub fn commands(&self, out: &mut Vec<CommandInfo>, _force_all: bool)
        ensures
            final(out)@.len() == old(out)@.len() + 1,
            forall|i: int| 0 <= i < old(out)@.len() ==> final(out)@[i] == old(out)@[i],
            final(out)@.last()@ == (CommandInfoView {
                name: close_popup_name(),
                enabled: true,
                available: self@.visible,
            }),
    {
        let hint = CommandInfo::new("close popup", true, self.visible);
        out.push(hint);
    }
}

} // verus!
