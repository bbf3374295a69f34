//! A field that holds free text.

use crate::control::Control;
use crate::key::{KeyCode, KeyEvent};
use crate::model::Model;
use crate::surface::{Emphasis, Rect, Scene, Span, text_spans};
use std::ops::ControlFlow;
use vstd::prelude::*;
use vstd::string::StringExecFns;

verus! {

/// `String::push` appends the given character to the end of the string.
pub assume_specification[ String::push ](s: &mut String, ch: char)
    ensures
        final(s)@ == old(s)@.push(ch),
;

/// `String::pop` removes the last character of the string and returns it,
/// and returns `None` and leaves the string as it is where it is empty.
pub assume_specification[ String::pop ](s: &mut String) -> (last: Option<char>)
    ensures
        old(s)@.len() == 0 ==> last is None && final(s)@ == old(s)@,
        old(s)@.len() > 0 ==> last == Some(old(s)@.last()) && final(s)@ == old(s)@.drop_last(),
;

/// A text field: a label, the text typed so far, and whether the field
/// holds the focus.
#[derive(Debug)]
pub struct TextField {
    name: &'static str,
    value: String,
    is_focused: bool,
}

impl TextField {
    /// An empty field without focus.
    pub fn new(name: &'static str) -> (field: TextField)
        ensures
            field.model() == (Model::Text {
                label: name@,
                value: Seq::<char>::empty(),
                focused: false,
            }),
    {
        TextField { name, value: String::new(), is_focused: false }
    }

    /// A field without focus that holds `value` to begin with.
    pub fn with_default_value(name: &'static str, value: String) -> (field: TextField)
        ensures
            field.model() == (Model::Text { label: name@, value: value@, focused: false }),
    {
        TextField { name, value, is_focused: false }
    }

    /// The label of the field.
    pub fn name(&self) -> (name: &'static str)
        ensures
            self.model() matches Model::Text { label, .. } && name@ == label,
    {
        self.name
    }

    /// The text that the field holds.
    pub fn value(&self) -> (value: &str)
        ensures
            self.model() matches Model::Text { value: v, .. } && value@ == v,
    {
        self.value.as_str()
    }

    /// The model of the field is that of a text field.
    pub proof fn lemma_kind(&self)
        ensures
            self.model() is Text,
    {
    }

    /// Whether the field holds the focus.
    pub fn is_focused(&self) -> (focused: bool)
        ensures
            focused == self.model().focused(),
    {
        self.is_focused
    }
}

impl Control for TextField {
    closed spec fn model(&self) -> Model {
        Model::Text { label: self.name@, value: self.value@, focused: self.is_focused }
    }

    /// The label, a colon and a blank, bold while the field holds the
    /// focus, and the value after them.
    fn render(&self, area: Rect) -> (scene: Scene) {
        let mut label = String::from_str(self.name);
        label.append(": ");
        let emphasis = if self.is_focused {
            Emphasis::Bold
        } else {
            Emphasis::Normal
        };
        let mut spans: Vec<Span> = Vec::new();
        spans.push(Span::new(label, emphasis));
        spans.push(Span::new(self.value.clone(), Emphasis::Normal));
        let scene = Scene::Line { area, spans };
        proof {
            assert(scene@->spans =~= text_spans(self.name@, self.value@, self.is_focused));
        }
        scene
    }

    fn focus(&mut self) {
        self.is_focused = true;
    }

    fn blur(&mut self) {
        self.is_focused = false;
    }

    /// A character is appended to the value and the erase key removes its
    /// last character, if it has one; both are consumed. Any other key is
    /// handed back.
    fn handle_key_event(&mut self, key: KeyEvent) -> (flow: ControlFlow<()>) {
        match key.code {
            KeyCode::Char(c) => {
                self.value.push(c);
                ControlFlow::Break(())
            },
            KeyCode::Backspace => {
                self.value.pop();
                ControlFlow::Break(())
            },
            _ => ControlFlow::Continue(()),
        }
    }
}

} // verus!
