//! A field that holds one choice out of a fixed list of options.

use crate::control::Control;
use crate::key::{KeyCode, KeyEvent};
use crate::model::Model;
use crate::surface::{Emphasis, Rect, Scene, Span, select_spans};
use std::ops::ControlFlow;
use vstd::prelude::*;
use vstd::string::StringExecFns;

verus! {

/// A select field: a label, the options in their order, the number of the
/// chosen one, and whether the field holds the focus.
#[derive(Debug)]
pub struct SelectField {
    name: &'static str,
    options: Vec<&'static str>,
    index: usize,
    is_focused: bool,
}

/// The options as the contracts see them.
pub open spec fn option_views(options: Seq<&'static str>) -> Seq<Seq<char>> {
    Seq::new(options.len(), |i: int| options[i]@)
}

impl SelectField {
    /// A field without focus, with the first of `options` chosen.
    pub fn new(name: &'static str, options: Vec<&'static str>) -> (field: SelectField)
        requires
            options.len() > 0,
        ensures
            field.model() == (Model::Select {
                label: name@,
                options: option_views(options@),
                index: 0,
                focused: false,
            }),
            field.model().wf(),
    {
        SelectField { name, index: 0, options, is_focused: false }
    }

    /// The chosen option.
    pub fn selected(&self) -> (chosen: Option<&'static str>)
        ensures
            self.model() matches Model::Select { options, index, .. } && match chosen {
                Some(option) => 0 <= index < options.len() && option@ == options[index],
                None => index >= options.len(),
            },
    {
        if self.index < self.options.len() {
            Some(self.options[self.index])
        } else {
            None
        }
    }

    /// The number of the chosen option.
    pub fn selected_index(&self) -> (index: usize)
        ensures
            self.model() matches Model::Select { index: i, .. } && i == index,
    {
        self.index
    }

    /// The number of options.
    pub fn option_count(&self) -> (count: usize)
        ensures
            self.model() matches Model::Select { options, .. } && options.len() == count,
    {
        self.options.len()
    }

    /// The label of the field.
    pub fn name(&self) -> (name: &'static str)
        ensures
            self.model() matches Model::Select { label, .. } && name@ == label,
    {
        self.name
    }

    /// The model of the field is that of a select field.
    pub proof fn lemma_kind(&self)
        ensures
            self.model() is Select,
    {
    }

    /// Whether the field holds the focus.
    pub fn is_focused(&self) -> (focused: bool)
        ensures
            focused == self.model().focused(),
    {
        self.is_focused
    }

    /// Chooses option number `option`, if there is one, and says whether
    /// there was.
    pub fn select(&mut self, option: usize) -> (done: bool)
        ensures
            old(self).model() matches Model::Select { label, options, index, focused } && {
                &&& done == (option < options.len())
                &&& final(self).model() == if done {
                    Model::Select { label, options, index: option as int, focused }
                } else {
                    old(self).model()
                }
            },
    {
        if option < self.options.len() {
            self.index = option;
            true
        } else {
            false
        }
    }
}

impl Control for SelectField {
    closed spec fn model(&self) -> Model {
        Model::Select {
            label: self.name@,
            options: option_views(self.options@),
            index: self.index as int,
            focused: self.is_focused,
        }
    }

    /// The label and a colon, bold while the field holds the focus, then
    /// every option after a blank, the chosen one underlined.
    fn render(&self, area: Rect) -> (scene: Scene) {
        let mut label = String::from_str(self.name);
        label.append(":");
        let emphasis = if self.is_focused {
            Emphasis::Bold
        } else {
            Emphasis::Normal
        };
        let mut spans: Vec<Span> = Vec::new();
        spans.push(Span::new(label, emphasis));
        let ghost wanted = select_spans(
            self.name@,
            option_views(self.options@),
            self.index as int,
            self.is_focused,
        );
        let mut i: usize = 0;
        while i < self.options.len()
            invariant
                i <= self.options.len(),
                spans.len() == 1 + 2 * i,
                wanted == select_spans(
                    self.name@,
                    option_views(self.options@),
                    self.index as int,
                    self.is_focused,
                ),
                forall|k: int| 0 <= k < spans.len() ==> (#[trigger] spans[k])@ == wanted[k],
            decreases self.options.len() - i,
        {
            spans.push(Span::new(String::from_str(" "), Emphasis::Normal));
            let emphasis = if i == self.index {
                Emphasis::Underlined
            } else {
                Emphasis::Normal
            };
            spans.push(Span::new(String::from_str(self.options[i]), emphasis));
            i = i + 1;
        }
        let scene = Scene::Line { area, spans };
        proof {
            assert(scene@->spans =~= wanted);
        }
        scene
    }

    fn focus(&mut self) {
        self.is_focused = true;
    }

    fn blur(&mut self) {
        self.is_focused = false;
    }

    /// The left key chooses the option before the chosen one, and from the
    /// first goes to the last; the right key chooses the one after it, and
    /// from the last goes to the first. Both are consumed. Any other key is
    /// handed back.
    fn handle_key_event(&mut self, key: KeyEvent) -> (flow: ControlFlow<()>) {
        let count = self.options.len();
        match key.code {
            KeyCode::Left => {
                self.index = if self.index == 0 {
                    count - 1
                } else {
                    self.index - 1
                };
                ControlFlow::Break(())
            },
            KeyCode::Right => {
                self.index = if self.index + 1 >= count {
                    0
                } else {
                    self.index + 1
                };
                ControlFlow::Break(())
            },
            _ => ControlFlow::Continue(()),
        }
    }
}

} // verus!
