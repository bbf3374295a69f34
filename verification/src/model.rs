//! The mathematical model of a tree of controls, and what focus, blur and a
//! key event do to it.
//!
//! Every control has a `Model`. The contracts of the executable controls say
//! that a method turns the control's model into the one that the functions
//! here compute; what holds of all trees is proved of these functions.

use crate::key::{KeyCode, KeyEvent};
use crate::slots::{FocusPolicy, backward, forward, nearest_shown, ring_after, ring_before};
use vstd::prelude::*;

verus! {

/// When a slot of a composite is shown.
#[derive(Clone, Copy, Debug, PartialEq, Eq, Structural)]
pub enum Gate {
    /// At all times.
    Always,
    /// While the select field in slot `selector` of the same composite has
    /// its option number `option` chosen.
    When { selector: usize, option: usize },
}

/// One slot of a composite: a child, the rows it takes up, and when it is
/// shown.
pub struct SlotModel {
    pub gate: Gate,
    pub height: u16,
    pub model: Model,
}

/// A control, as the contracts see it.
pub enum Model {
    /// A text field.
    Text { label: Seq<char>, value: Seq<char>, focused: bool },
    /// A select field, with option number `index` chosen.
    Select { label: Seq<char>, options: Seq<Seq<char>>, index: int, focused: bool },
    /// A composite, with focus on slot number `focus`.
    Group { title: Seq<char>, policy: FocusPolicy, focus: int, slots: Seq<SlotModel> },
}

/// Whether slot `i` of `slots` is shown on a select field among them
/// that is itself always shown, and one of its options.
pub open spec fn gate_fits(slots: Seq<SlotModel>, i: int) -> bool {
    match slots[i].gate {
        Gate::Always => true,
        Gate::When { selector, option } => selector < slots.len()
            && slots[selector as int].gate is Always && (
        slots[selector as int].model matches Model::Select { options, .. } && option
            < options.len()),
    }
}

impl SlotModel {
    /// The slot with another child in it.
    pub open spec fn holding(self, model: Model) -> SlotModel {
        SlotModel { gate: self.gate, height: self.height, model }
    }
}

impl Model {
    /// Whether the control holds the focus: for a field its flag, for a
    /// composite whether the child in its focus slot does.
    pub open spec fn focused(self) -> bool
        decreases self,
    {
        match self {
            Model::Text { focused, .. } => focused,
            Model::Select { focused, .. } => focused,
            Model::Group { focus, slots, .. } => 0 <= focus < slots.len()
                && slots[focus].model.focused(),
        }
    }

    /// Whether no field anywhere in the control holds the focus.
    pub open spec fn quiet(self) -> bool
        decreases self,
    {
        match self {
            Model::Text { focused, .. } => !focused,
            Model::Select { focused, .. } => !focused,
            Model::Group { slots, .. } => forall|i: int|
                0 <= i < slots.len() ==> (#[trigger] slots[i]).model.quiet(),
        }
    }

    /// The number of fields in the control that hold the focus.
    pub open spec fn focused_leaves(self) -> nat
        decreases self, 0nat,
    {
        match self {
            Model::Text { focused, .. } => if focused {
                1
            } else {
                0
            },
            Model::Select { focused, .. } => if focused {
                1
            } else {
                0
            },
            Model::Group { slots, .. } => Self::focused_leaves_among(slots, slots.len()),
        }
    }

    /// The number of fields that hold the focus in the first `n` of `slots`.
    pub open spec fn focused_leaves_among(slots: Seq<SlotModel>, n: nat) -> nat
        decreases slots, n,
    {
        if n == 0 || n > slots.len() {
            0
        } else {
            Self::focused_leaves_among(slots, (n - 1) as nat) + slots[n - 1].model.focused_leaves()
        }
    }

    /// The slots of a composite.
    pub open spec fn slots(self) -> Seq<SlotModel> {
        match self {
            Model::Group { slots, .. } => slots,
            _ => Seq::empty(),
        }
    }

    /// The focus slot of a composite.
    pub open spec fn focus_slot(self) -> int {
        match self {
            Model::Group { focus, .. } => focus,
            _ => 0,
        }
    }

    /// Whether slot `i` of a composite is shown now.
    pub open spec fn shown(self, i: int) -> bool {
        let slots = self.slots();
        0 <= i < slots.len() && match slots[i].gate {
            Gate::Always => true,
            Gate::When { selector, option } => selector < slots.len() && (
            slots[selector as int].model matches Model::Select { index, .. } && index == option),
        }
    }

    /// Which slots of a composite are shown now.
    pub open spec fn mask(self) -> Seq<bool> {
        Seq::new(self.slots().len(), |i: int| self.shown(i))
    }

    /// The heights that the shown slots of a composite ask for, from the
    /// first shown slot to the last.
    pub open spec fn shown_heights(self) -> Seq<u16> {
        Self::heights_among(self.slots(), self.mask(), self.slots().len() as int)
    }

    /// The heights that the shown slots among the first `n` ask for.
    pub open spec fn heights_among(slots: Seq<SlotModel>, mask: Seq<bool>, n: int) -> Seq<u16>
        decreases n,
    {
        if n <= 0 {
            Seq::empty()
        } else {
            let rest = Self::heights_among(slots, mask, n - 1);
            if mask[n - 1] {
                rest.push(slots[n - 1].height)
            } else {
                rest
            }
        }
    }

    /// Whether focus rests on a shown slot, here and down the chain of focus
    /// slots.
    pub open spec fn settled(self) -> bool
        decreases self,
    {
        match self {
            Model::Group { focus, slots, .. } => self.shown(focus) && slots[focus].model.settled(),
            _ => true,
        }
    }

    /// Whether what slot `i` of a composite is shown on is in order.
    pub open spec fn gate_in_order(self, i: int) -> bool {
        gate_fits(self.slots(), i)
    }

    /// How deep the control nests: nought for a field, and for a composite
    /// one more than its deepest child.
    pub open spec fn depth(self) -> nat
        decreases self, 0nat,
    {
        match self {
            Model::Group { slots, .. } => 1 + Self::depth_among(slots, slots.len()),
            _ => 0,
        }
    }

    /// The depth of the deepest child in the first `n` of `slots`.
    pub open spec fn depth_among(slots: Seq<SlotModel>, n: nat) -> nat
        decreases slots, n,
    {
        if n == 0 || n > slots.len() {
            0
        } else {
            let rest = Self::depth_among(slots, (n - 1) as nat);
            let last = slots[n - 1].model.depth();
            if last > rest {
                last
            } else {
                rest
            }
        }
    }

    /// Whether the control is well formed. A select field has options, one
    /// of them chosen. A composite has slots, the first of them always
    /// shown; its focus names one of its slots; its gates are in order; its
    /// children are well formed, and none of them but the one in the focus
    /// slot holds the focus.
    pub open spec fn wf(self) -> bool
        decreases self,
    {
        match self {
            Model::Text { .. } => true,
            Model::Select { options, index, .. } => 0 <= index < options.len(),
            Model::Group { focus, slots, .. } => {
                &&& 0 <= focus < slots.len()
                &&& slots[0].gate is Always
                &&& forall|i: int| 0 <= i < slots.len() ==> self.gate_in_order(i)
                &&& forall|i: int| 0 <= i < slots.len() ==> (#[trigger] slots[i]).model.wf()
                &&& forall|i: int|
                    0 <= i < slots.len() && i != focus ==> (#[trigger] slots[i]).model.quiet()
            },
        }
    }

    /// The control after it has lost the focus.
    pub open spec fn blurred(self) -> Model
        decreases self,
    {
        match self {
            Model::Text { label, value, .. } => Model::Text { label, value, focused: false },
            Model::Select { label, options, index, .. } => Model::Select {
                label,
                options,
                index,
                focused: false,
            },
            Model::Group { title, policy, focus, slots } => if 0 <= focus < slots.len() {
                Model::Group {
                    title,
                    policy,
                    focus,
                    slots: slots.update(focus, slots[focus].holding(slots[focus].model.blurred())),
                }
            } else {
                self
            },
        }
    }

    /// A composite whose focus has moved from its focus slot to slot `to`:
    /// the child that had the focus has lost it, and the child in `to` has
    /// gained it.
    pub open spec fn moved_to(self, to: int) -> Model
        decreases self, 0nat,
    {
        match self {
            Model::Group { title, policy, focus, slots } => if 0 <= focus < slots.len() && 0 <= to
                < slots.len() && to != focus {
                Model::Group {
                    title,
                    policy,
                    focus: to,
                    slots: slots.update(
                        focus,
                        slots[focus].holding(slots[focus].model.blurred()),
                    ).update(to, slots[to].holding(slots[to].model.with_focus())),
                }
            } else {
                self
            },
            _ => self,
        }
    }

    /// The control after it has gained the focus. A composite first repairs
    /// its focus slot, then hands the focus to the child in it.
    pub open spec fn with_focus(self) -> Model
        decreases self, 1nat,
    {
        match self {
            Model::Text { label, value, .. } => Model::Text { label, value, focused: true },
            Model::Select { label, options, index, .. } => Model::Select {
                label,
                options,
                index,
                focused: true,
            },
            Model::Group { title, policy, focus, slots } => if 0 <= focus < slots.len() {
                if self.shown(focus) {
                    Model::Group {
                        title,
                        policy,
                        focus,
                        slots: slots.update(
                            focus,
                            slots[focus].holding(slots[focus].model.with_focus()),
                        ),
                    }
                } else {
                    self.moved_to(nearest_shown(self.mask(), focus))
                }
            } else {
                self
            },
        }
    }

    /// The control with its focus repaired. Where the focus slot of a
    /// composite is hidden, focus is clamped to the nearest shown slot: the
    /// child in the hidden slot loses the focus, and the child in the new
    /// slot gains it if the other had it. The same is done down the chain of
    /// focus slots.
    pub open spec fn repaired(self) -> Model
        decreases self, 2nat,
    {
        match self {
            Model::Group { title, policy, focus, slots } => if 0 <= focus < slots.len() {
                if self.shown(focus) {
                    Model::Group {
                        title,
                        policy,
                        focus,
                        slots: slots.update(
                            focus,
                            slots[focus].holding(slots[focus].model.repaired()),
                        ),
                    }
                } else if slots[focus].model.focused() {
                    self.moved_to(nearest_shown(self.mask(), focus))
                } else {
                    let to = nearest_shown(self.mask(), focus);
                    if 0 <= to < slots.len() {
                        Model::Group {
                            title,
                            policy,
                            focus: to,
                            slots: slots.update(to, slots[to].holding(slots[to].model.repaired())),
                        }
                    } else {
                        self
                    }
                }
            } else {
                self
            },
            _ => self,
        }
    }

    /// A composite after focus was asked to move to `target`: moved there
    /// and the key consumed, or, with no target, unchanged and the key
    /// handed back.
    pub open spec fn stepped(self, target: Option<int>) -> (Model, bool) {
        match target {
            Some(to) => (self.moved_to(to), true),
            None => (self, false),
        }
    }

    /// A composite after an advance of its focus, and whether it moved or
    /// absorbed the request (`true`) or handed it back.
    pub open spec fn advanced(self) -> (Model, bool) {
        match self {
            Model::Group { policy, focus, .. } => self.stepped(forward(self.mask(), policy, focus)),
            _ => (self, false),
        }
    }

    /// A composite after a retreat of its focus, and whether it moved or
    /// absorbed the request (`true`) or handed it back.
    pub open spec fn retreated(self) -> (Model, bool) {
        match self {
            Model::Group { policy, focus, .. } => self.stepped(
                backward(self.mask(), policy, focus),
            ),
            _ => (self, false),
        }
    }

    /// What a key event does to a control whose focus is settled: the
    /// control afterwards, and whether it consumed the event.
    ///
    /// A text field appends a character and erases its last one. A select
    /// field moves its choice left and right, round the ends: one option
    /// on or back, modulo the number of options. A composite
    /// offers the event to the child in its focus slot; what the child does
    /// not consume it takes as an advance or a retreat of its own focus, or
    /// hands back.
    pub open spec fn reaction(self, key: KeyEvent) -> (Model, bool)
        decreases self,
    {
        match self {
            Model::Text { label, value, focused } => match key.code {
                KeyCode::Char(c) => (Model::Text { label, value: value.push(c), focused }, true),
                KeyCode::Backspace => (
                    Model::Text {
                        label,
                        value: if value.len() > 0 {
                            value.drop_last()
                        } else {
                            value
                        },
                        focused,
                    },
                    true,
                ),
                _ => (self, false),
            },
            Model::Select { label, options, index, focused } => match key.code {
                KeyCode::Left => (
                    Model::Select {
                        label,
                        options,
                        index: ring_before(index, options.len() as int),
                        focused,
                    },
                    true,
                ),
                KeyCode::Right => (
                    Model::Select {
                        label,
                        options,
                        index: ring_after(index, options.len() as int),
                        focused,
                    },
                    true,
                ),
                _ => (self, false),
            },
            Model::Group { title, policy, focus, slots } => if 0 <= focus < slots.len() {
                let (child, used) = slots[focus].model.reaction(key);
                let offered = Model::Group {
                    title,
                    policy,
                    focus,
                    slots: slots.update(focus, slots[focus].holding(child)),
                };
                if used {
                    (offered, true)
                } else if key.code.advances() {
                    offered.advanced()
                } else if key.code.retreats() {
                    offered.retreated()
                } else {
                    (offered, false)
                }
            } else {
                (self, false)
            },
        }
    }

    /// The control after a key event: its focus is repaired first, then the
    /// event takes its course.
    pub open spec fn after_key(self, key: KeyEvent) -> Model {
        self.repaired().reaction(key).0
    }

    /// Whether the control consumes a key event.
    pub open spec fn consumes(self, key: KeyEvent) -> bool {
        self.repaired().reaction(key).1
    }

    /// A composite after `n` advances of its focus.
    pub open spec fn advanced_by(self, n: nat) -> Model
        decreases n,
    {
        if n == 0 {
            self
        } else {
            self.advanced_by((n - 1) as nat).advanced().0
        }
    }

    /// A composite after `n` retreats of its focus.
    pub open spec fn retreated_by(self, n: nat) -> Model
        decreases n,
    {
        if n == 0 {
            self
        } else {
            self.retreated_by((n - 1) as nat).retreated().0
        }
    }

    /// The control after a sequence of key events, the first first.
    pub open spec fn after_keys(self, keys: Seq<KeyEvent>) -> Model
        decreases keys.len(),
    {
        if keys.len() == 0 {
            self
        } else {
            self.after_keys(keys.drop_last()).after_key(keys.last())
        }
    }

    /// A composite after the select field in slot `slot` was set to option
    /// number `option`, wherever the focus is. Focus is left where it was,
    /// also where its slot is hidden by the change.
    pub open spec fn with_choice(self, slot: int, option: int) -> Model {
        match self {
            Model::Group { title, policy, focus, slots } => if 0 <= slot < slots.len() {
                match slots[slot].model {
                    Model::Select { label, options, index, focused } => Model::Group {
                        title,
                        policy,
                        focus,
                        slots: slots.update(
                            slot,
                            slots[slot].holding(
                                Model::Select { label, options, index: option, focused },
                            ),
                        ),
                    },
                    _ => self,
                }
            } else {
                self
            },
            _ => self,
        }
    }

    /// Whether two controls differ at most in where the focus is: same
    /// kinds, labels, values, options, choices, titles, policies, slots and
    /// gates.
    pub open spec fn same_content(self, other: Model) -> bool
        decreases self,
    {
        match self {
            Model::Text { label, value, .. } => other matches Model::Text {
                label: l,
                value: v,
                ..
            } && l == label && v == value,
            Model::Select { label, options, index, .. } => other matches Model::Select {
                label: l,
                options: o,
                index: i,
                ..
            } && l == label && o == options && i == index,
            Model::Group { title, policy, slots, .. } => other matches Model::Group {
                title: t,
                policy: p,
                slots: s,
                ..
            } && t == title && p == policy && s.len() == slots.len() && forall|i: int|
                0 <= i < slots.len() ==> {
                    &&& (#[trigger] s[i]).gate == slots[i].gate
                    &&& s[i].height == slots[i].height
                    &&& slots[i].model.same_content(s[i].model)
                },
        }
    }

    /// Whether two controls differ at most in where the focus is, in what
    /// their text fields hold and in what their select fields have chosen.
    pub open spec fn same_frame(self, other: Model) -> bool
        decreases self,
    {
        match self {
            Model::Text { label, .. } => other matches Model::Text { label: l, .. } && l == label,
            Model::Select { label, options, .. } => other matches Model::Select {
                label: l,
                options: o,
                ..
            } && l == label && o == options,
            Model::Group { title, policy, slots, .. } => other matches Model::Group {
                title: t,
                policy: p,
                slots: s,
                ..
            } && t == title && p == policy && s.len() == slots.len() && forall|i: int|
                0 <= i < slots.len() ==> {
                    &&& (#[trigger] s[i]).gate == slots[i].gate
                    &&& s[i].height == slots[i].height
                    &&& slots[i].model.same_frame(s[i].model)
                },
        }
    }
}

} // verus!
