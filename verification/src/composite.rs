//! The composite: a control made of other controls, one of which it keeps
//! in focus.

use crate::control::Control;
use crate::fields::{SelectField, TextField};
use crate::key::KeyEvent;
use crate::layout::{bordered_inner, split_rows};
use crate::model::{Gate, Model, SlotModel, gate_fits};
use crate::proofs::{
    lemma_blurred, lemma_child_depth, lemma_content_has_frame, lemma_content_has_mask,
    lemma_focused_leaves, lemma_frame_has_depth, lemma_heights_among, lemma_quiet_is_unfocused,
    lemma_reaction, lemma_repair_target, lemma_repaired, lemma_step_target, lemma_stepped,
    lemma_unfocused_is_quiet, lemma_with_focus,
};
use crate::slots::{
    FocusPolicy, advance_slot, backward, count_shown, count_slots, forward, lemma_count_grows,
    nearest_slot, rank, retreat_slot, shown_total,
};
use crate::surface::{Rect, Scene, depicts};
use std::ops::ControlFlow;
use vstd::prelude::*;

verus! {

/// A child of a composite: a field, or a composite in turn.
#[derive(Debug)]
pub enum Node {
    Text(TextField),
    Select(SelectField),
    Group(Composite),
}

/// One slot of a composite: the child in it, the rows it takes up when
/// shown, and when it is shown.
#[derive(Debug)]
pub struct Slot {
    gate: Gate,
    height: u16,
    node: Node,
}

/// A control made of an ordered list of slots. It keeps one slot in focus,
/// hands key events to the child in it, and moves the focus on the keys
/// that the child leaves over.
#[derive(Debug)]
pub struct Composite {
    title: String,
    policy: FocusPolicy,
    focus: usize,
    slots: Vec<Slot>,
}

/// The slots as the contracts see them.
pub open spec fn slot_models(slots: Seq<Slot>) -> Seq<SlotModel>
    decreases slots,
{
    Seq::new(
        slots.len(),
        |i: int|
            if 0 <= i < slots.len() {
                slots[i].model()
            } else {
                arbitrary()
            },
    )
}

/// Whether a list of slots can make a composite: it is not empty, its
/// first slot is always shown, every gate names a select field of the list
/// that is itself always shown, and one of its options, and no child holds
/// the focus.
pub open spec fn fit_for_composite(slots: Seq<SlotModel>) -> bool {
    &&& slots.len() > 0
    &&& slots[0].gate is Always
    &&& forall|i: int| 0 <= i < slots.len() ==> gate_fits(slots, i)
    &&& forall|i: int| 0 <= i < slots.len() ==> !(#[trigger] slots[i]).model.focused()
}

impl Slot {
    /// The slot as the contracts see it.
    pub closed spec fn model(&self) -> SlotModel
        decreases self,
    {
        SlotModel { gate: self.gate, height: self.height, model: self.node.model() }
    }

    /// A slot that is always shown.
    pub fn always(node: Node, height: u16) -> (slot: Slot)
        ensures
            slot.model() == (SlotModel { gate: Gate::Always, height, model: node.model() }),
    {
        Slot { gate: Gate::Always, height, node }
    }

    /// A slot that is shown while the select field in slot `selector` of
    /// the same composite has its option number `option` chosen.
    pub fn when(node: Node, height: u16, selector: usize, option: usize) -> (slot: Slot)
        ensures
            slot.model() == (SlotModel {
                gate: Gate::When { selector, option },
                height,
                model: node.model(),
            }),
    {
        Slot { gate: Gate::When { selector, option }, height, node }
    }

    /// The child in the slot.
    pub fn node(&self) -> (node: &Node)
        ensures
            node.model() == self.model().model,
    {
        &self.node
    }
}

impl Node {
    /// A child has the model of what it holds: a field that of a field of
    /// its kind, and a composite that of a composite.
    pub proof fn lemma_kind(&self)
        ensures
            self is Text <==> self.model() is Text,
            self is Select <==> self.model() is Select,
            self is Group <==> self.model() is Group,
            self matches Node::Text(field) ==> self.model() == field.model(),
            self matches Node::Select(field) ==> self.model() == field.model(),
            self matches Node::Group(group) ==> self.model() == group.model(),
    {
        match self {
            Node::Text(field) => field.lemma_kind(),
            Node::Select(field) => field.lemma_kind(),
            Node::Group(group) => {},
        }
    }

    /// A text field as a child.
    pub fn text(field: TextField) -> (node: Node)
        ensures
            node.model() == field.model(),
    {
        Node::Text(field)
    }

    /// A select field as a child.
    pub fn select(field: SelectField) -> (node: Node)
        ensures
            node.model() == field.model(),
    {
        Node::Select(field)
    }

    /// A composite as a child.
    pub fn group(composite: Composite) -> (node: Node)
        ensures
            node.model() == composite.model(),
    {
        Node::Group(composite)
    }

    /// Whether the child holds the focus.
    pub fn is_focused(&self) -> (focused: bool)
        requires
            self.model().wf(),
        ensures
            focused == self.model().focused(),
        decreases self.model().depth(), 2nat,
    {
        match self {
            Node::Text(field) => field.is_focused(),
            Node::Select(field) => field.is_focused(),
            Node::Group(group) => group.is_focused(),
        }
    }
}

impl Composite {
    /// What the model of the composite is made of.
    proof fn lemma_model(&self)
        ensures
            self.model() == (Model::Group {
                title: self.title@,
                policy: self.policy,
                focus: self.focus as int,
                slots: slot_models(self.slots@),
            }),
            self.model().slots() == slot_models(self.slots@),
            self.model().slots().len() == self.slots@.len(),
            forall|i: int|
                0 <= i < self.slots@.len() ==> #[trigger] self.model().slots()[i]
                    == self.slots@[i].model(),
    {
    }

    /// A composite of the given slots, with focus on the first of them.
    /// `None` where the slots are not fit to make one.
    pub fn new(title: String, policy: FocusPolicy, slots: Vec<Slot>) -> (made: Option<Composite>)
        requires
            forall|i: int| 0 <= i < slots.len() ==> (#[trigger] slots[i]).model().model.wf(),
        ensures
            made is Some <==> fit_for_composite(slot_models(slots@)),
            made matches Some(composite) ==> composite.model() == (Model::Group {
                title: title@,
                policy,
                focus: 0,
                slots: slot_models(slots@),
            }) && composite.model().wf(),
    {
        let ghost models = slot_models(slots@);
        if slots.len() == 0 {
            return None;
        }
        match slots[0].gate {
            Gate::Always => {},
            _ => {
                assert(models[0] == slots[0].model());
                return None;
            },
        }
        let mut i: usize = 0;
        while i < slots.len()
            invariant
                i <= slots.len(),
                models == slot_models(slots@),
                forall|k: int| 0 <= k < slots.len() ==> (#[trigger] slots[k]).model().model.wf(),
                forall|k: int| 0 <= k < i ==> gate_fits(models, k),
                forall|k: int| 0 <= k < i ==> !(#[trigger] models[k]).model.focused(),
            decreases slots.len() - i,
        {
            assert(models[i as int] == slots[i as int].model());
            let in_order = Self::gate_in_order(&slots, i);
            if !in_order {
                return None;
            }
            if slots[i].node.is_focused() {
                return None;
            }
            i = i + 1;
        }
        let composite = Composite { title, policy, focus: 0, slots };
        proof {
            composite.lemma_model();
            assert(models[0] == composite.slots@[0].model());
            assert forall|k: int| 0 <= k < models.len() implies (
            #[trigger] models[k]).model.wf() by {
                assert(models[k] == composite.slots@[k].model());
            }
            assert forall|k: int| 0 <= k < models.len() && k != 0 implies (
            #[trigger] models[k]).model.quiet() by {
                lemma_unfocused_is_quiet(models[k].model);
            }
        }
        Some(composite)
    }

    /// Whether what slot `i` is shown on is in order.
    fn gate_in_order(slots: &Vec<Slot>, i: usize) -> (fits: bool)
        requires
            i < slots.len(),
        ensures
            fits == gate_fits(slot_models(slots@), i as int),
    {
        let ghost models = slot_models(slots@);
        assert(models[i as int] == slots[i as int].model());
        match slots[i].gate {
            Gate::Always => true,
            Gate::When { selector, option } => {
                if selector < slots.len() {
                    assert(models[selector as int] == slots[selector as int].model());
                    proof {
                        slots[selector as int].node.lemma_kind();
                    }
                    match slots[selector].gate {
                        Gate::Always => match &slots[selector].node {
                            Node::Select(field) => option < field.option_count(),
                            _ => false,
                        },
                        _ => false,
                    }
                } else {
                    false
                }
            },
        }
    }

    /// The title of the composite.
    pub fn title(&self) -> (title: &str)
        ensures
            self.model() matches Model::Group { title: t, .. } && title@ == t,
    {
        self.title.as_str()
    }

    /// What the composite does at the ends of its slots.
    pub fn policy(&self) -> (policy: FocusPolicy)
        ensures
            self.model() matches Model::Group { policy: p, .. } && policy == p,
    {
        self.policy
    }

    /// The number of the slot that is in focus.
    pub fn focus_index(&self) -> (focus: usize)
        ensures
            focus == self.model().focus_slot(),
    {
        self.focus
    }

    /// The number of slots, shown or hidden.
    pub fn slot_count(&self) -> (count: usize)
        ensures
            count == self.model().slots().len(),
    {
        proof {
            self.lemma_model();
        }
        self.slots.len()
    }

    /// The slot number `i`.
    pub fn slot(&self, i: usize) -> (slot: &Slot)
        requires
            i < self.model().slots().len(),
        ensures
            slot.model() == self.model().slots()[i as int],
    {
        proof {
            self.lemma_model();
        }
        &self.slots[i]
    }

    /// Whether slot `i` is shown now.
    pub fn is_shown(&self, i: usize) -> (shown: bool)
        ensures
            shown == self.model().shown(i as int),
    {
        proof {
            self.lemma_model();
        }
        if i >= self.slots.len() {
            return false;
        }
        match self.slots[i].gate {
            Gate::Always => true,
            Gate::When { selector, option } => {
                if selector < self.slots.len() {
                    proof {
                        self.slots[selector as int].node.lemma_kind();
                    }
                    match &self.slots[selector].node {
                        Node::Select(field) => field.selected_index() == option,
                        _ => false,
                    }
                } else {
                    false
                }
            },
        }
    }

    /// Which slots are shown now.
    pub fn mask(&self) -> (mask: Vec<bool>)
        ensures
            mask@ == self.model().mask(),
    {
        proof {
            self.lemma_model();
        }
        let mut mask: Vec<bool> = Vec::new();
        let mut i: usize = 0;
        while i < self.slots.len()
            invariant
                i <= self.slots.len(),
                mask.len() == i,
                forall|k: int| 0 <= k < i ==> #[trigger] mask[k] == self.model().shown(k),
            decreases self.slots.len() - i,
        {
            let shown = self.is_shown(i);
            mask.push(shown);
            i = i + 1;
        }
        assert(mask@ =~= self.model().mask());
        mask
    }

    /// The number of slots that are shown now.
    pub fn shown_count(&self) -> (count: usize)
        ensures
            count == shown_total(self.model().mask()),
    {
        let mask = self.mask();
        count_slots(&mask)
    }

    /// Whether the composite holds the focus: whether the child in its
    /// focus slot does.
    pub fn is_focused(&self) -> (focused: bool)
        requires
            self.model().wf(),
        ensures
            focused == self.model().focused(),
        decreases self.model().depth(), 1nat,
    {
        proof {
            self.lemma_model();
            lemma_child_depth(self.model(), self.focus as int);
        }
        self.slots[self.focus].node.is_focused()
    }
}

impl Control for Node {
    closed spec fn model(&self) -> Model
        decreases self,
    {
        match self {
            Node::Text(field) => field.model(),
            Node::Select(field) => field.model(),
            Node::Group(group) => group.model(),
        }
    }

    fn render(&self, area: Rect) -> (scene: Scene)
        decreases self.model().depth(), 2nat,
    {
        match self {
            Node::Text(field) => field.render(area),
            Node::Select(field) => field.render(area),
            Node::Group(group) => group.render(area),
        }
    }

    fn focus(&mut self)
        decreases old(self).model().depth(), 2nat,
    {
        match self {
            Node::Text(field) => field.focus(),
            Node::Select(field) => field.focus(),
            Node::Group(group) => group.focus(),
        }
    }

    fn blur(&mut self)
        decreases old(self).model().depth(), 2nat,
    {
        match self {
            Node::Text(field) => field.blur(),
            Node::Select(field) => field.blur(),
            Node::Group(group) => group.blur(),
        }
    }

    fn handle_key_event(&mut self, key: KeyEvent) -> (flow: ControlFlow<()>)
        decreases old(self).model().depth(), 2nat,
    {
        match self {
            Node::Text(field) => field.handle_key_event(key),
            Node::Select(field) => field.handle_key_event(key),
            Node::Group(group) => group.handle_key_event(key),
        }
    }
}

impl Control for Composite {
    closed spec fn model(&self) -> Model
        decreases self,
    {
        Model::Group {
            title: self.title@,
            policy: self.policy,
            focus: self.focus as int,
            slots: slot_models(self.slots@),
        }
    }

    fn render(&self, area: Rect) -> (scene: Scene)
        decreases self.model().depth(), 1nat,
    {
        let inner = bordered_inner(area);
        let mask = self.mask();
        let heights = self.shown_heights(&mask);
        let bands = split_rows(inner, &heights);
        let rows = self.render_rows(&mask, &bands);
        let scene = Scene::Panel { area, title: self.title.clone(), rows };
        proof {
            self.lemma_model();
            let m = self.model();
            let plan = scene@;
            assert(plan.rows().len() == shown_total(m.mask()));
            assert forall|k: int|
                #![trigger rank(m.mask(), k)]
                0 <= k < m.slots().len() && m.shown(k) implies {
                let row = plan.rows()[rank(m.mask(), k)];
                &&& area.inside_border().has_row(row.area())
                &&& depicts(m.slots()[k].model, row.area(), row)
                &&& area.inside_border().has_room_for(m.shown_heights()) ==> row.area()
                    == area.inside_border().stacked_row(m.shown_heights(), rank(m.mask(), k))
            } by {
                assert(mask@[k]);
                lemma_count_grows(mask@, k, mask@.len() as int);
                let c = rank(mask@, k);
                assert(plan.rows()[c] == rows[c]@);
                assert(rows[c]@.area() == bands[c]);
            }
        }
        scene
    }

    /// The focus slot is repaired, and the child in it gains the focus.
    fn focus(&mut self)
        decreases old(self).model().depth(), 1nat,
    {
        proof {
            self.lemma_model();
            lemma_with_focus(self.model());
            lemma_focused_leaves(self.model().with_focus());
        }
        let focus = self.focus;
        if self.is_shown(focus) {
            proof {
                lemma_child_depth(self.model(), focus as int);
            }
            self.slots[focus].node.focus();
            proof {
                self.lemma_model();
                assert(self.model().slots() =~= old(self).model().with_focus().slots());
            }
        } else {
            let mask = self.mask();
            let to = nearest_slot(&mask, focus);
            proof {
                lemma_repair_target(self.model());
            }
            self.move_to(to);
        }
    }

    /// The child in the focus slot loses the focus.
    fn blur(&mut self)
        decreases old(self).model().depth(), 1nat,
    {
        proof {
            self.lemma_model();
            lemma_blurred(self.model());
            lemma_quiet_is_unfocused(self.model().blurred());
            lemma_focused_leaves(self.model().blurred());
            lemma_child_depth(self.model(), self.focus as int);
        }
        let focus = self.focus;
        self.slots[focus].node.blur();
        proof {
            self.lemma_model();
            assert(self.model().slots() =~= old(self).model().blurred().slots());
        }
    }

    /// The focus is repaired and the event offered to the child in the
    /// focus slot. What the child does not consume is taken as an advance
    /// on the tab and down keys and as a retreat on the back tab and up
    /// keys, and handed back otherwise.
    fn handle_key_event(&mut self, key: KeyEvent) -> (flow: ControlFlow<()>)
        decreases old(self).model().depth(), 1nat,
    {
        proof {
            lemma_repaired(self.model());
            lemma_reaction(self.model().repaired(), key);
            lemma_focused_leaves(self.model().after_key(key));
            lemma_content_has_frame(self.model(), self.model().repaired());
            lemma_frame_has_depth(self.model(), self.model().repaired());
        }
        self.repair_focus();
        let ghost settled = self.model();
        let focus = self.focus;
        proof {
            self.lemma_model();
            lemma_repaired(settled.slots()[focus as int].model);
            lemma_child_depth(settled, focus as int);
        }
        let offered = self.slots[focus].node.handle_key_event(key);
        proof {
            self.lemma_model();
            let child = settled.slots()[focus as int].model.reaction(key).0;
            assert(self.model().slots() =~= settled.slots().update(
                focus as int,
                settled.slots()[focus as int].holding(child),
            ));
        }
        match offered {
            ControlFlow::Break(_) => ControlFlow::Break(()),
            ControlFlow::Continue(_) => {
                proof {
                    lemma_reaction(settled.slots()[focus as int].model, key);
                    assert(self.model().slots() =~= settled.slots());
                    assert(self.model() == settled);
                }
                if key.code.is_advance() {
                    self.step_forward()
                } else if key.code.is_retreat() {
                    self.step_backward()
                } else {
                    ControlFlow::Continue(())
                }
            },
        }
    }
}

impl Composite {
    /// What the shown children look like, the first in the first of
    /// `bands`, and so on.
    fn render_rows(&self, mask: &Vec<bool>, bands: &Vec<Rect>) -> (rows: Vec<Scene>)
        requires
            self.model().wf(),
            mask.len() == self.model().slots().len(),
            bands.len() == shown_total(mask@),
        ensures
            rows.len() == bands.len(),
            forall|k: int|
                #![trigger rank(mask@, k)]
                0 <= k < mask.len() && mask[k] ==> {
                    let c = rank(mask@, k);
                    &&& 0 <= c < rows.len()
                    &&& rows[c]@.area() == bands[c]
                    &&& depicts(self.model().slots()[k].model, bands[c], rows[c]@)
                },
        decreases self.model().depth(), 0nat,
    {
        let ghost models = self.model().slots();
        let ghost depth = self.model().depth();
        proof {
            self.lemma_model();
            assert forall|k: int| 0 <= k < models.len() implies (#[trigger] models[k]).model.depth()
                < depth by {
                lemma_child_depth(self.model(), k);
            }
        }
        let mut rows: Vec<Scene> = Vec::new();
        let mut i: usize = 0;
        while i < self.slots.len()
            invariant
                i <= self.slots.len(),
                depth == self.model().depth(),
                models.len() == self.slots@.len(),
                mask@.len() == self.slots@.len(),
                forall|k: int|
                    0 <= k < models.len() ==> (#[trigger] models[k]).model
                        == self.slots@[k].node.model(),
                forall|k: int| 0 <= k < models.len() ==> (#[trigger] models[k]).model.wf(),
                forall|k: int|
                    0 <= k < models.len() ==> (#[trigger] models[k]).model.depth() < depth,
                bands.len() == shown_total(mask@),
                rows.len() == count_shown(mask@, i as int),
                forall|k: int|
                    #![trigger rank(mask@, k)]
                    0 <= k < i && mask@[k] ==> {
                        let c = rank(mask@, k);
                        &&& 0 <= c < rows.len()
                        &&& rows[c]@.area() == bands[c]
                        &&& depicts(models[k].model, bands[c], rows[c]@)
                    },
            decreases self.slots.len() - i,
        {
            proof {
                lemma_count_grows(mask@, i as int, mask@.len() as int);
                lemma_count_grows(mask@, i as int + 1, mask@.len() as int);
            }
            if mask[i] {
                let ghost before = rows@;
                let band = bands[rows.len()];
                assert(models[i as int].model.wf());
                assert(models[i as int].model.depth() < depth);
                let row = self.slots[i].node.render(band);
                rows.push(row);
                proof {
                    assert forall|k: int|
                        #![trigger rank(mask@, k)]
                        0 <= k < i + 1 && mask@[k] implies {
                        let c = rank(mask@, k);
                        &&& 0 <= c < rows.len()
                        &&& rows[c]@.area() == bands[c]
                        &&& depicts(models[k].model, bands[c], rows[c]@)
                    } by {
                        if k < i {
                            lemma_count_grows(mask@, k, i as int);
                            let c = rank(mask@, k);
                            assert(rows[c] == before[c]);
                        }
                    }
                }
            }
            i = i + 1;
        }
        rows
    }

    /// The heights of the shown slots, from first to last.
    fn shown_heights(&self, mask: &Vec<bool>) -> (heights: Vec<u16>)
        requires
            mask@ == self.model().mask(),
        ensures
            heights@ == self.model().shown_heights(),
            heights.len() == shown_total(mask@),
    {
        proof {
            self.lemma_model();
        }
        let ghost models = self.model().slots();
        let mut heights: Vec<u16> = Vec::new();
        let mut i: usize = 0;
        while i < self.slots.len()
            invariant
                i <= self.slots.len(),
                mask.len() == self.slots.len(),
                models.len() == self.slots.len(),
                forall|k: int|
                    0 <= k < models.len() ==> (#[trigger] models[k]).height
                        == self.slots@[k].height,
                heights@ == Model::heights_among(models, mask@, i as int),
            decreases self.slots.len() - i,
        {
            if mask[i] {
                heights.push(self.slots[i].height);
            }
            i = i + 1;
        }
        proof {
            lemma_heights_among(models, mask@, models.len() as int);
        }
        heights
    }

    /// Moves the focus to the shown slot `to`: the child that had it loses
    /// it, the child in `to` gains it.
    fn move_to(&mut self, to: usize)
        requires
            old(self).model().wf(),
            old(self).model().shown(to as int),
            to != old(self).model().focus_slot(),
        ensures
            final(self).model() == old(self).model().moved_to(to as int),
        decreases old(self).model().depth(), 0nat,
    {
        proof {
            self.lemma_model();
            lemma_child_depth(self.model(), self.focus as int);
            lemma_child_depth(self.model(), to as int);
        }
        let focus = self.focus;
        self.slots[focus].node.blur();
        self.slots[to].node.focus();
        self.focus = to;
        proof {
            self.lemma_model();
            assert(self.model().slots() =~= old(self).model().moved_to(to as int).slots());
        }
    }

    /// Repairs the focus. Where the focus slot is hidden, focus is clamped
    /// to the nearest shown slot before it, or, where there is none, after
    /// it: the child in the hidden slot loses the focus, and the child in
    /// the new slot gains it if the other had it. The same is done down the
    /// chain of focus slots. A composite whose focus is on shown slots is
    /// left as it is.
    pub fn repair_focus(&mut self)
        requires
            old(self).model().wf(),
        ensures
            final(self).model() == old(self).model().repaired(),
            final(self).model().wf(),
            final(self).model().settled(),
            final(self).model().shown(final(self).model().focus_slot()),
            final(self).model().focused() == old(self).model().focused(),
            final(self).model().focused_leaves() == old(self).model().focused_leaves(),
            old(self).model().settled() ==> final(self).model() == old(self).model(),
        decreases old(self).model().depth(), 1nat,
    {
        proof {
            self.lemma_model();
            lemma_repaired(self.model());
            lemma_focused_leaves(self.model());
            lemma_focused_leaves(self.model().repaired());
            lemma_repair_target(self.model());
        }
        let focus = self.focus;
        if self.is_shown(focus) {
            proof {
                lemma_child_depth(self.model(), focus as int);
            }
            self.slots[focus].node.repair_focus();
            proof {
                self.lemma_model();
                assert(self.model().slots() =~= old(self).model().repaired().slots());
            }
        } else {
            let mask = self.mask();
            let to = nearest_slot(&mask, focus);
            proof {
                lemma_child_depth(self.model(), focus as int);
                lemma_child_depth(self.model(), to as int);
            }
            if self.slots[focus].node.is_focused() {
                self.move_to(to);
            } else {
                self.focus = to;
                self.slots[to].node.repair_focus();
                proof {
                    self.lemma_model();
                    assert(self.model().slots() =~= old(self).model().repaired().slots());
                }
            }
        }
    }

    /// Moves the focus to the next shown slot, the focus slot being shown.
    fn step_forward(&mut self) -> (flow: ControlFlow<()>)
        requires
            old(self).model().wf(),
            old(self).model().shown(old(self).model().focus_slot()),
        ensures
            final(self).model() == old(self).model().advanced().0,
            flow is Break <==> old(self).model().advanced().1,
    {
        let mask = self.mask();
        proof {
            self.lemma_model();
            assert(mask@[self.focus as int]);
            lemma_step_target(mask@, self.policy, self.focus as int);
        }
        match advance_slot(&mask, self.policy, self.focus) {
            Some(to) => {
                if to != self.focus {
                    self.move_to(to);
                }
                ControlFlow::Break(())
            },
            None => ControlFlow::Continue(()),
        }
    }

    /// Moves the focus to the previous shown slot, the focus slot being
    /// shown.
    fn step_backward(&mut self) -> (flow: ControlFlow<()>)
        requires
            old(self).model().wf(),
            old(self).model().shown(old(self).model().focus_slot()),
        ensures
            final(self).model() == old(self).model().retreated().0,
            flow is Break <==> old(self).model().retreated().1,
    {
        let mask = self.mask();
        proof {
            self.lemma_model();
            assert(mask@[self.focus as int]);
            lemma_step_target(mask@, self.policy, self.focus as int);
        }
        match retreat_slot(&mask, self.policy, self.focus) {
            Some(to) => {
                if to != self.focus {
                    self.move_to(to);
                }
                ControlFlow::Break(())
            },
            None => ControlFlow::Continue(()),
        }
    }

    /// Repairs the focus, then moves it to the next shown slot. Past the
    /// last one it goes to the first under bounded cycling; under clamped
    /// delegation it stays, and the answer is `Continue`.
    pub fn advance(&mut self) -> (flow: ControlFlow<()>)
        requires
            old(self).model().wf(),
        ensures
            final(self).model() == old(self).model().repaired().advanced().0,
            flow is Break <==> old(self).model().repaired().advanced().1,
            final(self).model().wf(),
            final(self).model().shown(final(self).model().focus_slot()),
            final(self).model().mask() == old(self).model().mask(),
            old(self).model().focused() ==> final(self).model().focused(),
    {
        proof {
            lemma_repaired(self.model());
        }
        self.repair_focus();
        proof {
            let at = self.model();
            self.lemma_model();
            lemma_content_has_mask(old(self).model(), at);
            assert(at.mask()[at.focus_slot()]);
            lemma_step_target(at.mask(), at->policy, at.focus_slot());
            let target = forward(at.mask(), at->policy, at.focus_slot());
            assert(target matches Some(to) ==> at.shown(to));
            lemma_stepped(at, target);
            lemma_content_has_mask(at, at.advanced().0);
        }
        self.step_forward()
    }

    /// Repairs the focus, then moves it to the previous shown slot. Before
    /// the first one it goes to the last under bounded cycling; under
    /// clamped delegation it stays, and the answer is `Continue`.
    pub fn retreat(&mut self) -> (flow: ControlFlow<()>)
        requires
            old(self).model().wf(),
        ensures
            final(self).model() == old(self).model().repaired().retreated().0,
            flow is Break <==> old(self).model().repaired().retreated().1,
            final(self).model().wf(),
            final(self).model().shown(final(self).model().focus_slot()),
            final(self).model().mask() == old(self).model().mask(),
            old(self).model().focused() ==> final(self).model().focused(),
    {
        proof {
            lemma_repaired(self.model());
        }
        self.repair_focus();
        proof {
            let at = self.model();
            self.lemma_model();
            lemma_content_has_mask(old(self).model(), at);
            assert(at.mask()[at.focus_slot()]);
            lemma_step_target(at.mask(), at->policy, at.focus_slot());
            let target = backward(at.mask(), at->policy, at.focus_slot());
            assert(target matches Some(to) ==> at.shown(to));
            lemma_stepped(at, target);
            lemma_content_has_mask(at, at.retreated().0);
        }
        self.step_backward()
    }

    /// Sets the select field in slot `slot` to its option number `option`,
    /// wherever the focus is, and says whether there is such a field and
    /// such an option. Focus stays where it was, also where the change
    /// hides its slot: the next repair moves it.
    pub fn select_option(&mut self, slot: usize, option: usize) -> (done: bool)
        requires
            old(self).model().wf(),
        ensures
            done <==> slot < old(self).model().slots().len() && (
            old(self).model().slots()[slot as int].model matches Model::Select { options, .. }
                && option < options.len()),
            final(self).model() == if done {
                old(self).model().with_choice(slot as int, option as int)
            } else {
                old(self).model()
            },
            final(self).model().wf(),
            final(self).model().focused_leaves() == old(self).model().focused_leaves(),
    {
        proof {
            self.lemma_model();
        }
        if slot >= self.slots.len() {
            return false;
        }
        proof {
            self.slots[slot as int].node.lemma_kind();
        }
        let done = match &mut self.slots[slot].node {
            Node::Select(field) => field.select(option),
            _ => false,
        };
        proof {
            self.lemma_model();
            if done {
                crate::laws::law_gating_change(old(self).model(), slot as int, option as int);
                assert(self.model().slots() =~= old(self).model().with_choice(
                    slot as int,
                    option as int,
                ).slots());
            } else {
                assert(self.model().slots() =~= old(self).model().slots());
            }
        }
        done
    }
}

impl Node {
    /// Repairs the focus of the child, down the chain of its focus slots.
    pub fn repair_focus(&mut self)
        requires
            old(self).model().wf(),
        ensures
            final(self).model() == old(self).model().repaired(),
            final(self).model().wf(),
            final(self).model().settled(),
            final(self).model().focused() == old(self).model().focused(),
        decreases old(self).model().depth(), 2nat,
    {
        proof {
            lemma_repaired(self.model());
            self.lemma_kind();
        }
        match self {
            Node::Group(group) => {
                group.repair_focus();
            },
            _ => {},
        }
    }
}

} // verus!
