//! What focus, blur, repair and key events keep of a well-formed control.
//!
//! The lemmas here are the groundwork of the executable controls and of the
//! laws: each is proved by induction over the tree.

use crate::key::KeyEvent;
use crate::model::{Gate, Model, SlotModel};
use crate::slots::{
    FocusPolicy, backward, count_shown, forward, lemma_first_shown, lemma_last_shown,
    lemma_nearest_shown, lemma_next_shown, lemma_prev_shown, nearest_shown, rank,
};
use vstd::prelude::*;

verus! {

/// A control has the content it has.
pub proof fn lemma_same_content_refl(m: Model)
    ensures
        m.same_content(m),
    decreases m,
{
    match m {
        Model::Group { slots, .. } => {
            assert forall|i: int| 0 <= i < slots.len() implies slots[i].model.same_content(
                (#[trigger] slots[i]).model,
            ) by {
                lemma_same_content_refl(slots[i].model);
            }
        },
        _ => {},
    }
}

/// A control has the frame it has.
pub proof fn lemma_same_frame_refl(m: Model)
    ensures
        m.same_frame(m),
    decreases m,
{
    match m {
        Model::Group { slots, .. } => {
            assert forall|i: int| 0 <= i < slots.len() implies slots[i].model.same_frame(
                (#[trigger] slots[i]).model,
            ) by {
                lemma_same_frame_refl(slots[i].model);
            }
        },
        _ => {},
    }
}

/// Controls of the same content have the same frame.
pub proof fn lemma_content_has_frame(a: Model, b: Model)
    requires
        a.same_content(b),
    ensures
        a.same_frame(b),
    decreases a,
{
    match a {
        Model::Group { slots, .. } => {
            let s = b.slots();
            assert forall|i: int| 0 <= i < slots.len() implies slots[i].model.same_frame(
                (#[trigger] s[i]).model,
            ) by {
                lemma_content_has_frame(slots[i].model, s[i].model);
            }
        },
        _ => {},
    }
}

/// Composites of the same content show the same slots.
pub proof fn lemma_content_has_mask(a: Model, b: Model)
    requires
        a is Group,
        a.same_content(b),
    ensures
        a.mask() == b.mask(),
        forall|i: int| a.shown(i) == b.shown(i),
{
    let sa = a.slots();
    let sb = b.slots();
    assert forall|i: int| a.shown(i) == b.shown(i) by {
        if 0 <= i < sa.len() {
            assert(sb[i].gate == sa[i].gate);
            match sa[i].gate {
                Gate::Always => {},
                Gate::When { selector, option } => {
                    if selector < sa.len() {
                        assert(sa[selector as int].model.same_content(sb[selector as int].model));
                    }
                },
            }
        }
    }
    assert(a.mask() =~= b.mask());
}

/// A composite whose children keep their frames keeps its gates in order.
pub proof fn lemma_frame_keeps_gates(a: Model, b: Model)
    requires
        a is Group,
        a.same_frame(b),
        forall|i: int| 0 <= i < a.slots().len() ==> a.gate_in_order(i),
    ensures
        forall|i: int| 0 <= i < b.slots().len() ==> b.gate_in_order(i),
{
    let sa = a.slots();
    let sb = b.slots();
    assert forall|i: int| 0 <= i < sb.len() implies b.gate_in_order(i) by {
        assert(a.gate_in_order(i));
        assert(sb[i].gate == sa[i].gate);
        match sa[i].gate {
            Gate::Always => {},
            Gate::When { selector, option } => {
                assert(sa[selector as int].model.same_frame(sb[selector as int].model));
                assert(sb[selector as int].gate == sa[selector as int].gate);
            },
        }
    }
}

/// A control in which no field has the focus does not hold the focus.
pub proof fn lemma_quiet_is_unfocused(m: Model)
    requires
        m.quiet(),
    ensures
        !m.focused(),
    decreases m,
{
    match m {
        Model::Group { focus, slots, .. } => {
            if 0 <= focus < slots.len() {
                lemma_quiet_is_unfocused(slots[focus].model);
            }
        },
        _ => {},
    }
}

/// In a well-formed control that does not hold the focus, no field has it.
pub proof fn lemma_unfocused_is_quiet(m: Model)
    requires
        m.wf(),
        !m.focused(),
    ensures
        m.quiet(),
    decreases m,
{
    match m {
        Model::Group { focus, slots, .. } => {
            lemma_unfocused_is_quiet(slots[focus].model);
        },
        _ => {},
    }
}

/// Blur leaves a well-formed control well formed and without focus, and
/// changes nothing else.
pub proof fn lemma_blurred(m: Model)
    requires
        m.wf(),
    ensures
        m.blurred().wf(),
        m.blurred().quiet(),
        m.same_content(m.blurred()),
        m.blurred().focus_slot() == m.focus_slot(),
    decreases m,
{
    match m {
        Model::Group { focus, slots, .. } => {
            let b = m.blurred();
            let s = b.slots();
            lemma_blurred(slots[focus].model);
            assert forall|i: int| 0 <= i < slots.len() implies slots[i].model.same_content(
                (#[trigger] s[i]).model,
            ) by {
                if i != focus {
                    lemma_same_content_refl(slots[i].model);
                }
            }
            lemma_content_has_frame(m, b);
            lemma_frame_keeps_gates(m, b);
        },
        _ => {},
    }
}

/// A slot that `nearest_shown` picks in a well-formed composite is shown.
pub proof fn lemma_repair_target(m: Model)
    requires
        m is Group,
        m.wf(),
    ensures
        m.shown(nearest_shown(m.mask(), m.focus_slot())),
        m.shown(m.focus_slot()) ==> nearest_shown(m.mask(), m.focus_slot()) == m.focus_slot(),
{
    assert(m.shown(0));
    assert(m.mask()[0]);
    lemma_nearest_shown(m.mask(), m.focus_slot(), 0);
}

/// Moving focus to another shown slot leaves a well-formed composite well
/// formed, settled and holding the focus, with focus on that slot, and
/// changes nothing else.
pub proof fn lemma_moved_to(m: Model, to: int)
    requires
        m is Group,
        m.wf(),
        m.shown(to),
        to != m.focus_slot(),
    ensures
        m.moved_to(to).wf(),
        m.moved_to(to).focused(),
        m.moved_to(to).settled(),
        m.moved_to(to).focus_slot() == to,
        m.same_content(m.moved_to(to)),
    decreases m, 0nat,
{
    let focus = m.focus_slot();
    let slots = m.slots();
    let r = m.moved_to(to);
    let s = r.slots();
    lemma_blurred(slots[focus].model);
    lemma_with_focus(slots[to].model);
    assert forall|i: int| 0 <= i < slots.len() implies slots[i].model.same_content(
        (#[trigger] s[i]).model,
    ) by {
        if i != focus && i != to {
            lemma_same_content_refl(slots[i].model);
        }
    }
    lemma_content_has_frame(m, r);
    lemma_frame_keeps_gates(m, r);
    lemma_content_has_mask(m, r);
}

/// Focus leaves a well-formed control well formed, settled and holding the
/// focus, and changes nothing else. A settled composite keeps its focus slot.
pub proof fn lemma_with_focus(m: Model)
    requires
        m.wf(),
    ensures
        m.with_focus().wf(),
        m.with_focus().focused(),
        m.with_focus().settled(),
        m.same_content(m.with_focus()),
        m.shown(m.focus_slot()) ==> m.with_focus().focus_slot() == m.focus_slot(),
    decreases m, 1nat,
{
    match m {
        Model::Group { focus, slots, .. } => {
            let r = m.with_focus();
            if m.shown(focus) {
                let s = r.slots();
                lemma_with_focus(slots[focus].model);
                assert forall|i: int| 0 <= i < slots.len() implies slots[i].model.same_content(
                    (#[trigger] s[i]).model,
                ) by {
                    if i != focus {
                        lemma_same_content_refl(slots[i].model);
                    }
                }
                lemma_content_has_frame(m, r);
                lemma_frame_keeps_gates(m, r);
                lemma_content_has_mask(m, r);
            } else {
                lemma_repair_target(m);
                lemma_moved_to(m, nearest_shown(m.mask(), focus));
            }
        },
        _ => {},
    }
}

/// Repair leaves a well-formed control well formed and settled, holding the
/// focus if and only if it did, and changes nothing else. A settled control
/// is left as it is.
pub proof fn lemma_repaired(m: Model)
    requires
        m.wf(),
    ensures
        m.repaired().wf(),
        m.repaired().settled(),
        m.repaired().focused() == m.focused(),
        m.same_content(m.repaired()),
        m.settled() ==> m.repaired() == m,
    decreases m,
{
    match m {
        Model::Group { title, policy, focus, slots } => {
            let r = m.repaired();
            let s = r.slots();
            if m.shown(focus) {
                lemma_repaired(slots[focus].model);
                assert forall|i: int| 0 <= i < slots.len() implies slots[i].model.same_content(
                    (#[trigger] s[i]).model,
                ) by {
                    if i != focus {
                        lemma_same_content_refl(slots[i].model);
                    }
                }
                lemma_content_has_frame(m, r);
                lemma_frame_keeps_gates(m, r);
                lemma_content_has_mask(m, r);
                if m.settled() {
                    assert(s =~= slots);
                }
            } else if slots[focus].model.focused() {
                lemma_repair_target(m);
                lemma_moved_to(m, nearest_shown(m.mask(), focus));
            } else {
                lemma_repair_target(m);
                let to = nearest_shown(m.mask(), focus);
                lemma_repaired(slots[to].model);
                lemma_unfocused_is_quiet(slots[focus].model);
                lemma_quiet_is_unfocused(slots[to].model);
                assert forall|i: int| 0 <= i < slots.len() implies slots[i].model.same_content(
                    (#[trigger] s[i]).model,
                ) by {
                    if i != to {
                        lemma_same_content_refl(slots[i].model);
                    }
                }
                lemma_content_has_frame(m, r);
                lemma_frame_keeps_gates(m, r);
                lemma_content_has_mask(m, r);
            }
        },
        _ => {},
    }
}

/// The slot that an advance or a retreat moves focus to is shown.
pub proof fn lemma_step_target(mask: Seq<bool>, policy: FocusPolicy, i: int)
    requires
        0 <= i < mask.len(),
        mask[i],
    ensures
        forward(mask, policy, i) matches Some(j) ==> 0 <= j < mask.len() && mask[j],
        backward(mask, policy, i) matches Some(j) ==> 0 <= j < mask.len() && mask[j],
{
    lemma_next_shown(mask, i);
    lemma_prev_shown(mask, i);
    lemma_first_shown(mask, i);
    lemma_last_shown(mask, i);
}

/// A focus step leaves a well-formed composite with focus on a shown slot
/// well formed, and changes nothing but where the focus is. A step that
/// moves focus leaves the composite settled and holding the focus. A step
/// that is handed back changes nothing.
pub proof fn lemma_stepped(m: Model, target: Option<int>)
    requires
        m is Group,
        m.wf(),
        target matches Some(to) ==> m.shown(to),
    ensures
        m.stepped(target).0.wf(),
        m.same_content(m.stepped(target).0),
        m.stepped(target).1 == (target is Some),
        target matches Some(to) ==> m.stepped(target).0.focus_slot() == to,
        target matches Some(to) ==> to != m.focus_slot() ==> m.stepped(target).0.focused()
            && m.stepped(target).0.settled(),
        target matches Some(to) ==> to == m.focus_slot() ==> m.stepped(target).0 == m,
        target is None ==> m.stepped(target).0 == m,
{
    lemma_same_content_refl(m);
    match target {
        Some(to) => {
            if to != m.focus_slot() {
                lemma_moved_to(m, to);
            }
        },
        None => {},
    }
}

/// A key event leaves a well-formed, settled control well formed and
/// settled, with the frame it had, and holding the focus if it did. An
/// event that is not consumed changes nothing, and an event of a key that
/// no control has a use for is not consumed.
pub proof fn lemma_reaction(m: Model, key: KeyEvent)
    requires
        m.wf(),
        m.settled(),
    ensures
        m.reaction(key).0.wf(),
        m.reaction(key).0.settled(),
        m.same_frame(m.reaction(key).0),
        m.focused() ==> m.reaction(key).0.focused(),
        !m.reaction(key).1 ==> m.reaction(key).0 == m,
        !key.code.has_handler() ==> !m.reaction(key).1,
    decreases m,
{
    lemma_same_frame_refl(m);
    match m {
        Model::Text { .. } => {},
        Model::Select { .. } => {},
        Model::Group { title, policy, focus, slots } => {
            let (child, used) = slots[focus].model.reaction(key);
            lemma_reaction(slots[focus].model, key);
            let offered = Model::Group {
                title,
                policy,
                focus,
                slots: slots.update(focus, slots[focus].holding(child)),
            };
            let s = offered.slots();
            assert forall|i: int| 0 <= i < slots.len() implies slots[i].model.same_frame(
                (#[trigger] s[i]).model,
            ) by {
                if i != focus {
                    lemma_same_frame_refl(slots[i].model);
                }
            }
            lemma_frame_keeps_gates(m, offered);
            assert(offered.shown(focus)) by {
                match slots[focus].gate {
                    Gate::Always => {},
                    Gate::When { selector, option } => {
                        assert(m.gate_in_order(focus));
                        assert(selector as int != focus);
                    },
                }
            }
            assert(offered.wf());
            assert(offered.settled());
            if !used {
                assert(s =~= slots);
                assert(offered == m);
                assert(m.mask()[focus]);
                lemma_step_target(m.mask(), policy, focus);
                if key.code.advances() {
                    let target = forward(m.mask(), policy, focus);
                    lemma_stepped(m, target);
                    lemma_content_has_frame(m, m.stepped(target).0);
                } else if key.code.retreats() {
                    let target = backward(m.mask(), policy, focus);
                    lemma_stepped(m, target);
                    lemma_content_has_frame(m, m.stepped(target).0);
                }
            }
        },
    }
}

/// Among slots whose children are all without focus, no field has it.
pub proof fn lemma_quiet_counts_none(m: Model)
    requires
        m.quiet(),
    ensures
        m.focused_leaves() == 0,
    decreases m, 1nat,
{
    match m {
        Model::Group { slots, .. } => {
            lemma_quiet_slots_count_none(slots, slots.len());
        },
        _ => {},
    }
}

/// Among slots whose children are all without focus, no field has it.
pub proof fn lemma_quiet_slots_count_none(slots: Seq<SlotModel>, n: nat)
    requires
        n <= slots.len(),
        forall|i: int| 0 <= i < n ==> (#[trigger] slots[i]).model.quiet(),
    ensures
        Model::focused_leaves_among(slots, n) == 0,
    decreases slots, n,
{
    if n > 0 {
        lemma_quiet_slots_count_none(slots, (n - 1) as nat);
        lemma_quiet_counts_none(slots[n - 1].model);
    }
}

/// In a well-formed control that holds the focus exactly one field has it,
/// and in one that does not, none has.
pub proof fn lemma_focused_leaves(m: Model)
    requires
        m.wf(),
    ensures
        m.focused_leaves() == if m.focused() {
            1nat
        } else {
            0nat
        },
    decreases m, 1nat,
{
    match m {
        Model::Group { focus, slots, .. } => {
            lemma_focused_leaves_among(m, slots.len());
        },
        _ => {},
    }
}

/// The fields with focus among the first `n` slots of a well-formed
/// composite: one if the focus slot is among them and holds the focus, else
/// none.
pub proof fn lemma_focused_leaves_among(m: Model, n: nat)
    requires
        m is Group,
        m.wf(),
        n <= m.slots().len(),
    ensures
        Model::focused_leaves_among(m.slots(), n) == if m.focus_slot() < n && m.focused() {
            1nat
        } else {
            0nat
        },
    decreases m, 0nat, n,
{
    let slots = m.slots();
    if n > 0 {
        lemma_focused_leaves_among(m, (n - 1) as nat);
        if n - 1 == m.focus_slot() {
            lemma_focused_leaves(slots[n - 1].model);
        } else {
            lemma_quiet_counts_none(slots[n - 1].model);
        }
    }
}

/// A child is less deep than the composite it is in.
pub proof fn lemma_child_depth(m: Model, i: int)
    requires
        m is Group,
        0 <= i < m.slots().len(),
    ensures
        m.slots()[i].model.depth() < m.depth(),
{
    lemma_depth_among(m.slots(), m.slots().len(), i);
}

/// No child among the first `n` slots is deeper than the deepest of them.
pub proof fn lemma_depth_among(slots: Seq<SlotModel>, n: nat, i: int)
    requires
        0 <= i < n <= slots.len(),
    ensures
        slots[i].model.depth() <= Model::depth_among(slots, n),
    decreases n,
{
    if i < n - 1 {
        lemma_depth_among(slots, (n - 1) as nat, i);
    }
}

/// Controls of the same frame are equally deep.
pub proof fn lemma_frame_has_depth(a: Model, b: Model)
    requires
        a.same_frame(b),
    ensures
        a.depth() == b.depth(),
    decreases a, 1nat,
{
    match a {
        Model::Group { slots, .. } => {
            lemma_frame_has_depth_among(a, b, slots.len());
        },
        _ => {},
    }
}

/// Composites of the same frame are equally deep in their first `n` slots.
pub proof fn lemma_frame_has_depth_among(a: Model, b: Model, n: nat)
    requires
        a is Group,
        a.same_frame(b),
        n <= a.slots().len(),
    ensures
        Model::depth_among(a.slots(), n) == Model::depth_among(b.slots(), n),
    decreases a, 0nat, n,
{
    if n > 0 {
        lemma_frame_has_depth_among(a, b, (n - 1) as nat);
        assert(b.slots()[n - 1].gate == a.slots()[n - 1].gate);
        lemma_frame_has_depth(a.slots()[n - 1].model, b.slots()[n - 1].model);
    }
}

/// There is one height for each shown slot, and the height of a shown
/// slot stands where the slot stands among the shown ones.
pub proof fn lemma_heights_among(slots: Seq<SlotModel>, mask: Seq<bool>, n: int)
    requires
        0 <= n <= slots.len(),
        mask.len() == slots.len(),
    ensures
        Model::heights_among(slots, mask, n).len() == count_shown(mask, n),
        forall|k: int|
            #![trigger rank(mask, k)]
            0 <= k < n && mask[k] ==> Model::heights_among(slots, mask, n)[rank(mask, k)]
                == slots[k].height,
    decreases n,
{
    if n > 0 {
        lemma_heights_among(slots, mask, n - 1);
        assert forall|k: int| #![trigger rank(mask, k)] 0 <= k < n && mask[k] implies
            Model::heights_among(slots, mask, n)[rank(mask, k)] == slots[k].height by {
            if k < n - 1 {
                crate::slots::lemma_count_grows(mask, k, n - 1);
            }
        }
    }
}

/// Having the same frame carries over.
pub proof fn lemma_same_frame_trans(a: Model, b: Model, c: Model)
    requires
        a.same_frame(b),
        b.same_frame(c),
    ensures
        a.same_frame(c),
    decreases a,
{
    match a {
        Model::Group { slots, .. } => {
            let sb = b.slots();
            let sc = c.slots();
            assert forall|i: int| 0 <= i < slots.len() implies {
                &&& (#[trigger] sc[i]).gate == slots[i].gate
                &&& sc[i].height == slots[i].height
                &&& slots[i].model.same_frame(sc[i].model)
            } by {
                assert(sb[i].gate == slots[i].gate);
                assert(sc[i].gate == sb[i].gate);
                lemma_same_frame_trans(slots[i].model, sb[i].model, sc[i].model);
            }
        },
        _ => {},
    }
}

/// Focus, blur and repair leave a well-formed control with the frame it
/// had.
pub proof fn lemma_frame_is_kept(m: Model)
    requires
        m.wf(),
    ensures
        m.same_frame(m.with_focus()),
        m.same_frame(m.blurred()),
        m.same_frame(m.repaired()),
{
    lemma_with_focus(m);
    lemma_blurred(m);
    lemma_repaired(m);
    lemma_content_has_frame(m, m.with_focus());
    lemma_content_has_frame(m, m.blurred());
    lemma_content_has_frame(m, m.repaired());
}

/// A key event leaves a well-formed control with the frame it had.
pub proof fn lemma_key_keeps_frame(m: Model, key: KeyEvent)
    requires
        m.wf(),
    ensures
        m.same_frame(m.after_key(key)),
{
    lemma_frame_is_kept(m);
    lemma_repaired(m);
    lemma_reaction(m.repaired(), key);
    lemma_same_frame_trans(m, m.repaired(), m.after_key(key));
}

} // verus!
