//! What holds of every tree of controls.
//!
//! Each law is stated over the model of a control, and so holds of every
//! executable control whose methods are specified by that model.

use crate::key::KeyEvent;
use crate::model::Model;
use crate::proofs::{
    lemma_content_has_mask, lemma_focused_leaves, lemma_frame_keeps_gates, lemma_reaction,
    lemma_repaired, lemma_same_frame_refl, lemma_same_frame_trans, lemma_step_target,
    lemma_stepped, lemma_with_focus,
};
use crate::slots::{
    FocusPolicy, backward, backward_by, first_shown, forward, forward_by, last_shown,
    lemma_backward_cycle, lemma_backward_by_rank, lemma_forward_by_rank, lemma_forward_cycle,
    lemma_next_shown, lemma_prev_shown, shown_total,
};
use vstd::prelude::*;

verus! {

/// Advances of a composite under bounded cycling are all absorbed, move
/// focus round the ring of shown slots, and touch nothing but the focus.
pub proof fn lemma_advanced_by(m: Model, n: nat)
    requires
        m is Group,
        m.wf(),
        m.shown(m.focus_slot()),
        m->policy == FocusPolicy::BoundedCycling,
    ensures
        m.advanced_by(n) is Group,
        m.advanced_by(n).wf(),
        m.advanced_by(n)->policy == FocusPolicy::BoundedCycling,
        m.advanced_by(n).mask() == m.mask(),
        m.advanced_by(n).focus_slot() == forward_by(m.mask(), m.focus_slot(), n),
        m.advanced_by(n).shown(m.advanced_by(n).focus_slot()),
        m.advanced_by(n).advanced().1,
    decreases n,
{
    let mask = m.mask();
    if n > 0 {
        lemma_advanced_by(m, (n - 1) as nat);
        let at = m.advanced_by((n - 1) as nat);
        lemma_forward_by_rank(mask, m.focus_slot(), (n - 1) as nat);
        lemma_step_target(mask, FocusPolicy::BoundedCycling, at.focus_slot());
        let target = forward(mask, FocusPolicy::BoundedCycling, at.focus_slot());
        lemma_next_shown(mask, at.focus_slot());
        crate::slots::lemma_first_shown(mask, at.focus_slot());
        assert(at.shown(target->0));
        lemma_stepped(at, target);
        lemma_content_has_mask(at, at.advanced().0);
    }
    let now = m.advanced_by(n);
    lemma_forward_by_rank(mask, m.focus_slot(), n);
    lemma_next_shown(mask, now.focus_slot());
    crate::slots::lemma_first_shown(mask, now.focus_slot());
}

/// Retreats of a composite under bounded cycling are all absorbed, move
/// focus round the ring of shown slots, and touch nothing but the focus.
pub proof fn lemma_retreated_by(m: Model, n: nat)
    requires
        m is Group,
        m.wf(),
        m.shown(m.focus_slot()),
        m->policy == FocusPolicy::BoundedCycling,
    ensures
        m.retreated_by(n) is Group,
        m.retreated_by(n).wf(),
        m.retreated_by(n)->policy == FocusPolicy::BoundedCycling,
        m.retreated_by(n).mask() == m.mask(),
        m.retreated_by(n).focus_slot() == backward_by(m.mask(), m.focus_slot(), n),
        m.retreated_by(n).shown(m.retreated_by(n).focus_slot()),
        m.retreated_by(n).retreated().1,
    decreases n,
{
    let mask = m.mask();
    if n > 0 {
        lemma_retreated_by(m, (n - 1) as nat);
        let at = m.retreated_by((n - 1) as nat);
        lemma_backward_by_rank(mask, m.focus_slot(), (n - 1) as nat);
        lemma_step_target(mask, FocusPolicy::BoundedCycling, at.focus_slot());
        let target = backward(mask, FocusPolicy::BoundedCycling, at.focus_slot());
        lemma_prev_shown(mask, at.focus_slot());
        crate::slots::lemma_last_shown(mask, at.focus_slot());
        assert(at.shown(target->0));
        lemma_stepped(at, target);
        lemma_content_has_mask(at, at.retreated().0);
    }
    let now = m.retreated_by(n);
    lemma_backward_by_rank(mask, m.focus_slot(), n);
    lemma_prev_shown(mask, now.focus_slot());
    crate::slots::lemma_last_shown(mask, now.focus_slot());
}

/// Under bounded cycling, as many advances as a composite shows slots bring
/// its focus back to the slot it started on, and every one of them is
/// absorbed by the composite. The same holds of retreats.
pub proof fn law_bounded_cycle(m: Model)
    requires
        m is Group,
        m.wf(),
        m.shown(m.focus_slot()),
        m->policy == FocusPolicy::BoundedCycling,
    ensures
        m.advanced_by(shown_total(m.mask())).focus_slot() == m.focus_slot(),
        m.retreated_by(shown_total(m.mask())).focus_slot() == m.focus_slot(),
        forall|k: nat| #[trigger] m.advanced_by(k).advanced().1,
        forall|k: nat| #[trigger] m.retreated_by(k).retreated().1,
{
    let mask = m.mask();
    lemma_advanced_by(m, shown_total(mask));
    lemma_retreated_by(m, shown_total(mask));
    lemma_forward_cycle(mask, m.focus_slot());
    lemma_backward_cycle(mask, m.focus_slot());
    assert forall|k: nat| #[trigger] m.advanced_by(k).advanced().1 by {
        lemma_advanced_by(m, k);
    }
    assert forall|k: nat| #[trigger] m.retreated_by(k).retreated().1 by {
        lemma_retreated_by(m, k);
    }
}

/// Under clamped delegation, a retreat at the first shown slot and an
/// advance at the last are handed back and change nothing, the focus slot
/// included.
pub proof fn law_clamped_ends(m: Model)
    requires
        m is Group,
        m.wf(),
        m.shown(m.focus_slot()),
        m->policy == FocusPolicy::ClampedDelegation,
    ensures
        first_shown(m.mask()) == Some(m.focus_slot()) ==> m.retreated() == (m, false),
        last_shown(m.mask()) == Some(m.focus_slot()) ==> m.advanced() == (m, false),
        first_shown(m.mask()) != Some(m.focus_slot()) ==> m.retreated().1,
        last_shown(m.mask()) != Some(m.focus_slot()) ==> m.advanced().1,
{
    let mask = m.mask();
    let focus = m.focus_slot();
    assert(mask[focus]);
    lemma_prev_shown(mask, focus);
    lemma_next_shown(mask, focus);
    lemma_next_shown(mask, -1);
    lemma_prev_shown(mask, mask.len() as int);
}

/// Under clamped delegation, a key that asks for a retreat while focus is
/// on a field in the first shown slot, or for an advance while it is on a
/// field in the last, is not consumed and leaves the composite as it was.
pub proof fn law_clamped_hands_back(m: Model, key: KeyEvent)
    requires
        m is Group,
        m.wf(),
        m.settled(),
        m->policy == FocusPolicy::ClampedDelegation,
        !m.slots()[m.focus_slot()].model.reaction(key).1,
        (key.code.retreats() && first_shown(m.mask()) == Some(m.focus_slot())) || (
        key.code.advances() && last_shown(m.mask()) == Some(m.focus_slot())),
    ensures
        !m.consumes(key),
        m.after_key(key) == m,
{
    lemma_repaired(m);
    lemma_reaction(m, key);
    law_clamped_ends(m);
    lemma_reaction(m.slots()[m.focus_slot()].model, key);
    assert(m.slots().update(
        m.focus_slot(),
        m.slots()[m.focus_slot()].holding(m.slots()[m.focus_slot()].model),
    ) =~= m.slots());
}

/// A key event leaves a well-formed control well formed, and one that
/// holds the focus holding it.
pub proof fn lemma_after_key(m: Model, key: KeyEvent)
    requires
        m.wf(),
    ensures
        m.after_key(key).wf(),
        m.after_key(key).settled(),
        m.same_frame(m.after_key(key)),
        m.focused() ==> m.after_key(key).focused(),
{
    lemma_repaired(m);
    lemma_reaction(m.repaired(), key);
    crate::proofs::lemma_content_has_frame(m, m.repaired());
    lemma_same_frame_trans(m, m.repaired(), m.after_key(key));
}

/// Once a well-formed tree of controls has gained the focus, exactly one
/// of its fields holds it, whatever key events follow.
pub proof fn law_one_field_has_focus(m: Model, keys: Seq<KeyEvent>)
    requires
        m.wf(),
    ensures
        m.with_focus().after_keys(keys).wf(),
        m.with_focus().after_keys(keys).focused(),
        m.with_focus().after_keys(keys).focused_leaves() == 1,
    decreases keys.len(),
{
    let start = m.with_focus();
    lemma_with_focus(m);
    if keys.len() > 0 {
        law_one_field_has_focus(m, keys.drop_last());
        lemma_after_key(start.after_keys(keys.drop_last()), keys.last());
    }
    lemma_focused_leaves(start.after_keys(keys));
}

/// Before a well-formed tree of controls has gained the focus, and after it
/// has lost it, none of its fields holds it.
pub proof fn law_no_field_has_focus(m: Model)
    requires
        m.wf(),
    ensures
        m.blurred().focused_leaves() == 0,
        !m.focused() ==> m.focused_leaves() == 0,
{
    crate::proofs::lemma_blurred(m);
    crate::proofs::lemma_quiet_counts_none(m.blurred());
    lemma_focused_leaves(m);
}

/// Repair of a well-formed control leaves focus on a shown slot, here and
/// down the chain of focus slots; it keeps the control well formed and the
/// number of fields that hold the focus, and changes nothing but where the
/// focus is. A control whose focus is on shown slots is left as it is.
pub proof fn law_repair(m: Model)
    requires
        m.wf(),
    ensures
        m.repaired().wf(),
        m.repaired().settled(),
        m is Group ==> m.repaired().shown(m.repaired().focus_slot()),
        m.repaired().focused() == m.focused(),
        m.repaired().focused_leaves() == m.focused_leaves(),
        m.same_content(m.repaired()),
        m.settled() ==> m.repaired() == m,
{
    lemma_repaired(m);
    lemma_focused_leaves(m);
    lemma_focused_leaves(m.repaired());
}

/// A change of what a gating select field has chosen, made while focus is
/// anywhere in the composite, leaves the composite well formed; the repair
/// that follows moves focus to a shown slot and keeps the number of fields
/// that hold the focus.
pub proof fn law_gating_change(m: Model, slot: int, option: int)
    requires
        m is Group,
        m.wf(),
        0 <= slot < m.slots().len(),
        m.slots()[slot].model matches Model::Select { options, .. } && 0 <= option
            < options.len(),
    ensures
        m.with_choice(slot, option).wf(),
        m.same_frame(m.with_choice(slot, option)),
        m.with_choice(slot, option).focused_leaves() == m.focused_leaves(),
        m.with_choice(slot, option).repaired().wf(),
        m.with_choice(slot, option).repaired().shown(
            m.with_choice(slot, option).repaired().focus_slot(),
        ),
        m.with_choice(slot, option).repaired().focused_leaves() == m.focused_leaves(),
{
    let c = m.with_choice(slot, option);
    let slots = m.slots();
    let s = c.slots();
    assert forall|i: int| 0 <= i < slots.len() implies slots[i].model.same_frame(
        (#[trigger] s[i]).model,
    ) by {
        if i != slot {
            lemma_same_frame_refl(slots[i].model);
        }
    }
    lemma_frame_keeps_gates(m, c);
    assert(s[slot].model.wf());
    assert(s[slot].model.quiet() == slots[slot].model.quiet());
    assert(s[slot].model.focused() == slots[slot].model.focused());
    assert forall|i: int| 0 <= i < s.len() implies (#[trigger] s[i]).model.wf() by {
        if i != slot {
            assert(s[i] == slots[i]);
        }
    }
    assert forall|i: int| 0 <= i < s.len() && i != m.focus_slot() implies (
    #[trigger] s[i]).model.quiet() by {
        if i != slot {
            assert(s[i] == slots[i]);
        }
    }
    assert(c.wf());
    assert(c.focused() == m.focused());
    lemma_focused_leaves(m);
    lemma_focused_leaves(c);
    law_repair(c);
}

/// A key that no control has a use for is consumed nowhere: it comes back
/// from the root unconsumed, and has changed nothing in a control whose
/// focus is on shown slots. More generally, an event that is not consumed
/// has done no more than repair the focus.
pub proof fn law_unconsumed_changes_nothing(m: Model, key: KeyEvent)
    requires
        m.wf(),
    ensures
        !key.code.has_handler() ==> !m.consumes(key),
        !m.consumes(key) ==> m.after_key(key) == m.repaired(),
        !m.consumes(key) && m.settled() ==> m.after_key(key) == m,
{
    lemma_repaired(m);
    lemma_reaction(m.repaired(), key);
}

} // verus!
