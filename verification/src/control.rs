//! What every control can do: show itself, gain and lose the focus, and
//! take one key event.

use crate::key::KeyEvent;
use crate::model::Model;
use crate::surface::{Rect, Scene, depicts};
use std::ops::ControlFlow;
use vstd::prelude::*;

verus! {

/// A node of the tree of controls.
///
/// `handle_key_event` answers `ControlFlow::Break(())` when the control has
/// consumed the event, and `ControlFlow::Continue(())` when whoever owns
/// the control may put the key to a use of its own.
pub trait Control {
    /// The control as the contracts see it.
    spec fn model(&self) -> Model;

    /// What the control looks like in the cells of `area`. The control is
    /// left as it is.
    fn render(&self, area: Rect) -> (scene: Scene)
        requires
            self.model().wf(),
        ensures
            depicts(self.model(), area, scene@),
            scene@.area() == area,
    ;

    /// The control gains the focus, which comes to rest on exactly one of
    /// its fields.
    fn focus(&mut self)
        requires
            old(self).model().wf(),
        ensures
            final(self).model() == old(self).model().with_focus(),
            final(self).model().wf(),
            final(self).model().settled(),
            final(self).model().focused(),
            final(self).model().focused_leaves() == 1,
    ;

    /// The control loses the focus, and so does every field in it.
    fn blur(&mut self)
        requires
            old(self).model().wf(),
        ensures
            final(self).model() == old(self).model().blurred(),
            final(self).model().wf(),
            !final(self).model().focused(),
            final(self).model().focused_leaves() == 0,
    ;

    /// The control takes one key event. An event that it does not consume
    /// leaves it as it was, but for the repair of a focus that was on a
    /// hidden slot; it consumes no event of a key that no control has a use
    /// for.
    fn handle_key_event(&mut self, key: KeyEvent) -> (flow: ControlFlow<()>)
        requires
            old(self).model().wf(),
        ensures
            final(self).model() == old(self).model().after_key(key),
            flow is Break <==> old(self).model().consumes(key),
            final(self).model().wf(),
            final(self).model().settled(),
            flow is Continue && old(self).model().settled() ==> final(self).model() == old(
                self,
            ).model(),
            !key.code.has_handler() ==> flow is Continue,
            old(self).model().focused() ==> final(self).model().focused(),
            old(self).model().focused() ==> final(self).model().focused_leaves() == 1,
    ;
}

} // verus!
