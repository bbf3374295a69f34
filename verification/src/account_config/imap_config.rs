//! The panel with the settings of an IMAP server.

use crate::composite::{Composite, Node, Slot, fit_for_composite, slot_models};
use crate::control::Control;
use crate::fields::{SelectField, TextField};
use crate::key::KeyEvent;
use crate::proofs::{
    lemma_frame_is_kept, lemma_key_keeps_frame, lemma_same_frame_refl, lemma_same_frame_trans,
};
use crate::model::{Gate, Model, SlotModel};
use crate::slots::FocusPolicy;
use crate::surface::{Rect, Scene};
use std::ops::ControlFlow;
use vstd::prelude::*;
use vstd::string::StringExecFns;

verus! {

/// The slots of the IMAP panel, in their order.
#[derive(Clone, Copy, Debug, PartialEq, Eq, Structural)]
pub enum ImapSlot {
    Host,
    Protocol,
    Port,
    Username,
    Password,
}

impl ImapSlot {
    /// The number of slots.
    pub const COUNT: usize = 5;

    /// The number of the slot.
    pub open spec fn index(self) -> int {
        match self {
            ImapSlot::Host => 0,
            ImapSlot::Protocol => 1,
            ImapSlot::Port => 2,
            ImapSlot::Username => 3,
            ImapSlot::Password => 4,
        }
    }

    /// The number of the slot.
    pub fn repr(self) -> (index: usize)
        ensures
            index == self.index(),
            index < Self::COUNT,
    {
        match self {
            ImapSlot::Host => 0,
            ImapSlot::Protocol => 1,
            ImapSlot::Port => 2,
            ImapSlot::Username => 3,
            ImapSlot::Password => 4,
        }
    }

    /// The slot with the given number, if there is one.
    pub fn from_repr(index: usize) -> (slot: Option<ImapSlot>)
        ensures
            match slot {
                Some(slot) => slot.index() == index,
                None => index >= Self::COUNT,
            },
    {
        match index {
            0 => Some(ImapSlot::Host),
            1 => Some(ImapSlot::Protocol),
            2 => Some(ImapSlot::Port),
            3 => Some(ImapSlot::Username),
            4 => Some(ImapSlot::Password),
            _ => None,
        }
    }
}

/// The settings of an IMAP server: host, protocol, port, user name and
/// password, one slot each.
#[derive(Debug)]
pub struct ImapConfig {
    form: Composite,
}

/// The options of the protocol field.
pub open spec fn protocol_options() -> Seq<Seq<char>> {
    seq!["SSL/TLS"@, "STARTTLS"@, "None"@]
}

/// The panel as it is made: empty fields, the first protocol chosen, focus
/// on the host slot, and no field holding it.
pub open spec fn imap_model(policy: FocusPolicy) -> Model {
    Model::Group {
        title: "IMAP Config"@,
        policy,
        focus: 0,
        slots: seq![
            SlotModel {
                gate: Gate::Always,
                height: 1,
                model: Model::Text { label: "Host"@, value: Seq::empty(), focused: false },
            },
            SlotModel {
                gate: Gate::Always,
                height: 1,
                model: Model::Select {
                    label: "Protocol"@,
                    options: protocol_options(),
                    index: 0,
                    focused: false,
                },
            },
            SlotModel {
                gate: Gate::Always,
                height: 1,
                model: Model::Text { label: "Port"@, value: Seq::empty(), focused: false },
            },
            SlotModel {
                gate: Gate::Always,
                height: 1,
                model: Model::Text { label: "Username"@, value: Seq::empty(), focused: false },
            },
            SlotModel {
                gate: Gate::Always,
                height: 1,
                model: Model::Text { label: "Password"@, value: Seq::empty(), focused: false },
            },
        ],
    }
}

/// Whether a control has the slots of the IMAP panel: the five fields, with
/// their labels and options, in their order. Where the focus is and what
/// the fields hold is left open.
pub open spec fn has_imap_frame(m: Model) -> bool {
    m is Group && imap_model(m->policy).same_frame(m)
}

/// A control that has the slots of the IMAP panel keeps them through
/// whatever keeps its frame.
pub proof fn lemma_imap_frame_is_kept(before: Model, after: Model)
    requires
        has_imap_frame(before),
        before.same_frame(after),
    ensures
        has_imap_frame(after),
{
    lemma_same_frame_trans(imap_model(before->policy), before, after);
}

impl ImapConfig {
    /// Whether the panel is well formed and has the slots it was made with.
    pub open spec fn inv(&self) -> bool {
        self.model().wf() && has_imap_frame(self.model())
    }

    /// The panel with empty fields and the given focus policy.
    pub fn new(policy: FocusPolicy) -> (config: ImapConfig)
        ensures
            config.model() == imap_model(policy),
            config.model().wf(),
            config.inv(),
    {
        proof {
            lemma_same_frame_refl(imap_model(policy));
        }
        let mut protocols: Vec<&'static str> = Vec::new();
        protocols.push("SSL/TLS");
        protocols.push("STARTTLS");
        protocols.push("None");
        let protocol = SelectField::new("Protocol", protocols);
        assert(protocol.model()->Select_options =~= protocol_options());
        let mut slots: Vec<Slot> = Vec::new();
        slots.push(Slot::always(Node::text(TextField::new("Host")), 1));
        slots.push(Slot::always(Node::select(protocol), 1));
        slots.push(Slot::always(Node::text(TextField::new("Port")), 1));
        slots.push(Slot::always(Node::text(TextField::new("Username")), 1));
        slots.push(Slot::always(Node::text(TextField::new("Password")), 1));
        assert(slot_models(slots@) =~= imap_model(policy).slots());
        assert(fit_for_composite(slot_models(slots@)));
        match Composite::new(String::from_str("IMAP Config"), policy, slots) {
            Some(form) => ImapConfig { form },
            None => vstd::pervasive::unreached(),
        }
    }

    /// The slot that is in focus.
    pub fn focused_slot(&self) -> (slot: Option<ImapSlot>)
        ensures
            match slot {
                Some(slot) => slot.index() == self.model().focus_slot(),
                None => self.model().focus_slot() >= ImapSlot::COUNT,
            },
            self.inv() ==> slot is Some,
    {
        ImapSlot::from_repr(self.form.focus_index())
    }

    /// The composite that the panel is.
    pub fn as_composite(&self) -> (form: &Composite)
        ensures
            form.model() == self.model(),
    {
        &self.form
    }

    /// The composite that the panel is, to put it in a slot.
    pub fn into_composite(self) -> (form: Composite)
        ensures
            form.model() == self.model(),
    {
        self.form
    }
}

impl Default for ImapConfig {
    /// The panel under clamped delegation, for use in a slot of a larger
    /// form.
    fn default() -> (config: ImapConfig)
        ensures
            config.model() == imap_model(FocusPolicy::ClampedDelegation),
            config.model().wf(),
            config.inv(),
    {
        ImapConfig::new(FocusPolicy::ClampedDelegation)
    }
}

impl Control for ImapConfig {
    closed spec fn model(&self) -> Model {
        self.form.model()
    }

    fn render(&self, area: Rect) -> (scene: Scene) {
        self.form.render(area)
    }

    fn focus(&mut self)
        ensures
            old(self).inv() ==> final(self).inv(),
    {
        proof {
            lemma_frame_is_kept(self.model());
            if self.inv() {
                lemma_imap_frame_is_kept(self.model(), self.model().with_focus());
            }
        }
        self.form.focus()
    }

    fn blur(&mut self)
        ensures
            old(self).inv() ==> final(self).inv(),
    {
        proof {
            lemma_frame_is_kept(self.model());
            if self.inv() {
                lemma_imap_frame_is_kept(self.model(), self.model().blurred());
            }
        }
        self.form.blur()
    }

    fn handle_key_event(&mut self, key: KeyEvent) -> (flow: ControlFlow<()>)
        ensures
            old(self).inv() ==> final(self).inv(),
    {
        proof {
            lemma_key_keeps_frame(self.model(), key);
            if self.inv() {
                lemma_imap_frame_is_kept(self.model(), self.model().after_key(key));
            }
        }
        self.form.handle_key_event(key)
    }
}

} // verus!
