//! The form in which an account is configured.

use crate::account_config::imap_config::{ImapConfig, imap_model};
use crate::account_config::maildir_config::{MaildirConfig, maildir_model};
use crate::composite::{Composite, Node, Slot, fit_for_composite, slot_models};
use crate::control::Control;
use crate::fields::{SelectField, TextField};
use crate::key::KeyEvent;
use crate::model::{Gate, Model, SlotModel};
use crate::proofs::{
    lemma_frame_is_kept, lemma_key_keeps_frame, lemma_same_frame_refl, lemma_same_frame_trans,
};
use crate::slots::FocusPolicy;
use crate::surface::{Rect, Scene};
use std::ops::ControlFlow;
use vstd::prelude::*;
use vstd::string::StringExecFns;

verus! {

/// The slots of the account form, in their order. The last two are the
/// panels of the two kinds of backend; at most one of them is shown.
#[derive(Clone, Copy, Debug, PartialEq, Eq, Structural)]
pub enum AccountSlot {
    AccountName,
    Email,
    DisplayName,
    Backend,
    ImapConfig,
    MaildirConfig,
}

impl AccountSlot {
    /// The number of slots.
    pub const COUNT: usize = 6;

    /// The number of the slot.
    pub open spec fn index(self) -> int {
        match self {
            AccountSlot::AccountName => 0,
            AccountSlot::Email => 1,
            AccountSlot::DisplayName => 2,
            AccountSlot::Backend => 3,
            AccountSlot::ImapConfig => 4,
            AccountSlot::MaildirConfig => 5,
        }
    }

    /// The number of the slot.
    pub fn repr(self) -> (index: usize)
        ensures
            index == self.index(),
            index < Self::COUNT,
    {
        match self {
            AccountSlot::AccountName => 0,
            AccountSlot::Email => 1,
            AccountSlot::DisplayName => 2,
            AccountSlot::Backend => 3,
            AccountSlot::ImapConfig => 4,
            AccountSlot::MaildirConfig => 5,
        }
    }

    /// The slot with the given number, if there is one.
    pub fn from_repr(index: usize) -> (slot: Option<AccountSlot>)
        ensures
            match slot {
                Some(slot) => slot.index() == index,
                None => index >= Self::COUNT,
            },
    {
        match index {
            0 => Some(AccountSlot::AccountName),
            1 => Some(AccountSlot::Email),
            2 => Some(AccountSlot::DisplayName),
            3 => Some(AccountSlot::Backend),
            4 => Some(AccountSlot::ImapConfig),
            5 => Some(AccountSlot::MaildirConfig),
            _ => None,
        }
    }
}

/// The number of the backend option that shows the IMAP panel.
pub const BACKEND_IMAP: usize = 0;

/// The number of the backend option that shows the mail directory panel.
pub const BACKEND_MAILDIR: usize = 1;

/// The number of the backend option that shows no panel.
pub const BACKEND_NONE: usize = 2;

/// The rows that the IMAP panel takes up: its five fields and its border.
pub const IMAP_ROWS: u16 = 7;

/// The rows that the mail directory panel takes up: its field and its
/// border.
pub const MAILDIR_ROWS: u16 = 3;

/// The form for an account: its name, the mail address, the name to
/// display, the kind of backend, and the panel of the chosen backend.
#[derive(Debug)]
pub struct AccountConfig {
    form: Composite,
}

/// The options of the backend field.
pub open spec fn backend_options() -> Seq<Seq<char>> {
    seq!["IMAP"@, "Maildir"@, "None"@]
}

/// The form as it is made from two panels: empty fields, the IMAP backend
/// chosen, focus on the account name slot, and no field holding it.
pub open spec fn account_model(policy: FocusPolicy, imap: Model, maildir: Model) -> Model {
    Model::Group {
        title: "Configure Account"@,
        policy,
        focus: 0,
        slots: seq![
            SlotModel {
                gate: Gate::Always,
                height: 1,
                model: Model::Text { label: "Account Name"@, value: Seq::empty(), focused: false },
            },
            SlotModel {
                gate: Gate::Always,
                height: 1,
                model: Model::Text { label: "Email"@, value: Seq::empty(), focused: false },
            },
            SlotModel {
                gate: Gate::Always,
                height: 1,
                model: Model::Text { label: "Display Name"@, value: Seq::empty(), focused: false },
            },
            SlotModel {
                gate: Gate::Always,
                height: 1,
                model: Model::Select {
                    label: "Backend"@,
                    options: backend_options(),
                    index: 0,
                    focused: false,
                },
            },
            SlotModel {
                gate: Gate::When { selector: 3, option: BACKEND_IMAP },
                height: IMAP_ROWS,
                model: imap.blurred(),
            },
            SlotModel {
                gate: Gate::When { selector: 3, option: BACKEND_MAILDIR },
                height: MAILDIR_ROWS,
                model: maildir.blurred(),
            },
        ],
    }
}

/// Whether a control has the slots of the account form: the three text
/// fields, the backend field with its options, and the two panels, each
/// shown on its backend. Where the focus is and what the fields hold is
/// left open.
pub open spec fn has_account_frame(m: Model) -> bool {
    m is Group && exists|imap: Model, maildir: Model|
        (#[trigger] account_model(m->policy, imap, maildir)).same_frame(m)
}

/// A control that has the slots of the account form keeps them through
/// whatever keeps its frame.
pub proof fn lemma_account_frame_is_kept(before: Model, after: Model)
    requires
        has_account_frame(before),
        before.same_frame(after),
    ensures
        has_account_frame(after),
{
    let (imap, maildir) = choose|imap: Model, maildir: Model|
        (#[trigger] account_model(before->policy, imap, maildir)).same_frame(before);
    lemma_same_frame_trans(account_model(before->policy, imap, maildir), before, after);
}

/// In a control that has the slots of the account form there are six
/// slots, and the fourth holds the backend field with its three options.
pub proof fn lemma_account_frame(m: Model)
    requires
        has_account_frame(m),
    ensures
        m.slots().len() == 6,
        m.slots()[3].model matches Model::Select { options, .. } && options == backend_options(),
        backend_options().len() == 3,
{
    let (imap, maildir) = choose|imap: Model, maildir: Model|
        (#[trigger] account_model(m->policy, imap, maildir)).same_frame(m);
    let made = account_model(m->policy, imap, maildir);
    assert(made.slots()[3].model.same_frame(m.slots()[3].model));
}

impl AccountConfig {
    /// Whether the form is well formed and has the slots it was made with.
    pub open spec fn inv(&self) -> bool {
        self.model().wf() && has_account_frame(self.model())
    }

    /// The form with empty fields, the given focus policy, and the given
    /// panels for the two kinds of backend. The panels lose the focus if
    /// they hold it.
    pub fn new(policy: FocusPolicy, imap: ImapConfig, maildir: MaildirConfig) -> (config:
        AccountConfig)
        requires
            imap.model().wf(),
            maildir.model().wf(),
        ensures
            config.model() == account_model(policy, imap.model(), maildir.model()),
            config.model().wf(),
            config.inv(),
    {
        proof {
            lemma_same_frame_refl(account_model(policy, imap.model(), maildir.model()));
        }
        let ghost imap_model = imap.model();
        let ghost maildir_model = maildir.model();
        let mut imap = imap;
        let mut maildir = maildir;
        imap.blur();
        maildir.blur();
        let mut backends: Vec<&'static str> = Vec::new();
        backends.push("IMAP");
        backends.push("Maildir");
        backends.push("None");
        let backend = SelectField::new("Backend", backends);
        assert(backend.model()->Select_options =~= backend_options());
        let mut slots: Vec<Slot> = Vec::new();
        slots.push(Slot::always(Node::text(TextField::new("Account Name")), 1));
        slots.push(Slot::always(Node::text(TextField::new("Email")), 1));
        slots.push(Slot::always(Node::text(TextField::new("Display Name")), 1));
        slots.push(Slot::always(Node::select(backend), 1));
        slots.push(Slot::when(Node::group(imap.into_composite()), IMAP_ROWS, 3, BACKEND_IMAP));
        slots.push(
            Slot::when(Node::group(maildir.into_composite()), MAILDIR_ROWS, 3, BACKEND_MAILDIR),
        );
        proof {
            let models = slot_models(slots@);
            let wanted = account_model(policy, imap_model, maildir_model);
            assert(models =~= wanted.slots());
            assert(backend_options().len() == 3);
            assert forall|i: int| 0 <= i < models.len() implies crate::model::gate_fits(
                models,
                i,
            ) by {}
            assert(fit_for_composite(models));
        }
        match Composite::new(String::from_str("Configure Account"), policy, slots) {
            Some(form) => AccountConfig { form },
            None => vstd::pervasive::unreached(),
        }
    }

    /// The form with a mail directory panel for `directory` and an empty
    /// IMAP panel, both under clamped delegation.
    pub fn with_mail_directory(policy: FocusPolicy, directory: String) -> (config: AccountConfig)
        ensures
            config.model() == account_model(
                policy,
                imap_model(FocusPolicy::ClampedDelegation),
                maildir_model(FocusPolicy::ClampedDelegation, directory@),
            ),
            config.model().wf(),
            config.inv(),
    {
        AccountConfig::new(policy, ImapConfig::default(), MaildirConfig::with_directory(directory))
    }

    /// The slot that is in focus.
    pub fn focused_slot(&self) -> (slot: Option<AccountSlot>)
        ensures
            match slot {
                Some(slot) => slot.index() == self.model().focus_slot(),
                None => self.model().focus_slot() >= AccountSlot::COUNT,
            },
            self.inv() ==> slot is Some,
    {
        proof {
            if self.inv() {
                lemma_account_frame(self.model());
            }
        }
        AccountSlot::from_repr(self.form.focus_index())
    }

    /// Chooses the kind of backend, wherever the focus is, and says whether
    /// there is such a kind: there are three. Focus stays where it was, also where it is in
    /// the panel that the choice hides: the next repair moves it.
    pub fn select_backend(&mut self, option: usize) -> (done: bool)
        requires
            old(self).model().wf(),
        ensures
            done <==> old(self).model().slots().len() > 3 && (
            old(self).model().slots()[3].model matches Model::Select { options, .. } && option
                < options.len()),
            final(self).model() == if done {
                old(self).model().with_choice(3, option as int)
            } else {
                old(self).model()
            },
            final(self).model().wf(),
            final(self).model().focused_leaves() == old(self).model().focused_leaves(),
            old(self).inv() ==> (done <==> option < 3) && final(self).inv(),
    {
        proof {
            if self.inv() {
                lemma_account_frame(self.model());
                lemma_same_frame_refl(self.model());
                if option < 3 {
                    crate::laws::law_gating_change(self.model(), 3, option as int);
                    lemma_account_frame_is_kept(
                        self.model(),
                        self.model().with_choice(3, option as int),
                    );
                }
            }
        }
        self.form.select_option(3, option)
    }

    /// Repairs the focus: where it is on the panel of a backend that is no
    /// longer chosen, it moves to the backend field.
    pub fn repair_focus(&mut self)
        requires
            old(self).model().wf(),
        ensures
            final(self).model() == old(self).model().repaired(),
            final(self).model().wf(),
            final(self).model().settled(),
            final(self).model().shown(final(self).model().focus_slot()),
            final(self).model().focused() == old(self).model().focused(),
            final(self).model().focused_leaves() == old(self).model().focused_leaves(),
            old(self).model().settled() ==> final(self).model() == old(self).model(),
            old(self).inv() ==> final(self).inv(),
    {
        proof {
            lemma_frame_is_kept(self.model());
            if self.inv() {
                lemma_account_frame_is_kept(self.model(), self.model().repaired());
            }
        }
        self.form.repair_focus()
    }

    /// The composite that the form is.
    pub fn as_composite(&self) -> (form: &Composite)
        ensures
            form.model() == self.model(),
    {
        &self.form
    }

    /// The composite that the form is, to put it in a slot.
    pub fn into_composite(self) -> (form: Composite)
        ensures
            form.model() == self.model(),
    {
        self.form
    }
}

impl Default for AccountConfig {
    /// The form under bounded cycling, with an empty IMAP panel and the
    /// suggested mail directory. What the directory is depends on the
    /// platform.
    fn default() -> (config: AccountConfig)
        ensures
            exists|directory: Seq<char>|
                config.model() == account_model(
                    FocusPolicy::BoundedCycling,
                    imap_model(FocusPolicy::ClampedDelegation),
                    maildir_model(FocusPolicy::ClampedDelegation, directory),
                ),
            config.model().wf(),
            config.inv(),
    {
        AccountConfig::with_mail_directory(
            FocusPolicy::BoundedCycling,
            MaildirConfig::suggested_directory(),
        )
    }
}

impl Control for AccountConfig {
    closed spec fn model(&self) -> Model {
        self.form.model()
    }

    fn render(&self, area: Rect) -> (scene: Scene) {
        self.form.render(area)
    }

    fn focus(&mut self)
        ensures
            old(self).inv() ==> final(self).inv(),
    {
        proof {
            lemma_frame_is_kept(self.model());
            if self.inv() {
                lemma_account_frame_is_kept(self.model(), self.model().with_focus());
            }
        }
        self.form.focus()
    }

    fn blur(&mut self)
        ensures
            old(self).inv() ==> final(self).inv(),
    {
        proof {
            lemma_frame_is_kept(self.model());
            if self.inv() {
                lemma_account_frame_is_kept(self.model(), self.model().blurred());
            }
        }
        self.form.blur()
    }

    fn handle_key_event(&mut self, key: KeyEvent) -> (flow: ControlFlow<()>)
        ensures
            old(self).inv() ==> final(self).inv(),
    {
        proof {
            lemma_key_keeps_frame(self.model(), key);
            if self.inv() {
                lemma_account_frame_is_kept(self.model(), self.model().after_key(key));
            }
        }
        self.form.handle_key_event(key)
    }
}

} // verus!
