//! Keys while a modal is open: it owns the keyboard until it is closed.

use vstd::prelude::*;
use crate::text::{pop_char, push_char};
use crate::session::{App, InputField, KeyCode, KeyPress, Modal, ModalAction, QuickAction, Screen};
use crate::plan::ProtocolVerb;
use crate::forms::submitted;
use crate::actions::{opened_form, queued_if, quick_call};

verus! {

/// `new` is `fields` with the focused field's value edited: a character
/// typed (`Some`) or the last one erased (`None`).
pub open spec fn typed(fields: Seq<InputField>, focus: int, c: Option<char>, new: Seq<InputField>) -> bool {
    &&& new.len() == fields.len()
    &&& forall|i: int| 0 <= i < fields.len() && i != focus ==> new[i] == fields[i]
    &&& 0 <= focus < fields.len() ==> {
        &&& new[focus].label == fields[focus].label
        &&& new[focus].is_secret == fields[focus].is_secret
        &&& new[focus].value@ == match c {
            Some(ch) => fields[focus].value@.push(ch),
            None => if fields[focus].value@.len() == 0 {
                fields[focus].value@
            } else {
                fields[focus].value@.drop_last()
            },
        }
    }
}

/// A focus moved one place forward or back, wrapping around `len` places.
pub open spec fn wrapped(i: usize, len: nat, forward: bool) -> usize {
    if forward {
        if i + 1 < len {
            (i + 1) as usize
        } else {
            0
        }
    } else if i == 0 {
        (len - 1) as usize
    } else {
        (i - 1) as usize
    }
}

/// `b` is `a` after a confirmation of `action` was accepted.
pub open spec fn confirmed(a: App, action: ModalAction, b: App) -> bool {
    if action == ModalAction::DeleteBranch {
        submitted(a, action, seq![], b)
    } else {
        b == a
    }
}

/// `b` is `a` after the quick action `q` ran.
pub open spec fn quick_done(a: App, q: QuickAction, b: App) -> bool {
    match q {
        QuickAction::ImportCodeMachine => opened_form(a, ModalAction::ImportCodeMachine, b),
        QuickAction::SpecAudit => opened_form(a, ModalAction::SpecAudit, b),
        QuickAction::Configure => opened_form(a, ModalAction::TokenConfig, b),
        QuickAction::Menu => b == (App { screen: Screen::Menu, menu_index: 0, ..a }),
        _ => queued_if(a, b, quick_call(a.state, q)),
    }
}

/// `b` is `a` after `key` went to the open modal.
pub open spec fn modal_key_effect(a: App, key: KeyPress, b: App) -> bool {
    let closed = App { modal: None, ..a };
    let code = key.code;
    match a.modal {
        None => b == a,
        Some(Modal::Message(_)) => if code == KeyCode::Enter || code == KeyCode::Esc {
            b == closed
        } else {
            b == a
        },
        Some(Modal::Confirm { action, .. }) => if code == KeyCode::Enter {
            confirmed(closed, action, b)
        } else if code == KeyCode::Esc {
            b == closed
        } else {
            b == a
        },
        Some(Modal::Palette { items, index }) => if code == KeyCode::Up || code == KeyCode::Char('k') {
            b == (App { modal: Some(Modal::Palette { items, index: wrapped(index, items@.len(), false) }), ..a })
        } else if code == KeyCode::Down || code == KeyCode::Char('j') {
            b == (App { modal: Some(Modal::Palette { items, index: wrapped(index, items@.len(), true) }), ..a })
        } else if code == KeyCode::Enter {
            quick_done(closed, items@[index as int], b)
        } else if code == KeyCode::Esc {
            b == closed
        } else {
            b == a
        },
        Some(Modal::Form { title, fields, focus, action }) => if code == KeyCode::Tab {
            b == (App { modal: Some(Modal::Form { title, fields, focus: wrapped(focus, fields@.len(), true), action }), ..a })
        } else if code == KeyCode::BackTab {
            b == (App { modal: Some(Modal::Form { title, fields, focus: wrapped(focus, fields@.len(), false), action }), ..a })
        } else if code == KeyCode::Enter {
            submitted(closed, action, fields@, b)
        } else if code == KeyCode::Esc {
            b == closed
        } else if code == KeyCode::Backspace || code is Char {
            &&& b == (App { modal: b.modal, ..a })
            &&& match b.modal {
                Some(Modal::Form { title: t2, fields: f2, focus: c2, action: a2 }) => t2 == title && c2 == focus
                    && a2 == action && typed(fields@, focus as int,
                        match code { KeyCode::Char(ch) => Some(ch), _ => None }, f2@),
                _ => false,
            }
        } else {
            b == a
        },
    }
}

pub(crate) fn edit_field(fields: &mut Vec<InputField>, focus: usize, c: Option<char>)
    ensures
        typed(old(fields)@, focus as int, c, final(fields)@),
{
    if focus < fields.len() {
        let mut f = fields.remove(focus);
        match c {
            Some(ch) => push_char(&mut f.value, ch),
            None => pop_char(&mut f.value),
        }
        fields.insert(focus, f);
        proof {
            assert forall|i: int| 0 <= i < old(fields)@.len() && i != focus implies final(fields)@[i]
                == old(fields)@[i] by {
                if i < focus {
                } else {
                }
            }
        }
    }
}

impl App {
    /// Runs an entry of the quick-action palette.
    pub fn run_quick_action(&mut self, action: QuickAction)
        ensures
            quick_done(*old(self), action, *final(self)),
    {
        match action {
            QuickAction::RunNext => self.run_next(),
            QuickAction::RetryLatest => self.retry_latest(),
            QuickAction::RunQa => self.run_qa_latest(),
            QuickAction::Approve => self.approve_latest(),
            QuickAction::OpenPr => self.open_pr(),
            QuickAction::StartProtocol => self.protocol_action(ProtocolVerb::Start),
            QuickAction::PauseProtocol => self.protocol_action(ProtocolVerb::Pause),
            QuickAction::ResumeProtocol => self.protocol_action(ProtocolVerb::Resume),
            QuickAction::CancelProtocol => self.protocol_action(ProtocolVerb::Cancel),
            QuickAction::ImportCodeMachine => self.open_cm_modal(),
            QuickAction::SpecAudit => self.open_spec_audit_modal(),
            QuickAction::Configure => self.open_token_modal(),
            QuickAction::Menu => {
                self.screen = Screen::Menu;
                self.menu_index = 0;
            },
        }
    }

    /// Accepts a confirmation: the one that deletes a branch submits it.
    pub fn handle_modal_submit(&mut self, action: ModalAction)
        ensures
            confirmed(*old(self), action, *final(self)),
    {
        match action {
            ModalAction::DeleteBranch => self.handle_form_submit(action, Vec::new()),
            _ => {},
        }
    }

    /// Gives a key to the open modal, if any; returns whether one was open.
    /// A form is closed before its values are submitted.
    pub fn handle_modal_key(&mut self, key: KeyPress) -> (consumed: bool)
        requires
            old(self).wf(),
        ensures
            final(self).wf(),
            consumed == old(self).modal is Some,
            modal_key_effect(*old(self), key, *final(self)),
    {
        let m = self.modal.take();
        match m {
            None => false,
            Some(Modal::Message(text)) => {
                match key.code {
                    KeyCode::Enter | KeyCode::Esc => {},
                    _ => self.modal = Some(Modal::Message(text)),
                }
                true
            },
            Some(Modal::Confirm { title, message, action }) => {
                match key.code {
                    KeyCode::Enter => self.handle_modal_submit(action),
                    KeyCode::Esc => {},
                    _ => self.modal = Some(Modal::Confirm { title, message, action }),
                }
                true
            },
            Some(Modal::Palette { items, index }) => {
                match key.code {
                    KeyCode::Up | KeyCode::Char('k') => {
                        let index = if index == 0 {
                            items.len() - 1
                        } else {
                            index - 1
                        };
                        self.modal = Some(Modal::Palette { items, index });
                    },
                    KeyCode::Down | KeyCode::Char('j') => {
                        let n = items.len();
                        let index = if index + 1 < n {
                            index + 1
                        } else {
                            0
                        };
                        self.modal = Some(Modal::Palette { items, index });
                    },
                    KeyCode::Enter => {
                        let q = items[index];
                        self.run_quick_action(q);
                    },
                    KeyCode::Esc => {},
                    _ => self.modal = Some(Modal::Palette { items, index }),
                }
                true
            },
            Some(Modal::Form { title, fields, focus, action }) => {
                match key.code {
                    KeyCode::Tab => {
                        let n = fields.len();
                        let focus = if focus + 1 < n {
                            focus + 1
                        } else {
                            0
                        };
                        self.modal = Some(Modal::Form { title, fields, focus, action });
                    },
                    KeyCode::BackTab => {
                        let focus = if focus == 0 {
                            fields.len() - 1
                        } else {
                            focus - 1
                        };
                        self.modal = Some(Modal::Form { title, fields, focus, action });
                    },
                    KeyCode::Enter => self.handle_form_submit(action, fields),
                    KeyCode::Esc => {},
                    KeyCode::Backspace => {
                        let mut fields = fields;
                        edit_field(&mut fields, focus, None);
                        self.modal = Some(Modal::Form { title, fields, focus, action });
                    },
                    KeyCode::Char(c) => {
                        let mut fields = fields;
                        edit_field(&mut fields, focus, Some(c));
                        self.modal = Some(Modal::Form { title, fields, focus, action });
                    },
                    _ => self.modal = Some(Modal::Form { title, fields, focus, action }),
                }
                true
            },
        }
    }
}

} // verus!
