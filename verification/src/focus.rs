//! Which of the two text fields receives the operator's typing.

use vstd::prelude::*;

verus! {

/// The text field that has the input focus.
#[derive(Debug, Clone, Copy, PartialEq, Eq, Structural)]
pub enum InputField {
    /// The field holding the endpoint address.
    Url,
    /// The field holding the message draft.
    Message,
}

impl InputField {
    /// The field that does not have the focus.
    pub open spec fn toggled(self) -> InputField {
        match self {
            InputField::Url => InputField::Message,
            InputField::Message => InputField::Url,
        }
    }

    /// Returns the other field.
    pub fn other(&self) -> (next: Self)
        ensures
            next == self.toggled(),
    {
        match self {
            InputField::Url => InputField::Message,
            InputField::Message => InputField::Url,
        }
    }

    /// Toggling the focus twice gives back the field it started from, and a
    /// single toggle always changes it.
    pub proof fn lemma_toggle_involution(self)
        ensures
            self.toggled().toggled() == self,
            self.toggled() != self,
    {
    }
}

impl Default for InputField {
    /// A new session starts with the message field focused.
    fn default() -> (field: Self)
        ensures
            field == InputField::Message,
    {
        InputField::Message
    }
}

} // verus!
