//! A network participant as the roster source describes it.

use vstd::prelude::*;

verus! {

/// One participant: its identity, and what the roster knows about it.
#[derive(Debug, PartialEq, Eq)]
pub struct ValidatorInfo {
    /// Public key of the participant, in its textual form.
    pub pubkey: String,
    /// Stake weight, where the roster has one.
    pub stake: Option<u64>,
    /// Number of slots assigned to the participant, where the roster has one.
    pub total_slots: Option<u64>,
    /// The address the participant declared, if it declared one.
    pub ip: Option<String>,
}

/// The mathematical content of a [`ValidatorInfo`].
pub struct ValidatorView {
    pub pubkey: Seq<char>,
    pub stake: Option<u64>,
    pub total_slots: Option<u64>,
    pub ip: Option<Seq<char>>,
}

/// The characters of an optional text.
pub open spec fn text_view(text: Option<String>) -> Option<Seq<char>> {
    match text {
        Some(s) => Some(s@),
        None => None,
    }
}

impl View for ValidatorInfo {
    type V = ValidatorView;

    open spec fn view(&self) -> ValidatorView {
        ValidatorView {
            pubkey: self.pubkey@,
            stake: self.stake,
            total_slots: self.total_slots,
            ip: text_view(self.ip),
        }
    }
}

impl DeepView for ValidatorInfo {
    type V = ValidatorView;

    open spec fn deep_view(&self) -> ValidatorView {
        self@
    }
}

/// Copies an optional text.
pub fn clone_text(text: &Option<String>) -> (copy: Option<String>)
    ensures
        copy == *text,
{
    match text {
        Some(s) => Some(s.clone()),
        None => None,
    }
}

impl Clone for ValidatorInfo {
    fn clone(&self) -> (copy: Self)
        ensures
            copy == *self,
    {
        ValidatorInfo {
            pubkey: self.pubkey.clone(),
            stake: self.stake,
            total_slots: self.total_slots,
            ip: clone_text(&self.ip),
        }
    }
}

} // verus!
