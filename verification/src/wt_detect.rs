//! Windows Terminal keybinding parsing: the action-name to key-combo table
//! read from the terminal's `settings.json` text, merging the `actions`
//! and `keybindings` arrays and accepting the string-command, the
//! object-command and the modern id entry formats. Finding and reading the
//! settings file is the host's business.

use vstd::prelude::*;
use vstd::string::StringSliceAdditionalSpecFns;

use crate::keys::{
    binding_lookup, spec_binding_lookup, spec_bindings_view, BindingEntry, VKey,
};

verus! {

/// Windows Terminal keybindings as detected from its settings: action name
/// to resolved key combo, first binding winning.
pub struct WtDetected {
    pub actions: Vec<BindingEntry>,
}

impl WtDetected {
    /// Look up the key combo for a Windows Terminal action name.
    pub fn key_for_action(&self, action: &str) -> (r: Option<Vec<VKey>>)
        ensures
            match r {
                Some(keys) => spec_binding_lookup(
                    spec_bindings_view(self.actions@),
                    action.spec_bytes(),
                ) == Some(keys@),
                None => spec_binding_lookup(
                    spec_bindings_view(self.actions@),
                    action.spec_bytes(),
                ) is None,
            },
    {
        binding_lookup(&self.actions, action.as_bytes())
    }
}

} // verus!
