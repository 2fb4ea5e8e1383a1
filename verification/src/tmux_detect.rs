//! Tmux configuration parsing: the prefix key and the binding table, read
//! from `tmux show-options` / `tmux list-keys` output or from a tmux
//! configuration file handed in as text. Key notation (`C-a`, `M-n`,
//! escaped symbols, named keys) is parsed into key combos. Running the
//! commands that produce the text is the host's business.

use vstd::prelude::*;
use vstd::string::StringSliceAdditionalSpecFns;

use crate::bytes::{bytes_eq, spec_is_ws, spec_lower};
use crate::keys::{
    binding_lookup, spec_binding_lookup, spec_bindings_view, BindingEntry, VKey,
};

verus! {

/// Tmux configuration as detected from a running server or a
/// configuration file: the prefix combo and the command binding table.
pub struct TmuxDetected {
    /// Detected prefix combo (for example Control+A), if any.
    pub prefix: Option<Vec<VKey>>,
    /// Command name to bound key combo, first binding winning.
    pub actions: Vec<BindingEntry>,
}

impl TmuxDetected {
    /// Look up the key combo bound to a tmux action or command name.
    pub fn key_for_action(&self, action: &str) -> (r: Option<Vec<VKey>>)
        ensures
            match r {
                Some(keys) => spec_binding_lookup(
                    spec_bindings_view(self.actions@),
                    action.spec_bytes(),
                ) == Some(keys@),
                None => spec_binding_lookup(
                    spec_bindings_view(self.actions@),
                    action.spec_bytes(),
                ) is None,
            },
    {
        binding_lookup(&self.actions, action.as_bytes())
    }
}

} // verus!
