//! OpenCode keybind parsing: the leader combo and the action binding
//! table, read from the `keybinds` section of an OpenCode configuration
//! handed in as JSON text. Binding strings are either direct combos
//! ("ctrl+s"), leader sequences ("<leader>n"), or comma-separated
//! alternatives of the two (first valid wins). Fetching the configuration
//! file is the host's business.

use vstd::prelude::*;
use vstd::string::StringSliceAdditionalSpecFns;

use crate::bytes::{spec_find, spec_starts_with, spec_trim, starts_with, trim};
use crate::keys::{
    clone_keys, parse_key_combo_bytes, spec_parse_key_combo, VKey,
};

verus! {

/// A resolved OpenCode key binding.
#[derive(Debug)]
pub enum ActionBinding {
    /// Direct key combo (ctrl+s presses Control and S together).
    Combo(Vec<VKey>),
    /// Leader combo first, then this combo.
    LeaderKey(Vec<VKey>),
}

/// Spec view of a binding.
pub enum ActionBindingV {
    Combo(Seq<VKey>),
    LeaderKey(Seq<VKey>),
}

impl View for ActionBinding {
    type V = ActionBindingV;

    open spec fn view(&self) -> ActionBindingV {
        match self {
            ActionBinding::Combo(k) => ActionBindingV::Combo(k@),
            ActionBinding::LeaderKey(k) => ActionBindingV::LeaderKey(k@),
        }
    }
}

impl Clone for ActionBinding {
    /// An equal binding.
    fn clone(&self) -> (r: Self)
        ensures
            r@ == self@,
    {
        match self {
            ActionBinding::Combo(k) => ActionBinding::Combo(clone_keys(k)),
            ActionBinding::LeaderKey(k) => ActionBinding::LeaderKey(clone_keys(k)),
        }
    }
}

/// The `<leader>` marker, as bytes.
pub open spec fn spec_leader_marker() -> Seq<u8> {
    seq![60u8, 108u8, 101u8, 97u8, 100u8, 101u8, 114u8, 62u8]
}

/// The binding a single (comma-free) OpenCode binding string denotes: a
/// leader sequence when it starts with `<leader>`, a direct combo else.
pub open spec fn spec_parse_single_binding(s: Seq<u8>) -> Option<ActionBindingV> {
    if spec_starts_with(s, spec_leader_marker()) {
        match spec_parse_key_combo(spec_trim(s.skip(8))) {
            Some(k) => Some(ActionBindingV::LeaderKey(k)),
            None => None,
        }
    } else {
        match spec_parse_key_combo(s) {
            Some(k) => Some(ActionBindingV::Combo(k)),
            None => None,
        }
    }
}

/// Parse a single (comma-free) binding string.
pub fn parse_single_binding(s: &[u8]) -> (r: Option<ActionBinding>)
    ensures
        match r {
            Some(b) => spec_parse_single_binding(s@) == Some(b@),
            None => spec_parse_single_binding(s@) is None,
        },
{
    let marker: [u8; 8] = [60, 108, 101, 97, 100, 101, 114, 62];
    proof {
        assert(marker@ =~= spec_leader_marker());
    }
    if starts_with(s, marker.as_slice()) {
        let rest = trim(&s[8..s.len()]);
        match parse_key_combo_bytes(rest.as_slice()) {
            Some(k) => Some(ActionBinding::LeaderKey(k)),
            None => None,
        }
    } else {
        match parse_key_combo_bytes(s) {
            Some(k) => Some(ActionBinding::Combo(k)),
            None => None,
        }
    }
}

/// The binding an OpenCode binding string denotes: alternatives are
/// comma-separated, empty parts are skipped, and the first part that
/// parses wins.
pub open spec fn spec_parse_opencode_binding(s: Seq<u8>) -> Option<ActionBindingV>
    decreases s.len(),
    via spec_parse_opencode_binding_dec
{
    match spec_find(s, 44) {
        None => {
            let p = spec_trim(s);
            if p.len() == 0 {
                None
            } else {
                spec_parse_single_binding(p)
            }
        },
        Some(i) => {
            let p = spec_trim(s.take(i));
            if p.len() > 0 && spec_parse_single_binding(p) is Some {
                spec_parse_single_binding(p)
            } else {
                spec_parse_opencode_binding(s.skip(i + 1))
            }
        },
    }
}

#[via_fn]
proof fn spec_parse_opencode_binding_dec(s: Seq<u8>) {
    crate::bytes::lemma_find_char(s, 44);
}

fn parse_opencode_binding_bytes(s: &[u8]) -> (r: Option<ActionBinding>)
    ensures
        match r {
            Some(b) => spec_parse_opencode_binding(s@) == Some(b@),
            None => spec_parse_opencode_binding(s@) is None,
        },
    decreases s.len(),
{
    proof {
        crate::bytes::lemma_find_char(s@, 44);
    }
    match crate::bytes::find_byte(s, 44) {
        None => {
            let p = trim(s);
            if p.len() == 0 {
                None
            } else {
                parse_single_binding(p.as_slice())
            }
        },
        Some(i) => {
            let p = trim(&s[0..i]);
            if p.len() > 0 {
                let b = parse_single_binding(p.as_slice());
                if b.is_some() {
                    return b;
                }
            }
            parse_opencode_binding_bytes(&s[i + 1..s.len()])
        },
    }
}

/// Parse an OpenCode key binding string, taking the first valid
/// comma-separated alternative.
pub fn parse_opencode_binding(s: &str) -> (r: Option<ActionBinding>)
    ensures
        match r {
            Some(b) => spec_parse_opencode_binding(s.spec_bytes()) == Some(b@),
            None => spec_parse_opencode_binding(s.spec_bytes()) is None,
        },
{
    parse_opencode_binding_bytes(s.as_bytes())
}

/// One entry of the OpenCode binding table.
pub struct OcEntry {
    pub name: Vec<u8>,
    pub binding: ActionBinding,
}

/// Spec view of an entry.
pub struct OcEntryV {
    pub name: Seq<u8>,
    pub binding: ActionBindingV,
}

impl View for OcEntry {
    type V = OcEntryV;

    open spec fn view(&self) -> OcEntryV {
        OcEntryV { name: self.name@, binding: self.binding@ }
    }
}

/// The views of the table.
pub open spec fn spec_oc_view(v: Seq<OcEntry>) -> Seq<OcEntryV> {
    v.map_values(|e: OcEntry| e@)
}

/// The first binding for an action name, if any.
pub open spec fn spec_oc_lookup(entries: Seq<OcEntryV>, name: Seq<u8>) -> Option<ActionBindingV>
    decreases entries.len(),
{
    if entries.len() == 0 {
        None
    } else if entries[0].name == name {
        Some(entries[0].binding)
    } else {
        spec_oc_lookup(entries.skip(1), name)
    }
}

/// OpenCode keybinds as detected from its configuration: the leader combo
/// and the action binding table.
pub struct OpenCodeDetected {
    /// Detected leader combo (for example Control+X), if any.
    pub leader: Option<Vec<VKey>>,
    /// Action name to resolved binding.
    pub actions: Vec<OcEntry>,
}

impl OpenCodeDetected {
    /// Look up the binding for an OpenCode action name.
    pub fn binding_for_action(&self, action: &str) -> (r: Option<ActionBinding>)
        ensures
            match r {
                Some(b) => spec_oc_lookup(spec_oc_view(self.actions@), action.spec_bytes())
                    == Some(b@),
                None => spec_oc_lookup(spec_oc_view(self.actions@), action.spec_bytes()) is None,
            },
    {
        let name = action.as_bytes();
        let ghost ev = spec_oc_view(self.actions@);
        proof {
            assert(ev.skip(0) =~= ev);
        }
        let mut i: usize = 0;
        while i < self.actions.len()
            invariant
                ev == spec_oc_view(self.actions@),
                name@ == action.spec_bytes(),
                i <= self.actions.len(),
                spec_oc_lookup(ev, name@) == spec_oc_lookup(ev.skip(i as int), name@),
            decreases self.actions.len() - i,
        {
            proof {
                assert(ev.skip(i as int)[0] == ev[i as int]);
                assert(ev[i as int] == self.actions@[i as int]@);
                assert(ev.skip(i as int).skip(1) =~= ev.skip(i + 1));
            }
            if crate::bytes::bytes_eq(self.actions[i].name.as_slice(), name) {
                proof {
                    assert(ev.skip(i as int)[0].name == name@);
                    assert(spec_oc_lookup(ev.skip(i as int), name@) == Some(ev[i as int].binding));
                }
                let b = match &self.actions[i].binding {
                    ActionBinding::Combo(k) => ActionBinding::Combo(clone_keys(k)),
                    ActionBinding::LeaderKey(k) => ActionBinding::LeaderKey(clone_keys(k)),
                };
                proof {
                    assert(b@ =~= ev[i as int].binding);
                }
                return Some(b);
            }
            i += 1;
        }
        proof {
            assert(ev.skip(self.actions@.len() as int) =~= Seq::<OcEntryV>::empty());
        }
        None
    }
}

} // verus!
