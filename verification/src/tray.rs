//! Tray protocol: the commands the supervisor sends to the tray widget and
//! the icon color for each profile. Rendering the icon and pumping the
//! window messages is the host's business.

use vstd::prelude::*;

use crate::mapper::Profile;

verus! {

/// Commands from the supervisor to the tray widget.
pub enum TrayCmd {
    SetProfile(Profile),
}

/// The icon color a profile shows: white on the Default profile, neon
/// green on the Tmux profile.
pub fn profile_color(profile: Profile) -> (r: (u8, u8, u8))
    ensures
        profile == Profile::Default ==> r == (255u8, 255u8, 255u8),
        profile == Profile::Tmux ==> r == (57u8, 255u8, 20u8),
{
    match profile {
        Profile::Default => (255, 255, 255),
        Profile::Tmux => (57, 255, 20),
    }
}

} // verus!
