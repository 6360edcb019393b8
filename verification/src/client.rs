//! Client-side state: whether the player is looking around, and the HUD.
use vstd::prelude::*;

verus! {

/// Whether the mouse steers the view (the cursor is grabbed).
#[derive(Clone, Copy, Debug, Default, PartialEq, Eq, Structural)]
pub struct Looking(pub bool);

/// Whether the player looks around after this frame's requests: `enter` asks to start, `exit`
/// to stop; both at once cancel out.
pub open spec fn looking_after(looking: bool, enter: bool, exit: bool) -> bool {
    if enter && exit {
        looking
    } else if enter {
        true
    } else if exit {
        false
    } else {
        looking
    }
}

impl Looking {
    /// Applies this frame's requests. Returns whether the state changed (and the cursor must be
    /// grabbed or released).
    pub fn update(&mut self, enter: bool, exit: bool) -> (changed: bool)
        ensures
            final(self).0 == looking_after(old(self).0, enter, exit),
            changed == (final(self).0 != old(self).0),
            !enter && !exit ==> final(self).0 == old(self).0 && !changed,
            enter && !exit ==> final(self).0,
            exit && !enter ==> !final(self).0,
    {
        if enter && exit {
            false
        } else if enter && !self.0 {
            self.0 = true;
            true
        } else if exit && self.0 {
            self.0 = false;
            true
        } else {
            false
        }
    }
}

/// A frame without requests changes nothing; a lone request to enter starts looking and a lone
/// request to exit stops; requests in the same frame cancel out; repeating a frame's requests
/// changes nothing more; entering and then exiting returns to not looking.
pub proof fn lemma_looking_requests(looking: bool, enter: bool, exit: bool)
    ensures
        looking_after(looking, false, false) == looking,
        looking_after(looking, true, false),
        !looking_after(looking, false, true),
        looking_after(looking, true, true) == looking,
        looking_after(looking_after(looking, enter, exit), enter, exit) == looking_after(
            looking,
            enter,
            exit,
        ),
        looking_after(looking_after(looking, true, false), false, true) == false,
{
}

/// The root of the heads-up display.
#[derive(Clone, Copy, Debug, Default)]
pub struct HudRoot;

} // verus!
