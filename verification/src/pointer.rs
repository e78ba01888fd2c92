//! The state of the pointer buttons.

use vstd::prelude::*;
use x11rb::protocol::xproto::KeyButMask;

verus! {

/// Whether the primary button is down in a button mask of the display server.
pub open spec fn primary_held(mask: u16) -> bool {
    mask as int / 0x100 % 2 == 1
}

/// `KeyButMask::contains` of x11rb, asked for `KeyButMask::BUTTON1`: whether bit 8
/// of the mask is set.
#[verifier::external_body]
fn mask_contains_button1(mask: u16) -> (contains: bool)
    ensures
        contains == primary_held(mask),
{
    KeyButMask::from(mask).contains(KeyButMask::BUTTON1)
}

/// Whether the primary button is down in a button mask of the display server.
#[must_use]
pub fn primary_down(mask: u16) -> (down: bool)
    ensures
        down == primary_held(mask),
{
    mask_contains_button1(mask)
}

/// Watches for the release of the primary button.
#[derive(Clone, Copy, Debug, PartialEq, Eq, Structural)]
pub struct PointerReleaseProbe {
    pub saw_primary_down: bool,
    pub released: bool,
}

impl PointerReleaseProbe {
    /// Nothing was seen yet.
    pub fn new() -> (probe: Self)
        ensures
            probe == (PointerReleaseProbe { saw_primary_down: false, released: false }),
    {
        PointerReleaseProbe { saw_primary_down: false, released: false }
    }

    /// The probe after a look at the button mask, which may be unavailable.
    pub open spec fn looked(self, mask: Option<u16>) -> PointerReleaseProbe {
        match mask {
            Some(bits) => if self.released {
                self
            } else {
                PointerReleaseProbe {
                    saw_primary_down: self.saw_primary_down || primary_held(bits),
                    released: self.saw_primary_down && !primary_held(bits),
                }
            },
            None => self,
        }
    }

    /// Look at the button mask, which may be unavailable. Gives whether the button
    /// was released: it was down before and is up now, or was up after that.
    pub fn poll_released(&mut self, mask: Option<u16>) -> (released: bool)
        ensures
            *final(self) == old(self).looked(mask),
            released == final(self).released,
    {
        if self.released {
            return true;
        }
        if let Some(bits) = mask {
            let down = primary_down(bits);
            self.saw_primary_down = self.saw_primary_down || down;
            if self.saw_primary_down && !down {
                self.released = true;
            }
        }
        self.released
    }
}

/// A release that was seen stays seen, and none is seen before a press.
pub proof fn release_follows_a_press(probe: PointerReleaseProbe, mask: Option<u16>)
    ensures
        probe.released ==> probe.looked(mask).released,
        !probe.released && !probe.saw_primary_down ==> !probe.looked(mask).released,
{
}

/// The probe after some looks at the button mask.
pub open spec fn looked_all(probe: PointerReleaseProbe, masks: Seq<Option<u16>>) -> PointerReleaseProbe
    decreases masks.len(),
{
    if masks.len() == 0 {
        probe
    } else {
        looked_all(probe, masks.drop_last()).looked(masks.last())
    }
}

/// Whether a mask shows the primary button down: bit 8 is set.
pub open spec fn shows_down(mask: Option<u16>) -> bool {
    mask is Some && mask->0 / 256 % 2 == 1
}

/// Whether a mask shows the primary button up.
pub open spec fn shows_up(mask: Option<u16>) -> bool {
    mask is Some && mask->0 / 256 % 2 == 0
}

/// The button was released exactly when a mask showed it up after one showed it down;
/// masks that were not available do not count.
pub proof fn release_is_down_and_then_up(masks: Seq<Option<u16>>)
    ensures
        ({
            let start = PointerReleaseProbe { saw_primary_down: false, released: false };
            let after = looked_all(start, masks);
            &&& after.released <==> exists|i: int, j: int|
                0 <= i < j < masks.len() && #[trigger] shows_down(masks[i]) && #[trigger] shows_up(
                    masks[j],
                )
            &&& after.saw_primary_down <==> exists|i: int|
                0 <= i < masks.len() && #[trigger] shows_down(masks[i])
        }),
    decreases masks.len(),
{
    let start = PointerReleaseProbe { saw_primary_down: false, released: false };
    if masks.len() > 0 {
        let rest = masks.drop_last();
        let n = masks.len() - 1;
        release_is_down_and_then_up(rest);
        let before = looked_all(start, rest);
        assert forall|i: int| 0 <= i < n implies rest[i] == masks[i] by {}
        if before.saw_primary_down {
            let i = choose|i: int| 0 <= i < rest.len() && #[trigger] shows_down(rest[i]);
            assert(shows_down(masks[i]));
            if shows_up(masks[n]) {
                assert(shows_up(masks[n]));
            }
        }
        if before.released {
            let (i, j) = choose|i: int, j: int|
                0 <= i < j < rest.len() && #[trigger] shows_down(rest[i]) && #[trigger] shows_up(
                    rest[j],
                );
            assert(shows_down(masks[i]) && shows_up(masks[j]));
        }
        if shows_down(masks[n]) {
            assert(shows_down(masks[n]));
        }
        let after = looked_all(start, masks);
        if exists|i: int, j: int|
            0 <= i < j < masks.len() && #[trigger] shows_down(masks[i]) && #[trigger] shows_up(
                masks[j],
            ) {
            let (i, j) = choose|i: int, j: int|
                0 <= i < j < masks.len() && #[trigger] shows_down(masks[i]) && #[trigger] shows_up(
                    masks[j],
                );
            assert(shows_down(rest[i]));
            if j < n {
                assert(shows_up(rest[j]));
            }
        }
        if exists|i: int| 0 <= i < masks.len() && #[trigger] shows_down(masks[i]) {
            let i = choose|i: int| 0 <= i < masks.len() && #[trigger] shows_down(masks[i]);
            if i < n {
                assert(shows_down(rest[i]));
            }
        }
    }
}

} // verus!
