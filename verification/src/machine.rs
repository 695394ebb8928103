//! The coordinator: owns the three reels and the redraw change-detection
//! cache, and forwards start and stop commands to the reels.

use vstd::prelude::*;
use crate::reel::Reel;
use crate::tables::{
    reel1_symbols, reel1_table, reel2_symbols, reel2_table, reel3_symbols, reel3_table,
};

verus! {

/// The machine: three reels (left, middle, right) plus the last-seen
/// spinning flag of each, cached to detect when a redraw is warranted.
///
/// The fields are public so that a driver can share the machine behind a
/// lock and tick the reels itself; every method requires and preserves
/// [`SlotMachine::wf`].
pub struct SlotMachine {
    /// The left reel.
    pub reel0: Reel,
    /// The middle reel.
    pub reel1: Reel,
    /// The right reel.
    pub reel2: Reel,
    /// Last-seen spinning flag of the left reel.
    pub last_spinning0: bool,
    /// Last-seen spinning flag of the middle reel.
    pub last_spinning1: bool,
    /// Last-seen spinning flag of the right reel.
    pub last_spinning2: bool,
}

impl SlotMachine {
    /// Well-formedness: all three reels are well-formed.
    pub open spec fn wf(&self) -> bool {
        &&& self.reel0.wf()
        &&& self.reel1.wf()
        &&& self.reel2.wf()
    }

    /// Creates the machine: three reels at rest over the built-in strips,
    /// each at a random position, with the change cache seeing all at rest.
    pub fn new() -> (machine: SlotMachine)
        ensures
            machine.wf(),
            machine.reel0.symbols@ == reel1_table(),
            machine.reel1.symbols@ == reel2_table(),
            machine.reel2.symbols@ == reel3_table(),
            !machine.reel0.spinning && !machine.reel1.spinning && !machine.reel2.spinning,
            !machine.reel0.stop_requested && !machine.reel1.stop_requested
                && !machine.reel2.stop_requested,
            !machine.last_spinning0 && !machine.last_spinning1 && !machine.last_spinning2,
    {
        SlotMachine {
            reel0: Reel::new(reel1_symbols()),
            reel1: Reel::new(reel2_symbols()),
            reel2: Reel::new(reel3_symbols()),
            last_spinning0: false,
            last_spinning1: false,
            last_spinning2: false,
        }
    }

    /// Starts all three reels spinning and clears their stop latches.
    /// The positions and the change cache are untouched.
    pub fn start_all_reels(&mut self)
        ensures
            final(self).reel0 == Reel::started(old(self).reel0),
            final(self).reel1 == Reel::started(old(self).reel1),
            final(self).reel2 == Reel::started(old(self).reel2),
            final(self).last_spinning0 == old(self).last_spinning0,
            final(self).last_spinning1 == old(self).last_spinning1,
            final(self).last_spinning2 == old(self).last_spinning2,
            final(self).wf() == old(self).wf(),
    {
        self.reel0.start_spinning();
        self.reel1.start_spinning();
        self.reel2.start_spinning();
    }

    /// Latches a stop request on the reel at `index` (0 = left, 1 = middle,
    /// 2 = right). An out-of-range index is a no-op, never a panic.
    pub fn stop_reel(&mut self, index: usize)
        ensures
            index == 0 ==> *final(self) == (SlotMachine {
                reel0: Reel::stop_latched(old(self).reel0),
                ..*old(self)
            }),
            index == 1 ==> *final(self) == (SlotMachine {
                reel1: Reel::stop_latched(old(self).reel1),
                ..*old(self)
            }),
            index == 2 ==> *final(self) == (SlotMachine {
                reel2: Reel::stop_latched(old(self).reel2),
                ..*old(self)
            }),
            index >= 3 ==> *final(self) == *old(self),
            final(self).wf() == old(self).wf(),
    {
        if index == 0 {
            self.reel0.request_stop();
        } else if index == 1 {
            self.reel1.request_stop();
        } else if index == 2 {
            self.reel2.request_stop();
        }
    }

    /// Whether at least one reel is spinning.
    pub fn any_spinning(&self) -> (spinning: bool)
        ensures
            spinning == (self.reel0.spinning || self.reel1.spinning || self.reel2.spinning),
    {
        self.reel0.is_spinning() || self.reel1.is_spinning() || self.reel2.is_spinning()
    }

    /// Compares the reels' current spinning flags against the cached
    /// last-seen flags, refreshes the cache, and reports whether any flag
    /// differed. The reels themselves are untouched.
    pub fn has_state_changed(&mut self) -> (changed: bool)
        ensures
            final(self).reel0 == old(self).reel0,
            final(self).reel1 == old(self).reel1,
            final(self).reel2 == old(self).reel2,
            final(self).last_spinning0 == old(self).reel0.spinning,
            final(self).last_spinning1 == old(self).reel1.spinning,
            final(self).last_spinning2 == old(self).reel2.spinning,
            changed == (old(self).reel0.spinning != old(self).last_spinning0
                || old(self).reel1.spinning != old(self).last_spinning1
                || old(self).reel2.spinning != old(self).last_spinning2),
            final(self).wf() == old(self).wf(),
    {
        let current0 = self.reel0.is_spinning();
        let current1 = self.reel1.is_spinning();
        let current2 = self.reel2.is_spinning();
        let changed = current0 != self.last_spinning0 || current1 != self.last_spinning1
            || current2 != self.last_spinning2;
        self.last_spinning0 = current0;
        self.last_spinning1 = current1;
        self.last_spinning2 = current2;
        changed
    }
}

} // verus!
