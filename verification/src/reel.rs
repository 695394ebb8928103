//! One reel of the slot machine: a symbol strip with a current position,
//! a spinning flag and a latched stop request, advanced one tick at a time.

use vstd::prelude::*;
use vstd::arithmetic::div_mod::{
    lemma_mod_bound, lemma_mod_multiples_vanish, lemma_mod_self_0, lemma_small_mod,
};

verus! {

/// Number of symbols on each of the machine's built-in reels.
pub const REEL_SIZE: usize = 21;

/// Number of symbols visible at once (top, middle, bottom row).
pub const DISPLAY_SIZE: usize = 3;

/// Milliseconds between two scheduler ticks of a spinning reel.
pub const TICK_INTERVAL_MS: u64 = 100;

/// One reel: an immutable symbol strip plus the mutable spin state.
///
/// The fields are public so that a driver can share a reel behind a lock and
/// a test can build a reel in a known state; every method requires and
/// preserves [`Reel::wf`].
pub struct Reel {
    /// The reel's symbol strip; fixed after construction.
    pub symbols: Vec<char>,
    /// Index into `symbols` of the topmost visible symbol.
    pub position: usize,
    /// Whether the reel is actively advancing.
    pub spinning: bool,
    /// Latched request to halt at the next tick boundary.
    pub stop_requested: bool,
}

impl Reel {
    /// Well-formedness: the strip is non-empty and `position` is in range.
    pub open spec fn wf(&self) -> bool {
        &&& self.symbols@.len() > 0
        &&& self.position < self.symbols@.len()
    }

    /// The reel after `start_spinning`: spinning, with the stop latch cleared.
    pub open spec fn started(r: Reel) -> Reel {
        Reel { symbols: r.symbols, position: r.position, spinning: true, stop_requested: false }
    }

    /// The reel after `request_stop`: the stop latch is set, nothing else moves.
    pub open spec fn stop_latched(r: Reel) -> Reel {
        Reel {
            symbols: r.symbols,
            position: r.position,
            spinning: r.spinning,
            stop_requested: true,
        }
    }

    /// The reel after one scheduler tick.
    ///
    /// An idle reel is untouched; a reel with a pending stop request freezes
    /// (the position does not advance on the tick that observes the stop);
    /// otherwise the position advances by one, wrapping around the strip.
    pub open spec fn ticked(r: Reel) -> Reel {
        if !r.spinning {
            r
        } else if r.stop_requested {
            Reel {
                symbols: r.symbols,
                position: r.position,
                spinning: false,
                stop_requested: r.stop_requested,
            }
        } else {
            Reel {
                symbols: r.symbols,
                position: (((r.position + 1) % r.symbols@.len() as int) as usize),
                spinning: true,
                stop_requested: false,
            }
        }
    }

    /// Creates a reel over `symbols`, at rest at a random position.
    pub fn new(symbols: Vec<char>) -> (reel: Reel)
        requires
            symbols@.len() > 0,
        ensures
            reel.wf(),
            reel.symbols@ == symbols@,
            !reel.spinning,
            !reel.stop_requested,
    {
        let position = random_index(symbols.len());
        Reel { symbols, position, spinning: false, stop_requested: false }
    }

    /// Starts the reel spinning and clears any pending stop request.
    /// Idempotent: starting an already spinning reel only re-clears the latch.
    pub fn start_spinning(&mut self)
        ensures
            *final(self) == Self::started(*old(self)),
            final(self).wf() == old(self).wf(),
    {
        self.spinning = true;
        self.stop_requested = false;
    }

    /// Latches a stop request; the reel itself halts only on its next tick.
    pub fn request_stop(&mut self)
        ensures
            *final(self) == Self::stop_latched(*old(self)),
            final(self).wf() == old(self).wf(),
    {
        self.stop_requested = true;
    }

    /// Whether the reel is currently spinning.
    pub fn is_spinning(&self) -> (spinning: bool)
        ensures
            spinning == self.spinning,
    {
        self.spinning
    }

    /// The three symbols visible in the reel's window, top to bottom.
    ///
    /// A pure read: the result is exactly the symbols at `position`,
    /// `position + 1` and `position + 2`, wrapping around the strip.
    pub fn get_visible_symbols(&self) -> (visible: Vec<char>)
        requires
            self.wf(),
        ensures
            visible@.len() == DISPLAY_SIZE,
            visible@ == visible_window(self.symbols@, self.position as int),
    {
        let n = self.symbols.len();
        let top = self.position;
        let middle = if top + 1 == n { 0 } else { top + 1 };
        let bottom = if middle + 1 == n { 0 } else { middle + 1 };
        proof {
            lemma_wrap_steps(self.symbols@.len() as int, top as int, middle as int, bottom as int);
        }
        let mut visible: Vec<char> = Vec::new();
        visible.push(self.symbols[top]);
        visible.push(self.symbols[middle]);
        visible.push(self.symbols[bottom]);
        proof {
            assert(visible@ =~= visible_window(self.symbols@, self.position as int));
        }
        visible
    }

    /// One scheduler tick. Returns whether the scheduler should keep running:
    /// an idle reel and a reel that just honoured a stop request both report
    /// `false`, a reel that advanced reports `true`.
    pub fn spin_tick(&mut self) -> (keep_spinning: bool)
        requires
            old(self).wf(),
        ensures
            final(self).wf(),
            *final(self) == Self::ticked(*old(self)),
            keep_spinning == (old(self).spinning && !old(self).stop_requested),
    {
        if !self.spinning {
            false
        } else if self.stop_requested {
            self.spinning = false;
            false
        } else {
            let n = self.symbols.len();
            self.position = (self.position + 1) % n;
            true
        }
    }
}

/// The window of `DISPLAY_SIZE` consecutive symbols starting at `position`,
/// wrapping around the end of the strip.
pub open spec fn visible_window(symbols: Seq<char>, position: int) -> Seq<char> {
    seq![
        symbols[position],
        symbols[(position + 1) % symbols.len() as int],
        symbols[(position + 2) % symbols.len() as int],
    ]
}

/// The reel after `n` scheduler ticks.
pub open spec fn ticked_n(r: Reel, n: nat) -> Reel
    decreases n,
{
    if n == 0 {
        r
    } else {
        Reel::ticked(ticked_n(r, (n - 1) as nat))
    }
}

/// In every reachable state the position is a valid index: well-formedness
/// holds of a fresh reel and is preserved by every transition, in particular
/// by the tick that advances the position.
pub proof fn lemma_transitions_preserve_wf(r: Reel)
    requires
        r.wf(),
    ensures
        Reel::started(r).wf(),
        Reel::stop_latched(r).wf(),
        Reel::ticked(r).wf(),
{
    if r.spinning && !r.stop_requested {
        lemma_mod_bound(r.position + 1, r.symbols@.len() as int);
    }
}

/// Once started, a reel keeps spinning: as long as no stop request is
/// pending, every tick leaves it spinning with the stop latch still clear.
/// Starting establishes exactly that state, so spinning persists across any
/// number of ticks until a stop is requested.
pub proof fn lemma_spinning_persists(r: Reel)
    requires
        r.spinning,
        !r.stop_requested,
    ensures
        Reel::ticked(r).spinning,
        !Reel::ticked(r).stop_requested,
{
}

/// After `start_spinning`, the reel reads as spinning, and keeps doing so
/// across any number of ticks, since no stop request is pending until one is
/// made.
pub proof fn lemma_started_spins_until_stopped(r: Reel, n: nat)
    ensures
        ticked_n(Reel::started(r), n).spinning,
        !ticked_n(Reel::started(r), n).stop_requested,
    decreases n,
{
    if n > 0 {
        lemma_started_spins_until_stopped(r, (n - 1) as nat);
        lemma_spinning_persists(ticked_n(Reel::started(r), (n - 1) as nat));
    }
}

/// A pending stop request is honoured within one tick: the tick that
/// observes it halts the reel and does not advance the position, so the reel
/// freezes where the previous tick left it.
pub proof fn lemma_stop_honoured(r: Reel)
    requires
        r.spinning,
        r.stop_requested,
    ensures
        !Reel::ticked(r).spinning,
        Reel::ticked(r).position == r.position,
{
}

/// A reel at rest stays at rest: ticks do not change it at all, so once a
/// stop has been honoured, `spinning` remains false and the position remains
/// stable until the next start.
pub proof fn lemma_idle_stable(r: Reel)
    requires
        !r.spinning,
    ensures
        Reel::ticked(r) == r,
{
}

/// A reel at rest stays unchanged across any number of ticks.
pub proof fn lemma_idle_stable_n(r: Reel, n: nat)
    requires
        !r.spinning,
    ensures
        ticked_n(r, n) == r,
    decreases n,
{
    if n > 0 {
        lemma_idle_stable_n(r, (n - 1) as nat);
    }
}

/// A spinning reel with a pending stop request is at rest after any positive
/// number of ticks — the first tick observes the stop — and stays frozen at
/// the position the stop request found it at.
pub proof fn lemma_stop_settles(r: Reel, n: nat)
    requires
        r.spinning,
        r.stop_requested,
        n >= 1,
    ensures
        !ticked_n(r, n).spinning,
        ticked_n(r, n).position == r.position,
        ticked_n(r, n).symbols == r.symbols,
    decreases n,
{
    lemma_stop_honoured(r);
    if n == 1 {
        assert(ticked_n(r, 1) == Reel::ticked(ticked_n(r, 0)));
    } else {
        lemma_stop_settles(r, (n - 1) as nat);
        lemma_idle_stable(ticked_n(r, (n - 1) as nat));
    }
}

proof fn lemma_wrap_steps(n: int, top: int, middle: int, bottom: int)
    requires
        0 < n,
        0 <= top < n,
        middle == if top + 1 == n { 0int } else { top + 1 },
        bottom == if middle + 1 == n { 0int } else { middle + 1 },
    ensures
        middle == (top + 1) % n,
        bottom == (top + 2) % n,
{
    if top + 2 < n {
        lemma_small_mod((top + 1) as nat, n as nat);
        lemma_small_mod((top + 2) as nat, n as nat);
    } else if top + 2 == n {
        lemma_small_mod((top + 1) as nat, n as nat);
        lemma_mod_self_0(n);
    } else {
        lemma_mod_self_0(n);
        if n == 1 {
            assert((top + 2) % n == 0) by {
                lemma_mod_multiples_vanish(2, 0, 1);
            }
        } else {
            assert((top + 2) % n == 1) by {
                lemma_mod_multiples_vanish(1, 1, n);
                lemma_small_mod(1nat, n as nat);
            }
        }
    }
}

/// Relies on `rand::Rng::gen_range` over `0..n`: the drawn value is uniform
/// in the range, so in particular strictly below `n`.
#[verifier::external_body]
fn random_index(n: usize) -> (r: usize)
    requires
        n > 0,
    ensures
        r < n,
{
    rand::Rng::gen_range(&mut rand::thread_rng(), 0..n)
}

} // verus!
