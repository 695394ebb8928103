//! A three-reel slot machine core: each reel is a small state machine
//! (position, spinning flag, latched stop request) advanced one tick at a
//! time, a coordinator that owns the three reels, and a pure payline
//! evaluator over the reels' visible symbols.

pub mod machine;
pub mod payline;
pub mod reel;
pub mod tables;

pub use machine::SlotMachine;
pub use payline::check_winnings;
pub use reel::Reel;
