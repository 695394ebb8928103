//! The fixed symbol strips of the machine's three built-in reels.
//!
//! Each reel carries its own 21-symbol strip; the differing symbol mixes
//! bias how often the paylines match.

use vstd::prelude::*;

verus! {

/// The left reel's strip.
pub open spec fn reel1_table() -> Seq<char> {
    seq![
        '⭐', '💯', '🏀', '🍀', '🏀', '🍀', '🎩',
        '🍒', '🍀', '🏀', '🍀', '💯', '⚪', '🍀',
        '🏀', '🍀', '🍒', '🎩', '🍀', '🏀', '🍀',
    ]
}

/// The middle reel's strip.
pub open spec fn reel2_table() -> Seq<char> {
    seq![
        '🏀', '💯', '🍀', '🍒', '🏀', '⭐', '🍀',
        '🍒', '🏀', '🎩', '🍀', '🍒', '🏀', '⭐',
        '🍀', '🍒', '🏀', '🎩', '🍀', '🍒', '⚪',
    ]
}

/// The right reel's strip.
pub open spec fn reel3_table() -> Seq<char> {
    seq![
        '🍀', '💯', '🎩', '⭐', '🏀', '🍀', '⚪',
        '⭐', '🏀', '🍀', '⚪', '⭐', '🏀', '🍀',
        '⚪', '⭐', '🏀', '🍀', '⚪', '⭐', '🏀',
    ]
}

/// Builds the left reel's strip.
pub fn reel1_symbols() -> (symbols: Vec<char>)
    ensures
        symbols@ == reel1_table(),
{
    let mut symbols: Vec<char> = Vec::new();
    symbols.push('⭐');
    symbols.push('💯');
    symbols.push('🏀');
    symbols.push('🍀');
    symbols.push('🏀');
    symbols.push('🍀');
    symbols.push('🎩');
    symbols.push('🍒');
    symbols.push('🍀');
    symbols.push('🏀');
    symbols.push('🍀');
    symbols.push('💯');
    symbols.push('⚪');
    symbols.push('🍀');
    symbols.push('🏀');
    symbols.push('🍀');
    symbols.push('🍒');
    symbols.push('🎩');
    symbols.push('🍀');
    symbols.push('🏀');
    symbols.push('🍀');
    proof {
        assert(symbols@ =~= reel1_table());
    }
    symbols
}

/// Builds the middle reel's strip.
pub fn reel2_symbols() -> (symbols: Vec<char>)
    ensures
        symbols@ == reel2_table(),
{
    let mut symbols: Vec<char> = Vec::new();
    symbols.push('🏀');
    symbols.push('💯');
    symbols.push('🍀');
    symbols.push('🍒');
    symbols.push('🏀');
    symbols.push('⭐');
    symbols.push('🍀');
    symbols.push('🍒');
    symbols.push('🏀');
    symbols.push('🎩');
    symbols.push('🍀');
    symbols.push('🍒');
    symbols.push('🏀');
    symbols.push('⭐');
    symbols.push('🍀');
    symbols.push('🍒');
    symbols.push('🏀');
    symbols.push('🎩');
    symbols.push('🍀');
    symbols.push('🍒');
    symbols.push('⚪');
    proof {
        assert(symbols@ =~= reel2_table());
    }
    symbols
}

/// Builds the right reel's strip.
pub fn reel3_symbols() -> (symbols: Vec<char>)
    ensures
        symbols@ == reel3_table(),
{
    let mut symbols: Vec<char> = Vec::new();
    symbols.push('🍀');
    symbols.push('💯');
    symbols.push('🎩');
    symbols.push('⭐');
    symbols.push('🏀');
    symbols.push('🍀');
    symbols.push('⚪');
    symbols.push('⭐');
    symbols.push('🏀');
    symbols.push('🍀');
    symbols.push('⚪');
    symbols.push('⭐');
    symbols.push('🏀');
    symbols.push('🍀');
    symbols.push('⚪');
    symbols.push('⭐');
    symbols.push('🏀');
    symbols.push('🍀');
    symbols.push('⚪');
    symbols.push('⭐');
    symbols.push('🏀');
    proof {
        assert(symbols@ =~= reel3_table());
    }
    symbols
}

} // verus!
