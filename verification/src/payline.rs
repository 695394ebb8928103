//! The payline evaluator: a pure function from the three reels' visible
//! symbols to the list of matching paylines, in table order.

use vstd::prelude::*;
use crate::reel::{visible_window, Reel};

verus! {

/// Number of paylines the machine checks.
pub const NUM_PAYLINES: usize = 5;

/// The fixed payline table: line `i` names one visible row per reel
/// (0 = top, 1 = middle, 2 = bottom). In order: the three straight rows,
/// the falling diagonal and the rising diagonal.
pub open spec fn payline(i: int) -> (int, int, int) {
    if i == 0 {
        (0int, 0int, 0int)
    } else if i == 1 {
        (1int, 1int, 1int)
    } else if i == 2 {
        (2int, 2int, 2int)
    } else if i == 3 {
        (0int, 1int, 2int)
    } else {
        (2int, 1int, 0int)
    }
}

/// Whether payline `i` matches: the three symbols it names, one per reel's
/// visible window, are all equal.
pub open spec fn line_wins(v0: Seq<char>, v1: Seq<char>, v2: Seq<char>, i: int) -> bool {
    &&& v0[payline(i).0] == v1[payline(i).1]
    &&& v1[payline(i).1] == v2[payline(i).2]
}

/// The matching paylines among the first `n`, in table order.
pub open spec fn winners_below(v0: Seq<char>, v1: Seq<char>, v2: Seq<char>, n: int) -> Seq<usize>
    decreases n,
{
    if n <= 0 {
        Seq::empty()
    } else if line_wins(v0, v1, v2, n - 1) {
        winners_below(v0, v1, v2, n - 1).push((n - 1) as usize)
    } else {
        winners_below(v0, v1, v2, n - 1)
    }
}

/// All matching paylines, in table order.
pub open spec fn winning_lines(v0: Seq<char>, v1: Seq<char>, v2: Seq<char>) -> Seq<usize> {
    winners_below(v0, v1, v2, NUM_PAYLINES as int)
}

/// The rows payline `i` names, as executable values.
fn payline_rows(i: usize) -> (rows: (usize, usize, usize))
    requires
        i < NUM_PAYLINES,
    ensures
        rows.0 < 3 && rows.1 < 3 && rows.2 < 3,
        (rows.0 as int, rows.1 as int, rows.2 as int) == payline(i as int),
{
    if i == 0 {
        (0, 0, 0)
    } else if i == 1 {
        (1, 1, 1)
    } else if i == 2 {
        (2, 2, 2)
    } else if i == 3 {
        (0, 1, 2)
    } else {
        (2, 1, 0)
    }
}

/// Checks every payline against a snapshot of the three reels' visible
/// symbols and returns the indices of the matching lines, in table order.
///
/// A pure function of the reels' current positions and strips: the result
/// is exactly `winning_lines` of the three visible windows, so two calls on
/// the same snapshot return the same lines, each at most once, in strictly
/// increasing table order (see [`lemma_winning_lines_ordered`]).
pub fn check_winnings(reel0: &Reel, reel1: &Reel, reel2: &Reel) -> (winners: Vec<usize>)
    requires
        reel0.wf(),
        reel1.wf(),
        reel2.wf(),
    ensures
        winners@ == winning_lines(
            visible_window(reel0.symbols@, reel0.position as int),
            visible_window(reel1.symbols@, reel1.position as int),
            visible_window(reel2.symbols@, reel2.position as int),
        ),
{
    let v0 = reel0.get_visible_symbols();
    let v1 = reel1.get_visible_symbols();
    let v2 = reel2.get_visible_symbols();
    let mut winners: Vec<usize> = Vec::new();
    let mut i: usize = 0;
    while i < NUM_PAYLINES
        invariant
            i <= NUM_PAYLINES,
            v0@ == visible_window(reel0.symbols@, reel0.position as int),
            v1@ == visible_window(reel1.symbols@, reel1.position as int),
            v2@ == visible_window(reel2.symbols@, reel2.position as int),
            v0@.len() == 3 && v1@.len() == 3 && v2@.len() == 3,
            winners@ == winners_below(v0@, v1@, v2@, i as int),
        decreases NUM_PAYLINES - i,
    {
        let rows = payline_rows(i);
        if v0[rows.0] == v1[rows.1] && v1[rows.1] == v2[rows.2] {
            winners.push(i);
        }
        i = i + 1;
    }
    winners
}

/// The result of the evaluator is order-stable and duplicate-free: the
/// winning line indices are strictly increasing in table order, each below
/// the table's length, and a line is listed exactly when it matches.
pub proof fn lemma_winning_lines_ordered(v0: Seq<char>, v1: Seq<char>, v2: Seq<char>)
    ensures
        forall|j: int, k: int|
            0 <= j < k < winning_lines(v0, v1, v2).len() ==> winning_lines(v0, v1, v2)[j]
                < winning_lines(v0, v1, v2)[k],
        forall|j: int|
            0 <= j < winning_lines(v0, v1, v2).len() ==> winning_lines(v0, v1, v2)[j]
                < NUM_PAYLINES,
        forall|line: usize|
            winning_lines(v0, v1, v2).contains(line) <==> (line < NUM_PAYLINES && line_wins(
                v0,
                v1,
                v2,
                line as int,
            )),
{
    lemma_winners_below_ordered(v0, v1, v2, NUM_PAYLINES as int);
    assert forall|line: usize|
        winning_lines(v0, v1, v2).contains(line) <==> (line < NUM_PAYLINES && line_wins(
            v0,
            v1,
            v2,
            line as int,
        )) by {
        lemma_winners_below_contains(v0, v1, v2, NUM_PAYLINES as int, line);
    }
}

/// The first `n` winners are strictly increasing and all below `n`.
proof fn lemma_winners_below_ordered(v0: Seq<char>, v1: Seq<char>, v2: Seq<char>, n: int)
    requires
        n <= usize::MAX,
    ensures
        forall|j: int|
            0 <= j < winners_below(v0, v1, v2, n).len() ==> winners_below(v0, v1, v2, n)[j] < n,
        forall|j: int, k: int|
            0 <= j < k < winners_below(v0, v1, v2, n).len() ==> winners_below(v0, v1, v2, n)[j]
                < winners_below(v0, v1, v2, n)[k],
    decreases n,
{
    if n > 0 {
        lemma_winners_below_ordered(v0, v1, v2, n - 1);
        let prev = winners_below(v0, v1, v2, n - 1);
        if line_wins(v0, v1, v2, n - 1) {
            let cur = winners_below(v0, v1, v2, n);
            assert(cur == prev.push((n - 1) as usize));
            assert forall|j: int, k: int| 0 <= j < k < cur.len() implies cur[j] < cur[k] by {
                if k == cur.len() - 1 {
                    assert(cur[j] == prev[j]);
                } else {
                    assert(cur[j] == prev[j] && cur[k] == prev[k]);
                }
            }
        }
    }
}

/// A line is among the first `n` winners exactly when it is below `n` and
/// matches.
proof fn lemma_winners_below_contains(
    v0: Seq<char>,
    v1: Seq<char>,
    v2: Seq<char>,
    n: int,
    line: usize,
)
    requires
        n <= usize::MAX,
    ensures
        winners_below(v0, v1, v2, n).contains(line) <==> (line < n && line_wins(
            v0,
            v1,
            v2,
            line as int,
        )),
    decreases n,
{
    if n > 0 {
        lemma_winners_below_contains(v0, v1, v2, n - 1, line);
        let prev = winners_below(v0, v1, v2, n - 1);
        let cur = winners_below(v0, v1, v2, n);
        if line_wins(v0, v1, v2, n - 1) {
            assert(cur == prev.push((n - 1) as usize));
            if line < n && line_wins(v0, v1, v2, line as int) {
                if line == n - 1 {
                    assert(cur[cur.len() - 1] == line);
                    assert(cur.contains(line));
                } else {
                    assert(prev.contains(line));
                    let j = choose|j: int| 0 <= j < prev.len() && prev[j] == line;
                    assert(cur[j] == line);
                    assert(cur.contains(line));
                }
            }
            if cur.contains(line) {
                let j = choose|j: int| 0 <= j < cur.len() && cur[j] == line;
                if j < prev.len() {
                    assert(prev[j] == line);
                    assert(prev.contains(line));
                } else {
                    assert(line == (n - 1) as usize);
                }
            }
        } else {
            assert(cur == prev);
            if line < n && line_wins(v0, v1, v2, line as int) {
                assert(line != n - 1);
            }
        }
    }
}

} // verus!
