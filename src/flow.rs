//! Control flow: branch chains, range patterns, counting loops with early
//! exits, and a nested scan that leaves both loops at once.
use vstd::prelude::*;

verus! {

/// The letter grade of a score: A from 90, B from 80, C from 70, F below.
pub open spec fn grade_of(score: int) -> char {
    if score >= 90 {
        'A'
    } else if score >= 80 {
        'B'
    } else if score >= 70 {
        'C'
    } else {
        'F'
    }
}

/// The letter grade of `score`.
pub fn grade(score: u32) -> (g: char)
    ensures
        g == grade_of(score as int),
{
    if score >= 90 {
        'A'
    } else if score >= 80 {
        'B'
    } else if score >= 70 {
        'C'
    } else {
        'F'
    }
}

/// The stage of life at an age: child to 12, teenager to 19, adult to 64, senior after.
pub open spec fn age_group_text(age: int) -> Seq<char> {
    if age <= 12 {
        "Child"@
    } else if age <= 19 {
        "Teenager"@
    } else if age <= 64 {
        "Adult"@
    } else {
        "Senior"@
    }
}

/// The stage of life at `age`.
pub fn age_group(age: u32) -> (r: &'static str)
    ensures
        r@ == age_group_text(age as int),
{
    match age {
        0..=12 => "Child",
        13..=19 => "Teenager",
        20..=64 => "Adult",
        _ => "Senior",
    }
}

/// The size class of a number: small for 1 to 3, medium for 4 to 6, large otherwise.
pub open spec fn size_text(n: int) -> Seq<char> {
    if 1 <= n <= 3 {
        "Small number"@
    } else if 4 <= n <= 6 {
        "Medium number"@
    } else {
        "Large number"@
    }
}

/// The size class of `n`.
pub fn number_size(n: i32) -> (r: &'static str)
    ensures
        r@ == size_text(n as int),
{
    match n {
        1 | 2 | 3 => "Small number",
        4 | 5 | 6 => "Medium number",
        _ => "Large number",
    }
}

/// `from`, `from - 1`, down to 1.
pub fn countdown(from: u32) -> (r: Vec<u32>)
    ensures
        r@.len() == from,
        forall|k: int| 0 <= k < from ==> #[trigger] r@[k] == from - k,
{
    let mut out: Vec<u32> = Vec::new();
    let mut number: u32 = from;
    while number != 0
        invariant
            number <= from,
            out@.len() == from - number,
            forall|k: int| 0 <= k < out@.len() ==> #[trigger] out@[k] == from - k,
        decreases number,
    {
        out.push(number);
        number = number - 1;
    }
    out
}

/// The numbers from 1 to `hi` in increasing order, leaving out `skip`.
pub open spec fn counted(hi: nat, skip: nat) -> Seq<u32>
    decreases hi,
{
    if hi == 0 {
        Seq::empty()
    } else if hi == skip {
        counted((hi - 1) as nat, skip)
    } else {
        counted((hi - 1) as nat, skip).push(hi as u32)
    }
}

/// Counts from 1 to `limit`, passing over `skip` and stopping just before `stop`.
pub fn count_with_skip(limit: u32, skip: u32, stop: u32) -> (r: Vec<u32>)
    ensures
        r@ == counted(if 1 <= stop <= limit { (stop - 1) as nat } else { limit as nat }, skip as nat),
{
    let mut out: Vec<u32> = Vec::new();
    let mut i: u64 = 1;
    while i <= limit as u64
        invariant
            1 <= i <= limit + 1,
            !(1 <= stop < i),
            out@ == counted((i - 1) as nat, skip as nat),
        ensures
            out@ == counted(if 1 <= stop <= limit { (stop - 1) as nat } else { limit as nat }, skip as nat),
        decreases limit + 1 - i,
    {
        if i == stop as u64 {
            break;
        }
        if i == skip as u64 {
            i = i + 1;
            continue;
        }
        out.push(i as u32);
        i = i + 1;
    }
    out
}

/// The cell at position `k` when an `n` by `n` grid is read row by row, both
/// coordinates counted from 1.
pub open spec fn grid_cell(n: int, k: int) -> (int, int) {
    (k / n + 1, k % n + 1)
}

/// Whether `(i, j)` lies on an `n` by `n` grid counted from 1.
pub open spec fn on_grid(n: int, i: int, j: int) -> bool {
    1 <= i <= n && 1 <= j <= n
}

/// How many cells a row-by-row reading of the grid passes before it reaches
/// `(i, j)`; the whole grid when `(i, j)` is not on it.
pub open spec fn cells_before(n: int, i: int, j: int) -> int {
    if on_grid(n, i, j) {
        (i - 1) * n + (j - 1)
    } else {
        n * n
    }
}

/// Reads an `n` by `n` grid row by row and leaves both loops on reaching
/// `(stop_i, stop_j)`. Returns the cells read before it, and the cell it
/// stopped at, if it stopped.
pub fn scan_until(n: u16, stop_i: u16, stop_j: u16) -> (r: (Vec<(u16, u16)>, Option<(u16, u16)>))
    ensures
        r.0@.len() == cells_before(n as int, stop_i as int, stop_j as int),
        forall|k: int|
            0 <= k < r.0@.len() ==> (#[trigger] r.0@[k].0 as int, r.0@[k].1 as int) == grid_cell(
                n as int,
                k,
            ),
        r.1 == if on_grid(n as int, stop_i as int, stop_j as int) {
            Some((stop_i, stop_j))
        } else {
            None
        },
{
    let mut visited: Vec<(u16, u16)> = Vec::new();
    let mut stopped: Option<(u16, u16)> = None;
    let mut i: u32 = 1;
    'outer: while i <= n as u32
        invariant_except_break
            stopped.is_none(),
            visited@.len() == (i - 1) * n,
        invariant
            1 <= i <= n + 1,
            !(1 <= stop_i < i && 1 <= stop_j <= n),
            forall|k: int|
                0 <= k < visited@.len() ==> (#[trigger] visited@[k].0 as int, visited@[k].1 as int)
                    == grid_cell(n as int, k),
        ensures
            visited@.len() == cells_before(n as int, stop_i as int, stop_j as int),
            forall|k: int|
                0 <= k < visited@.len() ==> (#[trigger] visited@[k].0 as int, visited@[k].1 as int)
                    == grid_cell(n as int, k),
            stopped == if on_grid(n as int, stop_i as int, stop_j as int) {
                Some((stop_i, stop_j))
            } else {
                None
            },
        decreases n + 1 - i,
    {
        let mut j: u32 = 1;
        while j <= n as u32
            invariant
                1 <= i <= n,
                1 <= j <= n + 1,
                stopped.is_none(),
                !(1 <= stop_i < i && 1 <= stop_j <= n),
                !(stop_i == i && 1 <= stop_j < j),
                visited@.len() == (i - 1) * n + (j - 1),
                forall|k: int|
                    0 <= k < visited@.len() ==> (#[trigger] visited@[k].0 as int, visited@[k].1 as int)
                        == grid_cell(n as int, k),
            decreases n + 1 - j,
        {
            if i == stop_i as u32 && j == stop_j as u32 {
                stopped = Some((stop_i, stop_j));
                break 'outer;
            }
            proof {
                vstd::arithmetic::div_mod::lemma_fundamental_div_mod_converse(
                    visited@.len() as int,
                    n as int,
                    i - 1,
                    j - 1,
                );
            }
            visited.push((i as u16, j as u16));
            j = j + 1;
        }
        proof {
            assert((i - 1) * n + n == i * n) by (nonlinear_arith);
        }
        i = i + 1;
    }
    (visited, stopped)
}

/// Every cell that the scan reports lies on the grid and comes strictly before
/// the stop cell in row-by-row order: the stop cell itself and everything
/// after it are never reported.
pub proof fn lemma_scanned_cells_precede_stop(n: int, stop_i: int, stop_j: int, k: int)
    requires
        n >= 1,
        0 <= k < cells_before(n, stop_i, stop_j),
    ensures
        on_grid(n, grid_cell(n, k).0, grid_cell(n, k).1),
        on_grid(n, stop_i, stop_j) ==> grid_cell(n, k).0 < stop_i || (grid_cell(n, k).0 == stop_i
            && grid_cell(n, k).1 < stop_j),
{
    let q = k / n;
    let r = k % n;
    vstd::arithmetic::div_mod::lemma_fundamental_div_mod(k, n);
    assert(0 <= r < n);
    assert(0 <= q < n) by (nonlinear_arith)
        requires
            k == n * q + r,
            0 <= r < n,
            0 <= k,
            k < n * n || (1 <= stop_i <= n && 1 <= stop_j <= n && k < (stop_i - 1) * n + (stop_j - 1)),
    ;
    if on_grid(n, stop_i, stop_j) {
        assert(q < stop_i - 1 || (q == stop_i - 1 && r < stop_j - 1)) by (nonlinear_arith)
            requires
                k == n * q + r,
                0 <= r < n,
                1 <= stop_j <= n,
                k < (stop_i - 1) * n + (stop_j - 1),
        ;
    }
}

} // verus!
