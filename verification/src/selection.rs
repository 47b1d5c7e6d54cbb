//! The cursor of a list: which entry is highlighted, and how it moves.
//!
//! A cursor walks a list of `len` entries in a circle: one step past the last
//! entry lands on the first, one step before the first lands on the last.

use vstd::arithmetic::div_mod::lemma_fundamental_div_mod;
use vstd::arithmetic::div_mod::lemma_fundamental_div_mod_converse;
use vstd::prelude::*;

verus! {

/// The index reached from `current` after `direction` steps round a circle of
/// `len` entries. The remainder is the mathematical one: it lies in
/// `0..len` also where `current + direction` is negative.
pub open spec fn wrapped(current: int, direction: int, len: int) -> int
    recommends
        len > 0,
{
    (current + direction) % len
}

/// The selection that follows `selected` after one move by `direction`: an
/// empty selection falls on the first entry, any other one goes round the
/// circle.
pub open spec fn moved(selected: Option<usize>, direction: int, len: int) -> Option<usize>
    recommends
        len > 0,
{
    match selected {
        Some(i) => Some(wrapped(i as int, direction, len) as usize),
        None => Some(0usize),
    }
}

/// The selection after `times` moves by `direction`, one after the other.
pub open spec fn moved_repeatedly(
    selected: Option<usize>,
    direction: int,
    len: int,
    times: nat,
) -> Option<usize>
    recommends
        len > 0,
    decreases times,
{
    if times == 0 {
        selected
    } else {
        moved(moved_repeatedly(selected, direction, len, (times - 1) as nat), direction, len)
    }
}

/// Computes [`wrapped`] on machine integers, for every `direction`.
pub fn wrap_index(current: usize, direction: isize, len: usize) -> (next: usize)
    requires
        len > 0,
    ensures
        next == wrapped(current as int, direction as int, len as int),
        next < len,
{
    let target: i128 = current as i128 + direction as i128;
    let size: i128 = len as i128;
    let rem: i128 = target % size;
    let lifted: i128 = if rem < 0 {
        rem + size
    } else {
        rem
    };
    proof {
        let t = target as int;
        let s = size as int;
        if t < 0 {
            let m = (-t) % s;
            let q = (-t) / s;
            lemma_fundamental_div_mod(-t, s);
            if m == 0 {
                assert(t == (-q) * s + 0) by (nonlinear_arith)
                    requires
                        -t == s * q + m,
                        m == 0,
                ;
                lemma_fundamental_div_mod_converse(t, s, -q, 0);
            } else {
                assert(t == (-q - 1) * s + (s - m)) by (nonlinear_arith)
                    requires
                        -t == s * q + m,
                ;
                lemma_fundamental_div_mod_converse(t, s, -q - 1, s - m);
            }
        }
    }
    lifted as usize
}

/// Which entry of a list is highlighted, if any.
#[derive(Clone, Copy, Debug, PartialEq, Eq, Structural)]
pub struct Selection {
    pub selected: Option<usize>,
}

impl Selection {
    /// Holds over a list of `len` entries when the highlighted index, if
    /// there is one, names an entry of it.
    pub open spec fn fits(&self, len: int) -> bool {
        match self.selected {
            Some(i) => i < len,
            None => true,
        }
    }

    /// A cursor on the first entry.
    pub fn new() -> (cursor: Selection)
        ensures
            cursor.selected == Some(0usize),
    {
        Selection { selected: Some(0) }
    }

    /// The highlighted index.
    pub fn selected(&self) -> (index: Option<usize>)
        ensures
            index == self.selected,
    {
        self.selected
    }

    /// Highlights `index`, or nothing.
    pub fn select(&mut self, index: Option<usize>)
        ensures
            final(self).selected == index,
    {
        self.selected = index;
    }

    /// Moves the highlight `direction` entries along a list of `len` entries,
    /// round the circle; with nothing highlighted yet, the first entry is.
    pub fn move_by(&mut self, direction: isize, len: usize)
        requires
            len > 0,
        ensures
            final(self).selected == moved(old(self).selected, direction as int, len as int),
            final(self).fits(len as int),
    {
        let next: usize = match self.selected {
            Some(i) => wrap_index(i, direction, len),
            None => 0,
        };
        self.selected = Some(next);
    }
}

/// One step forward from any entry of a list lands on an entry of the list,
/// and so does one step back.
pub proof fn lemma_wrapped_in_range(current: int, direction: int, len: int)
    requires
        len > 0,
    ensures
        0 <= wrapped(current, direction, len) < len,
{
}

/// A step back from the first entry lands on the last one, whatever the
/// length of the list: never on a negative index, never past the end.
pub proof fn lemma_back_from_first_is_last(len: usize)
    requires
        len >= 1,
    ensures
        wrapped(0, -1, len as int) == len - 1,
        moved(Some(0usize), -1, len as int) == Some((len - 1) as usize),
{
    lemma_fundamental_div_mod_converse(-1, len as int, -1, len - 1);
}

/// A step forward from the last entry lands on the first one.
pub proof fn lemma_forward_from_last_is_first(len: usize)
    requires
        len >= 1,
    ensures
        wrapped(len - 1, 1, len as int) == 0,
        moved(Some((len - 1) as usize), 1, len as int) == Some(0usize),
{
    lemma_fundamental_div_mod_converse(len as int, len as int, 1, 0);
}

/// A step back undoes a step forward, and a step forward undoes a step back.
pub proof fn lemma_back_undoes_forward(index: usize, len: usize)
    requires
        index < len,
    ensures
        moved(moved(Some(index), 1, len as int), -1, len as int) == Some(index),
        moved(moved(Some(index), -1, len as int), 1, len as int) == Some(index),
{
    let n = len as int;
    let i = index as int;
    if i + 1 < n {
        lemma_fundamental_div_mod_converse(i + 1, n, 0, i + 1);
        lemma_fundamental_div_mod_converse(i, n, 0, i);
    } else {
        lemma_fundamental_div_mod_converse(i + 1, n, 1, 0);
        lemma_fundamental_div_mod_converse(-1, n, -1, n - 1);
    }
    if i >= 1 {
        lemma_fundamental_div_mod_converse(i - 1, n, 0, i - 1);
        lemma_fundamental_div_mod_converse(i, n, 0, i);
    } else {
        lemma_fundamental_div_mod_converse(-1, n, -1, n - 1);
        lemma_fundamental_div_mod_converse(n, n, 1, 0);
    }
}

/// After `times` steps forward from `index` the cursor stands `times` places
/// further round the circle.
pub proof fn lemma_forward_steps_add_up(index: usize, len: usize, times: nat)
    requires
        index < len,
    ensures
        moved_repeatedly(Some(index), 1, len as int, times) == Some(
            wrapped(index as int, times as int, len as int) as usize,
        ),
    decreases times,
{
    let n = len as int;
    let i = index as int;
    if times == 0 {
        lemma_fundamental_div_mod_converse(i, n, 0, i);
    } else {
        let before = (times - 1) as nat;
        lemma_forward_steps_add_up(index, len, before);
        let r = (i + before) % n;
        let q = (i + before) / n;
        lemma_fundamental_div_mod(i + before, n);
        assert(i + before == q * n + r) by (nonlinear_arith)
            requires
                i + before == n * q + r,
        ;
        if r + 1 < n {
            lemma_fundamental_div_mod_converse(r + 1, n, 0, r + 1);
            lemma_fundamental_div_mod_converse(i + times, n, q, r + 1);
        } else {
            lemma_fundamental_div_mod_converse(r + 1, n, 1, 0);
            assert(i + times == (q + 1) * n + 0) by (nonlinear_arith)
                requires
                    i + times == q * n + r + 1,
                    r + 1 == n,
            ;
            lemma_fundamental_div_mod_converse(i + times, n, q + 1, 0);
        }
    }
}

/// As many steps forward as the list has entries bring the cursor back to
/// the entry it started from.
pub proof fn lemma_full_circle(index: usize, len: usize)
    requires
        index < len,
    ensures
        moved_repeatedly(Some(index), 1, len as int, len as nat) == Some(index),
{
    lemma_forward_steps_add_up(index, len, len as nat);
    lemma_fundamental_div_mod_converse(index + len, len as int, 1, index as int);
}

} // verus!
