//! Focus arithmetic over the slots of a composite.
//!
//! A composite lays its children out in numbered slots. At any moment some
//! slots are shown and some are hidden; a `Seq<bool>` (a `Vec<bool>` in
//! executable code) says which. Focus only ever rests on a shown slot, and
//! moves from one shown slot to the next or the previous one.

use vstd::prelude::*;

verus! {

/// What a composite does when focus is asked to move past its first or last
/// shown slot.
#[derive(Clone, Copy, Debug, PartialEq, Eq, Structural)]
pub enum FocusPolicy {
    /// Focus wraps round: after the last slot comes the first, before the
    /// first comes the last.
    BoundedCycling,
    /// Focus stays where it is and the key is handed back, so that whoever
    /// owns the composite can move on to one of its own slots.
    ClampedDelegation,
}

/// The number of shown slots among the first `n`.
pub open spec fn count_shown(mask: Seq<bool>, n: int) -> nat
    decreases n,
{
    if n <= 0 {
        0
    } else {
        count_shown(mask, n - 1) + if n - 1 < mask.len() && mask[n - 1] {
            1nat
        } else {
            0nat
        }
    }
}

/// The number before `i` in the ring of the numbers below `n`: one less,
/// and the last before the first.
pub open spec fn ring_before(i: int, n: int) -> int {
    if i <= 0 {
        n - 1
    } else {
        i - 1
    }
}

/// The number after `i` in the ring of the numbers below `n`: one more,
/// and the first after the last.
pub open spec fn ring_after(i: int, n: int) -> int {
    if i + 1 >= n {
        0
    } else {
        i + 1
    }
}

/// A step round the ring is a step modulo the size of the ring, and stays
/// in the ring.
pub proof fn lemma_ring_is_modular(i: int, n: int)
    requires
        0 <= i < n,
    ensures
        ring_before(i, n) == (i + n - 1) % n,
        ring_after(i, n) == (i + 1) % n,
        0 <= ring_before(i, n) < n,
        0 <= ring_after(i, n) < n,
{
    if i == 0 {
        vstd::arithmetic::div_mod::lemma_small_mod((n - 1) as nat, n as nat);
    } else {
        vstd::arithmetic::div_mod::lemma_mod_add_multiples_vanish(i - 1, n);
        vstd::arithmetic::div_mod::lemma_small_mod((i - 1) as nat, n as nat);
    }
    if i + 1 == n {
        vstd::arithmetic::div_mod::lemma_mod_self_0(n);
    } else {
        vstd::arithmetic::div_mod::lemma_small_mod((i + 1) as nat, n as nat);
    }
}

/// The place of slot `i` among the shown slots: how many shown slots stand
/// before it.
pub open spec fn rank(mask: Seq<bool>, i: int) -> int {
    count_shown(mask, i) as int
}

/// The number of shown slots.
pub open spec fn shown_total(mask: Seq<bool>) -> nat {
    count_shown(mask, mask.len() as int)
}

/// The nearest shown slot after `i`, if there is one.
pub open spec fn next_shown(mask: Seq<bool>, i: int) -> Option<int>
    decreases mask.len() - i,
{
    if i + 1 >= mask.len() {
        None
    } else if i + 1 >= 0 && mask[i + 1] {
        Some(i + 1)
    } else {
        next_shown(mask, i + 1)
    }
}

/// The nearest shown slot before `i`, if there is one.
pub open spec fn prev_shown(mask: Seq<bool>, i: int) -> Option<int>
    decreases i,
{
    if i <= 0 {
        None
    } else if i - 1 < mask.len() && mask[i - 1] {
        Some(i - 1)
    } else {
        prev_shown(mask, i - 1)
    }
}

/// The first shown slot.
pub open spec fn first_shown(mask: Seq<bool>) -> Option<int> {
    next_shown(mask, -1)
}

/// The last shown slot.
pub open spec fn last_shown(mask: Seq<bool>) -> Option<int> {
    prev_shown(mask, mask.len() as int)
}

/// Where focus goes from slot `i` on an advance: the next shown slot; past
/// the last one, the first under bounded cycling and nowhere (`None`) under
/// clamped delegation.
pub open spec fn forward(mask: Seq<bool>, policy: FocusPolicy, i: int) -> Option<int> {
    match next_shown(mask, i) {
        Some(j) => Some(j),
        None => match policy {
            FocusPolicy::BoundedCycling => first_shown(mask),
            FocusPolicy::ClampedDelegation => None,
        },
    }
}

/// Where focus goes from slot `i` on a retreat: the previous shown slot;
/// before the first one, the last under bounded cycling and nowhere (`None`)
/// under clamped delegation.
pub open spec fn backward(mask: Seq<bool>, policy: FocusPolicy, i: int) -> Option<int> {
    match prev_shown(mask, i) {
        Some(j) => Some(j),
        None => match policy {
            FocusPolicy::BoundedCycling => last_shown(mask),
            FocusPolicy::ClampedDelegation => None,
        },
    }
}

/// The slot that a focus index is repaired to. A shown slot stays. A hidden
/// one is clamped to the nearest shown slot before it, and where there is
/// none, to the nearest one after it.
pub open spec fn nearest_shown(mask: Seq<bool>, i: int) -> int {
    if 0 <= i < mask.len() && mask[i] {
        i
    } else {
        match prev_shown(mask, i) {
            Some(j) => j,
            None => match next_shown(mask, i) {
                Some(j) => j,
                None => i,
            },
        }
    }
}

/// The slot reached from `i` by `n` advances under bounded cycling.
pub open spec fn forward_by(mask: Seq<bool>, i: int, n: nat) -> int
    decreases n,
{
    if n == 0 {
        i
    } else {
        let at = forward_by(mask, i, (n - 1) as nat);
        match forward(mask, FocusPolicy::BoundedCycling, at) {
            Some(j) => j,
            None => at,
        }
    }
}

/// The slot reached from `i` by `n` retreats under bounded cycling.
pub open spec fn backward_by(mask: Seq<bool>, i: int, n: nat) -> int
    decreases n,
{
    if n == 0 {
        i
    } else {
        let at = backward_by(mask, i, (n - 1) as nat);
        match backward(mask, FocusPolicy::BoundedCycling, at) {
            Some(j) => j,
            None => at,
        }
    }
}

/// `next_shown` finds a shown slot after `i` with only hidden slots in
/// between, and finds none only where every later slot is hidden.
pub proof fn lemma_next_shown(mask: Seq<bool>, i: int)
    requires
        -1 <= i,
    ensures
        match next_shown(mask, i) {
            Some(j) => i < j < mask.len() && mask[j] && forall|t: int| i < t < j ==> !mask[t],
            None => forall|t: int| i < t < mask.len() ==> !mask[t],
        },
    decreases mask.len() - i,
{
    if i + 1 >= mask.len() {
    } else if mask[i + 1] {
    } else {
        lemma_next_shown(mask, i + 1);
    }
}

/// `prev_shown` finds a shown slot before `i` with only hidden slots in
/// between, and finds none only where every earlier slot is hidden.
pub proof fn lemma_prev_shown(mask: Seq<bool>, i: int)
    requires
        i <= mask.len(),
    ensures
        match prev_shown(mask, i) {
            Some(j) => 0 <= j < i && mask[j] && forall|t: int| j < t < i ==> !mask[t],
            None => forall|t: int| 0 <= t < i ==> !mask[t],
        },
    decreases i,
{
    if i <= 0 {
    } else if mask[i - 1] {
    } else {
        lemma_prev_shown(mask, i - 1);
    }
}

/// Hidden slots do not count.
pub proof fn lemma_count_skips_hidden(mask: Seq<bool>, a: int, b: int)
    requires
        0 <= a <= b <= mask.len(),
        forall|t: int| a <= t < b ==> !mask[t],
    ensures
        count_shown(mask, b) == count_shown(mask, a),
    decreases b - a,
{
    if a < b {
        lemma_count_skips_hidden(mask, a, b - 1);
    }
}

/// The count grows with the prefix, and by at least one across a shown slot.
pub proof fn lemma_count_grows(mask: Seq<bool>, a: int, b: int)
    requires
        0 <= a <= b <= mask.len(),
    ensures
        count_shown(mask, a) <= count_shown(mask, b),
        a < b && mask[a] ==> count_shown(mask, a) < count_shown(mask, b),
    decreases b - a,
{
    if a < b {
        lemma_count_grows(mask, a, b - 1);
    }
}

/// Two shown slots with equally many shown slots before them are the same.
pub proof fn lemma_rank_tells_slot(mask: Seq<bool>, a: int, b: int)
    requires
        0 <= a < mask.len(),
        0 <= b < mask.len(),
        mask[a],
        mask[b],
        count_shown(mask, a) == count_shown(mask, b),
    ensures
        a == b,
{
    if a < b {
        lemma_count_grows(mask, a, b);
    } else if b < a {
        lemma_count_grows(mask, b, a);
    }
}

/// Where anything is shown, the first shown slot exists and has nothing
/// shown before it.
pub proof fn lemma_first_shown(mask: Seq<bool>, witness: int)
    requires
        0 <= witness < mask.len(),
        mask[witness],
    ensures
        first_shown(mask) matches Some(f) && 0 <= f <= witness && mask[f] && count_shown(mask, f)
            == 0,
{
    lemma_next_shown(mask, -1);
    let f = first_shown(mask)->0;
    lemma_count_skips_hidden(mask, 0, f);
}

/// Where anything is shown, the last shown slot exists and has every other
/// shown slot before it.
pub proof fn lemma_last_shown(mask: Seq<bool>, witness: int)
    requires
        0 <= witness < mask.len(),
        mask[witness],
    ensures
        last_shown(mask) matches Some(l) && witness <= l < mask.len() && mask[l] && count_shown(
            mask,
            l,
        ) + 1 == shown_total(mask),
{
    lemma_prev_shown(mask, mask.len() as int);
    let l = last_shown(mask)->0;
    lemma_count_skips_hidden(mask, l + 1, mask.len() as int);
}

/// One advance under bounded cycling moves focus from a shown slot to a
/// shown slot, one place on in the ring of shown slots.
pub proof fn lemma_forward_rank(mask: Seq<bool>, i: int)
    requires
        0 <= i < mask.len(),
        mask[i],
    ensures
        forward(mask, FocusPolicy::BoundedCycling, i) matches Some(j) && 0 <= j < mask.len()
            && mask[j] && count_shown(mask, j) as int == (count_shown(mask, i) as int + 1) % (
        shown_total(mask) as int),
{
    let total = shown_total(mask) as int;
    lemma_next_shown(mask, i);
    lemma_count_grows(mask, i, mask.len() as int);
    lemma_count_grows(mask, i + 1, mask.len() as int);
    match next_shown(mask, i) {
        Some(j) => {
            lemma_count_skips_hidden(mask, i + 1, j);
            lemma_count_grows(mask, j, mask.len() as int);
            assert(count_shown(mask, j) == count_shown(mask, i) + 1);
            assert(count_shown(mask, j) < total);
            vstd::arithmetic::div_mod::lemma_small_mod(count_shown(mask, j), total as nat);
        },
        None => {
            lemma_count_skips_hidden(mask, i + 1, mask.len() as int);
            assert(count_shown(mask, i) + 1 == total);
            lemma_first_shown(mask, i);
            vstd::arithmetic::div_mod::lemma_mod_self_0(total);
        },
    }
}

/// One retreat under bounded cycling moves focus from a shown slot to a
/// shown slot, one place back in the ring of shown slots.
pub proof fn lemma_backward_rank(mask: Seq<bool>, i: int)
    requires
        0 <= i < mask.len(),
        mask[i],
    ensures
        backward(mask, FocusPolicy::BoundedCycling, i) matches Some(j) && 0 <= j < mask.len()
            && mask[j] && (count_shown(mask, j) as int + 1) % (shown_total(mask) as int)
            == count_shown(mask, i) as int,
{
    let total = shown_total(mask) as int;
    lemma_prev_shown(mask, i);
    lemma_count_grows(mask, i, mask.len() as int);
    match prev_shown(mask, i) {
        Some(j) => {
            lemma_count_skips_hidden(mask, j + 1, i);
            assert(count_shown(mask, j) + 1 == count_shown(mask, i));
            vstd::arithmetic::div_mod::lemma_small_mod(count_shown(mask, i), total as nat);
        },
        None => {
            lemma_count_skips_hidden(mask, 0, i);
            lemma_last_shown(mask, i);
            vstd::arithmetic::div_mod::lemma_mod_self_0(total);
        },
    }
}

/// After `n` advances under bounded cycling, focus is on a shown slot, `n`
/// places on in the ring of shown slots.
pub proof fn lemma_forward_by_rank(mask: Seq<bool>, i: int, n: nat)
    requires
        0 <= i < mask.len(),
        mask[i],
    ensures
        0 <= forward_by(mask, i, n) < mask.len(),
        mask[forward_by(mask, i, n)],
        count_shown(mask, forward_by(mask, i, n)) as int == (count_shown(mask, i) as int + n as int)
            % (shown_total(mask) as int),
    decreases n,
{
    let total = shown_total(mask) as int;
    lemma_count_grows(mask, i, mask.len() as int);
    if n == 0 {
        vstd::arithmetic::div_mod::lemma_small_mod(count_shown(mask, i), total as nat);
    } else {
        lemma_forward_by_rank(mask, i, (n - 1) as nat);
        let at = forward_by(mask, i, (n - 1) as nat);
        lemma_forward_rank(mask, at);
        vstd::arithmetic::div_mod::lemma_add_mod_noop(count_shown(mask, i) + n - 1, 1, total);
        vstd::arithmetic::div_mod::lemma_mod_twice(count_shown(mask, i) + n - 1, total);
        vstd::arithmetic::div_mod::lemma_add_mod_noop(
            (count_shown(mask, i) + n - 1) % total,
            1,
            total,
        );
    }
}

/// Under bounded cycling, as many advances as there are shown slots bring
/// focus back to the slot it started on.
pub proof fn lemma_forward_cycle(mask: Seq<bool>, i: int)
    requires
        0 <= i < mask.len(),
        mask[i],
    ensures
        forward_by(mask, i, shown_total(mask)) == i,
{
    let total = shown_total(mask);
    lemma_count_grows(mask, i, mask.len() as int);
    lemma_forward_by_rank(mask, i, total);
    vstd::arithmetic::div_mod::lemma_mod_add_multiples_vanish(
        count_shown(mask, i) as int,
        total as int,
    );
    vstd::arithmetic::div_mod::lemma_small_mod(count_shown(mask, i), total);
    lemma_rank_tells_slot(mask, forward_by(mask, i, total), i);
}

/// After `n` retreats under bounded cycling, focus is on a shown slot, `n`
/// places back in the ring of shown slots.
pub proof fn lemma_backward_by_rank(mask: Seq<bool>, i: int, n: nat)
    requires
        0 <= i < mask.len(),
        mask[i],
    ensures
        0 <= backward_by(mask, i, n) < mask.len(),
        mask[backward_by(mask, i, n)],
        (count_shown(mask, backward_by(mask, i, n)) as int + n as int) % (shown_total(mask) as int)
            == count_shown(mask, i) as int,
    decreases n,
{
    let total = shown_total(mask) as int;
    lemma_count_grows(mask, i, mask.len() as int);
    if n == 0 {
        vstd::arithmetic::div_mod::lemma_small_mod(count_shown(mask, i), total as nat);
    } else {
        lemma_backward_by_rank(mask, i, (n - 1) as nat);
        let at = backward_by(mask, i, (n - 1) as nat);
        lemma_backward_rank(mask, at);
        let to = backward_by(mask, i, n);
        let r = count_shown(mask, to) as int;
        let a = count_shown(mask, at) as int;
        lemma_count_grows(mask, at, mask.len() as int);
        vstd::arithmetic::div_mod::lemma_small_mod(a as nat, total as nat);
        vstd::arithmetic::div_mod::lemma_add_mod_noop(r + 1, n - 1, total);
        vstd::arithmetic::div_mod::lemma_add_mod_noop(a, n - 1, total);
        assert((r + n) % total == (a + (n - 1)) % total) by {
            assert(r + n == (r + 1) + (n - 1));
            assert((r + 1) % total == a % total);
        }
    }
}

/// Under bounded cycling, as many retreats as there are shown slots bring
/// focus back to the slot it started on.
pub proof fn lemma_backward_cycle(mask: Seq<bool>, i: int)
    requires
        0 <= i < mask.len(),
        mask[i],
    ensures
        backward_by(mask, i, shown_total(mask)) == i,
{
    let total = shown_total(mask);
    lemma_count_grows(mask, i, mask.len() as int);
    lemma_backward_by_rank(mask, i, total);
    let to = backward_by(mask, i, total);
    lemma_count_grows(mask, to, mask.len() as int);
    vstd::arithmetic::div_mod::lemma_mod_add_multiples_vanish(
        count_shown(mask, to) as int,
        total as int,
    );
    vstd::arithmetic::div_mod::lemma_small_mod(count_shown(mask, to), total);
    lemma_rank_tells_slot(mask, to, i);
}

/// The slot that repair clamps to is shown, where anything is shown at all.
pub proof fn lemma_nearest_shown(mask: Seq<bool>, i: int, witness: int)
    requires
        0 <= i < mask.len(),
        0 <= witness < mask.len(),
        mask[witness],
    ensures
        0 <= nearest_shown(mask, i) < mask.len(),
        mask[nearest_shown(mask, i)],
        mask[i] ==> nearest_shown(mask, i) == i,
{
    lemma_prev_shown(mask, i);
    lemma_next_shown(mask, i);
}

/// The nearest shown slot after `i`.
pub fn next_slot(mask: &Vec<bool>, i: usize) -> (r: Option<usize>)
    requires
        i < mask.len(),
    ensures
        match r {
            Some(j) => next_shown(mask@, i as int) == Some(j as int),
            None => next_shown(mask@, i as int) is None,
        },
{
    let mut j: usize = mask.len() - 1;
    let mut found: Option<usize> = None;
    while j > i
        invariant
            i <= j < mask.len(),
            match found {
                Some(k) => next_shown(mask@, j as int) == Some(k as int),
                None => next_shown(mask@, j as int) is None,
            },
        decreases j,
    {
        if mask[j] {
            found = Some(j);
        }
        j = j - 1;
    }
    found
}

/// The nearest shown slot before `i`.
pub fn prev_slot(mask: &Vec<bool>, i: usize) -> (r: Option<usize>)
    requires
        i <= mask.len(),
    ensures
        match r {
            Some(j) => prev_shown(mask@, i as int) == Some(j as int),
            None => prev_shown(mask@, i as int) is None,
        },
{
    let mut j: usize = 0;
    let mut found: Option<usize> = None;
    while j < i
        invariant
            j <= i <= mask.len(),
            match found {
                Some(k) => prev_shown(mask@, j as int) == Some(k as int),
                None => prev_shown(mask@, j as int) is None,
            },
        decreases i - j,
    {
        if mask[j] {
            found = Some(j);
        }
        j = j + 1;
    }
    found
}

/// The first shown slot.
pub fn first_slot(mask: &Vec<bool>) -> (r: Option<usize>)
    ensures
        match r {
            Some(j) => first_shown(mask@) == Some(j as int),
            None => first_shown(mask@) is None,
        },
{
    if mask.len() == 0 {
        None
    } else if mask[0] {
        Some(0)
    } else {
        next_slot(mask, 0)
    }
}

/// The last shown slot.
pub fn last_slot(mask: &Vec<bool>) -> (r: Option<usize>)
    ensures
        match r {
            Some(j) => last_shown(mask@) == Some(j as int),
            None => last_shown(mask@) is None,
        },
{
    prev_slot(mask, mask.len())
}

/// Where an advance takes focus from slot `i`; `None` where the policy hands
/// the key back.
pub fn advance_slot(mask: &Vec<bool>, policy: FocusPolicy, i: usize) -> (r: Option<usize>)
    requires
        i < mask.len(),
    ensures
        match r {
            Some(j) => forward(mask@, policy, i as int) == Some(j as int),
            None => forward(mask@, policy, i as int) is None,
        },
{
    match next_slot(mask, i) {
        Some(j) => Some(j),
        None => match policy {
            FocusPolicy::BoundedCycling => first_slot(mask),
            FocusPolicy::ClampedDelegation => None,
        },
    }
}

/// Where a retreat takes focus from slot `i`; `None` where the policy hands
/// the key back.
pub fn retreat_slot(mask: &Vec<bool>, policy: FocusPolicy, i: usize) -> (r: Option<usize>)
    requires
        i < mask.len(),
    ensures
        match r {
            Some(j) => backward(mask@, policy, i as int) == Some(j as int),
            None => backward(mask@, policy, i as int) is None,
        },
{
    match prev_slot(mask, i) {
        Some(j) => Some(j),
        None => match policy {
            FocusPolicy::BoundedCycling => last_slot(mask),
            FocusPolicy::ClampedDelegation => None,
        },
    }
}

/// The slot that focus index `i` is repaired to.
pub fn nearest_slot(mask: &Vec<bool>, i: usize) -> (r: usize)
    requires
        i < mask.len(),
    ensures
        r as int == nearest_shown(mask@, i as int),
{
    if mask[i] {
        i
    } else {
        match prev_slot(mask, i) {
            Some(j) => j,
            None => match next_slot(mask, i) {
                Some(j) => j,
                None => i,
            },
        }
    }
}

/// The number of shown slots.
pub fn count_slots(mask: &Vec<bool>) -> (n: usize)
    ensures
        n as nat == shown_total(mask@),
{
    let mut n: usize = 0;
    let mut j: usize = 0;
    while j < mask.len()
        invariant
            j <= mask.len(),
            n as nat == count_shown(mask@, j as int),
            n <= j,
        decreases mask.len() - j,
    {
        if mask[j] {
            n = n + 1;
        }
        j = j + 1;
    }
    n
}

} // verus!
