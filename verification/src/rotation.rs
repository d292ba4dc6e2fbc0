use vstd::prelude::*;

use vstd::arithmetic::div_mod::{
    lemma_fundamental_div_mod, lemma_fundamental_div_mod_converse_mod,
};
use vstd::seq_lib::lemma_multiset_commutative;

use crate::account_id::AccountId;
use crate::global_state::{registry_wf, GlobalState};
use crate::vrf_account_list::VrfAccountList;

verus! {

/// One rotation step: the cursor moves to the next pool index, wrapping
/// around at the pool's end.
pub open spec fn advance_cursor(c: int, n: int) -> int {
    (c + 1) % n
}

/// The cursor after `k` consecutive successful dispatches, starting from
/// cursor `c0` over a pool of `n` entries; the entry visited by dispatch
/// number `k` (counting from zero) is the one this cursor points at.
pub open spec fn cursor_after(c0: int, k: int, n: int) -> int
    decreases k,
{
    if k <= 0 {
        c0
    } else {
        advance_cursor(cursor_after(c0, k - 1, n), n)
    }
}

/// Remainder of a value lying within one wrap of the divisor.
proof fn lemma_mod_in_window(x: int, n: int)
    requires
        n > 0,
        0 <= x < 2 * n,
    ensures
        x % n == if x < n { x } else { x - n },
{
    if x < n {
        lemma_fundamental_div_mod_converse_mod(x, n, 0, x);
    } else {
        lemma_fundamental_div_mod_converse_mod(x, n, 1, x - n);
    }
}

/// Closed form of the rotation: `k` wrapping steps from `c0` land on
/// `(c0 + k) % n`, which stays inside the pool.
pub proof fn lemma_cursor_after_closed_form(c0: int, k: int, n: int)
    requires
        0 <= c0 < n,
        0 <= k,
    ensures
        0 <= cursor_after(c0, k, n) < n,
        cursor_after(c0, k, n) == (c0 + k) % n,
    decreases k,
{
    if k == 0 {
        lemma_mod_in_window(c0, n);
    } else {
        lemma_cursor_after_closed_form(c0, k - 1, n);
        let p = (c0 + k - 1) % n;
        lemma_fundamental_div_mod(c0 + k - 1, n);
        let q = (c0 + k - 1) / n;
        lemma_mod_in_window(p + 1, n);
        assert(c0 + k - 1 == n * q + p);
        assert(n * q == q * n) by (nonlinear_arith);
        if p + 1 < n {
            assert(c0 + k == q * n + (p + 1));
            lemma_fundamental_div_mod_converse_mod(c0 + k, n, q, p + 1);
        } else {
            assert((q + 1) * n == q * n + n) by (nonlinear_arith);
            lemma_fundamental_div_mod_converse_mod(c0 + k, n, q + 1, 0);
        }
    }
}

/// Round-robin fairness, cursor side: each of `n` consecutive successful
/// dispatches from cursor `c0` visits pool index `(c0 + k) % n` — index
/// order starting at the pre-call cursor — and after exactly `n` such
/// dispatches the cursor has returned to `c0`.
pub proof fn lemma_round_robin_fairness(c0: int, n: int)
    requires
        n > 0,
        0 <= c0 < n,
    ensures
        forall|k: int| 0 <= k <= n ==> 0 <= #[trigger] cursor_after(c0, k, n) < n,
        forall|k: int| 0 <= k <= n ==> #[trigger] cursor_after(c0, k, n) == (c0 + k) % n,
        cursor_after(c0, n, n) == c0,
{
    assert forall|k: int| 0 <= k <= n implies 0 <= #[trigger] cursor_after(c0, k, n) < n
        && cursor_after(c0, k, n) == (c0 + k) % n by {
        lemma_cursor_after_closed_form(c0, k, n);
    }
    lemma_mod_in_window(c0 + n, n);
}

/// Round-robin fairness, no-repeat side: within one full rotation of `n`
/// successful dispatches, no pool index is visited twice.
pub proof fn lemma_rotation_distinct(c0: int, n: int, i: int, j: int)
    requires
        0 <= c0 < n,
        0 <= i < j < n,
    ensures
        cursor_after(c0, i, n) != cursor_after(c0, j, n),
{
    lemma_cursor_after_closed_form(c0, i, n);
    lemma_cursor_after_closed_form(c0, j, n);
    lemma_mod_in_window(c0 + i, n);
    lemma_mod_in_window(c0 + j, n);
}

/// Round-robin fairness, coverage side: within one full rotation of `n`
/// successful dispatches, every pool index is visited.
pub proof fn lemma_rotation_covers(c0: int, n: int, f: int)
    requires
        0 <= c0 < n,
        0 <= f < n,
    ensures
        exists|i: int| 0 <= i < n && #[trigger] cursor_after(c0, i, n) == f,
{
    let i = if f >= c0 {
        f - c0
    } else {
        f + n - c0
    };
    lemma_cursor_after_closed_form(c0, i, n);
    lemma_mod_in_window(c0 + i, n);
    assert(0 <= i < n && cursor_after(c0, i, n) == f);
}

/// The sources selected by one full rotation of consecutive successful
/// dispatches starting at cursor `c0`: dispatch `k` selects the entry at
/// the cursor it starts from.
pub open spec fn rotation_selections(entries: Seq<AccountId>, c0: int) -> Seq<AccountId> {
    Seq::new(entries.len(), |k: int| entries[cursor_after(c0, k, entries.len() as int)])
}

/// Round-robin fairness over the entries themselves: one full rotation
/// selects the pool's entries rotated to start at the pre-run cursor —
/// so it selects every source exactly once.
pub proof fn lemma_rotation_selects_each_entry_once(entries: Seq<AccountId>, c0: int)
    requires
        0 <= c0 < entries.len(),
    ensures
        rotation_selections(entries, c0) == entries.subrange(c0, entries.len() as int)
            + entries.subrange(0, c0),
        rotation_selections(entries, c0).to_multiset() == entries.to_multiset(),
{
    broadcast use vstd::multiset::group_multiset_axioms;

    let n = entries.len() as int;
    let sel = rotation_selections(entries, c0);
    let hi = entries.subrange(c0, n);
    let lo = entries.subrange(0, c0);
    assert forall|k: int| 0 <= k < n implies sel[k] == (hi + lo)[k] by {
        lemma_cursor_after_closed_form(c0, k, n);
        lemma_mod_in_window(c0 + k, n);
    }
    assert(sel =~= hi + lo);
    assert(entries =~= lo + hi);
    lemma_multiset_commutative(hi, lo);
    lemma_multiset_commutative(lo, hi);
    assert(hi.to_multiset().add(lo.to_multiset()) =~= lo.to_multiset().add(hi.to_multiset()));
}

/// Rotation read of the registry: the source the next request would be
/// bound to, without advancing the cursor. `None` exactly when the pool is
/// empty.
pub fn next_source(global_state: &GlobalState, vrf_account_list: &VrfAccountList) -> (r: Option<
    AccountId,
>)
    requires
        registry_wf(*global_state, *vrf_account_list),
    ensures
        (r is None) <==> vrf_account_list.list@.len() == 0,
        (r is Some) ==> r == Some(
            vrf_account_list.list@[global_state.vrf_account_pointer as int],
        ),
{
    if vrf_account_list.list.len() == 0 {
        None
    } else {
        Some(vrf_account_list.list[global_state.vrf_account_pointer as usize])
    }
}

} // verus!
