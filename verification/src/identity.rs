//! The widget identity stack.
//!
//! A widget occurrence is identified by folding a multiplicative hash
//! (`acc * 31 + child_id`, wrapping modulo `2^64`) over the ids of its
//! enclosing container calls plus a local ordinal.  Two occurrences get
//! the same identity exactly when they are reached through the same
//! sequence of container pushes and the same ordinal — which is what
//! makes an identity stable across frames.

use vstd::prelude::*;
use vstd::wrapping::u64_specs;
use vstd::arithmetic::div_mod::{
    lemma_add_mod_noop,
    lemma_mod_bound,
    lemma_mod_sub_multiples_vanish,
    lemma_small_mod,
};

verus! {

/// The modulus of the wrapping fold.
pub open spec fn wrap_modulus() -> int {
    0x1_0000_0000_0000_0000
}

/// One fold step: `acc * 31 + id`, wrapping modulo `2^64`.
#[verifier::opaque]
pub open spec fn fold_step(acc: u64, id: u64) -> u64 {
    u64_specs::wrapping_add(u64_specs::wrapping_mul(acc, 31), id)
}

/// The running hash of a whole path of ids, folded left to right from 0.
pub open spec fn fold_hash(s: Seq<u64>) -> u64
    decreases s.len(),
{
    if s.len() == 0 {
        0u64
    } else {
        fold_step(fold_hash(s.drop_last()), s.last())
    }
}

/// The value of a fold step is `(acc * 31 + id) mod 2^64`.
pub proof fn lemma_fold_step_value(acc: u64, id: u64)
    ensures
        fold_step(acc, id) as int == (acc * 31 + id) % wrap_modulus(),
{
    reveal(fold_step);
    let n = wrap_modulus();
    let prod: int = acc * 31;
    assert(0 <= prod <= 0xFFFF_FFFF_FFFF_FFFF * 31) by (nonlinear_arith)
        requires
            0 <= acc <= 0xFFFF_FFFF_FFFF_FFFF && prod == acc * 31,
    ;
    let m = u64_specs::wrapping_mul(acc, 31);
    assert((acc as nat * 31) % (n as nat) == prod % n);
    lemma_mod_bound(prod, n);
    assert(m as int == prod % n);
    let s: int = m + id;
    lemma_small_mod(id as nat, n as nat);
    lemma_add_mod_noop(prod, id as int, n);
    if s > u64::MAX {
        assert(fold_step(acc, id) as int == s - n);
        lemma_mod_sub_multiples_vanish(s, n);
        lemma_small_mod((s - n) as nat, n as nat);
        assert((prod % n + (id as int) % n) % n == s % n);
    } else {
        assert(fold_step(acc, id) as int == s);
        lemma_small_mod(s as nat, n as nat);
        assert((prod % n + (id as int) % n) % n == s % n);
    }
}

/// Stack of enclosing container ids with the running hash of the path.
#[derive(Debug)]
pub struct WidgetIdStack {
    pub stack: Vec<u64>,
    pub current: u64,
}

impl WidgetIdStack {
    /// The running hash matches the stack contents.
    pub open spec fn wf(self) -> bool {
        self.current == fold_hash(self.stack@)
    }

    /// The identity a leaf at ordinal `local` gets under path `s`.
    pub open spec fn spec_make_id(s: Seq<u64>, local: u64) -> u64 {
        fold_step(fold_hash(s), local)
    }

    /// An empty stack whose running hash is 0.
    pub fn new() -> (st: WidgetIdStack)
        ensures
            st.stack@ == Seq::<u64>::empty(),
            st.current == 0,
            st.wf(),
    {
        WidgetIdStack { stack: Vec::new(), current: 0 }
    }

    /// Appends `id` to the path and folds it into the running hash.
    pub fn push(&mut self, id: u64)
        ensures
            final(self).stack@ == old(self).stack@.push(id),
            final(self).current == fold_step(old(self).current, id),
            old(self).wf() ==> final(self).wf(),
    {
        self.stack.push(id);
        self.current = self.current.wrapping_mul(31).wrapping_add(id);
        proof {
            reveal(fold_step);
            if old(self).wf() {
                assert(self.stack@.drop_last() =~= old(self).stack@);
            }
        }
    }

    /// Removes the most recent id and recomputes the fold over the rest
    /// of the stack; on an empty stack it returns `None` and leaves the
    /// hash at 0.
    pub fn pop(&mut self) -> (r: Option<u64>)
        ensures
            r == (if old(self).stack@.len() > 0 {
                Some(old(self).stack@.last())
            } else {
                None::<u64>
            }),
            final(self).stack@ == (if old(self).stack@.len() > 0 {
                old(self).stack@.drop_last()
            } else {
                old(self).stack@
            }),
            final(self).wf(),
    {
        let id = self.stack.pop();
        let mut acc: u64 = 0;
        let n = self.stack.len();
        let mut i: usize = 0;
        while i < n
            invariant
                i <= n,
                n == self.stack@.len(),
                acc == fold_hash(self.stack@.take(i as int)),
            decreases n - i,
        {
            acc = acc.wrapping_mul(31).wrapping_add(self.stack[i]);
            proof {
                reveal(fold_step);
                assert(self.stack@.take(i + 1).drop_last() =~= self.stack@.take(i as int));
                assert(self.stack@.take(i + 1).last() == self.stack@[i as int]);
            }
            i += 1;
        }
        proof {
            assert(self.stack@.take(n as int) =~= self.stack@);
        }
        self.current = acc;
        id
    }

    /// The running hash of the whole current path.
    pub fn current_id(&self) -> (r: u64)
        ensures
            r == self.current,
    {
        self.current
    }

    /// The identity of a leaf at ordinal `local_id` under the current
    /// path, without mutating the stack.
    pub fn make_id(&self, local_id: u64) -> (r: u64)
        ensures
            r == fold_step(self.current, local_id),
            self.wf() ==> r == Self::spec_make_id(self.stack@, local_id),
    {
        proof {
            reveal(fold_step);
        }
        self.current.wrapping_mul(31).wrapping_add(local_id)
    }

    /// Clears the path at the start of a frame.
    pub fn reset(&mut self)
        ensures
            final(self).stack@ == Seq::<u64>::empty(),
            final(self).current == 0,
            final(self).wf(),
    {
        self.stack.clear();
        self.current = 0;
    }
}

/// Identity stability: the identity minted for a leaf depends only on the
/// path of enclosing ids and the local ordinal, so two stacks that went
/// through the same pushes — in the same frame or in different frames —
/// mint the same identity.
pub proof fn lemma_identity_stable(a: WidgetIdStack, b: WidgetIdStack, local: u64)
    requires
        a.wf(),
        b.wf(),
        a.stack@ == b.stack@,
    ensures
        fold_step(a.current, local) == fold_step(b.current, local),
        fold_step(a.current, local) == WidgetIdStack::spec_make_id(a.stack@, local),
{
}

/// Folding a path equals folding its prefix and continuing from there.
pub proof fn lemma_fold_hash_append(prefix: Seq<u64>, rest: Seq<u64>)
    ensures
        fold_hash(prefix + rest) == fold_hash_from(fold_hash(prefix), rest),
    decreases rest.len(),
{
    if rest.len() == 0 {
        assert(prefix + rest =~= prefix);
    } else {
        lemma_fold_hash_append(prefix, rest.drop_last());
        assert((prefix + rest).drop_last() =~= prefix + rest.drop_last());
        assert((prefix + rest).last() == rest.last());
    }
}

/// The running hash continued from `acc` over the ids of `s`.
pub open spec fn fold_hash_from(acc: u64, s: Seq<u64>) -> u64
    decreases s.len(),
{
    if s.len() == 0 {
        acc
    } else {
        fold_step(fold_hash_from(acc, s.drop_last()), s.last())
    }
}

/// Identity divergence: swapping the order of two sibling pushes changes
/// the path hash, and with it the identity of any leaf minted directly
/// under them — whatever the common prefix was.  The two sibling ids must
/// differ in more than their top bit: `a` and `a + 2^63` are the one
/// colliding pair of the `*31 + id` fold, because `30 * 2^63` is a
/// multiple of `2^64`.
#[verifier::rlimit(100)]
#[verifier::spinoff_prover]
pub proof fn lemma_identity_order_sensitive(prefix: Seq<u64>, a: u64, b: u64, local: u64)
    requires
        a != b,
        b != a ^ 0x8000_0000_0000_0000u64,
    ensures
        fold_hash(prefix + seq![a, b]) != fold_hash(prefix + seq![b, a]),
        WidgetIdStack::spec_make_id(prefix + seq![a, b], local) != WidgetIdStack::spec_make_id(
            prefix + seq![b, a],
            local,
        ),
{
    reveal_with_fuel(fold_hash_from, 3);
    let n = wrap_modulus();
    let h = fold_hash(prefix);
    lemma_fold_hash_append(prefix, seq![a, b]);
    lemma_fold_hash_append(prefix, seq![b, a]);
    assert(seq![a, b].drop_last() =~= seq![a]);
    assert(seq![b, a].drop_last() =~= seq![b]);
    assert(seq![a].drop_last() =~= Seq::<u64>::empty());
    assert(seq![b].drop_last() =~= Seq::<u64>::empty());
    let ha = fold_step(h, a);
    let hb = fold_step(h, b);
    let hab = fold_step(ha, b);
    let hba = fold_step(hb, a);
    assert(fold_hash(prefix + seq![a, b]) == hab);
    assert(fold_hash(prefix + seq![b, a]) == hba);
    lemma_fold_step_value(h, a);
    lemma_fold_step_value(h, b);
    lemma_fold_step_value(ha, b);
    lemma_fold_step_value(hb, a);
    lemma_swapped_siblings_differ(h, a, b, ha, hb, hab, hba);
    lemma_fold_step_injective(hab, hba, local);
}

/// The arithmetic core of sibling divergence: if the second fold levels
/// are built from swapped sibling ids, they differ, because their values
/// differ by `30 * (a - b)` modulo `2^64`.
proof fn lemma_swapped_siblings_differ(h: u64, a: u64, b: u64, ha: u64, hb: u64, hab: u64, hba: u64)
    requires
        a != b,
        b != a ^ 0x8000_0000_0000_0000u64,
        ha as int == (h * 31 + a) % wrap_modulus(),
        hb as int == (h * 31 + b) % wrap_modulus(),
        hab as int == (ha * 31 + b) % wrap_modulus(),
        hba as int == (hb * 31 + a) % wrap_modulus(),
    ensures
        hab != hba,
{
    assert(((ha * 31 + b) % 0x1_0000_0000_0000_0000 != (hb * 31 + a) % 0x1_0000_0000_0000_0000))
        by (bit_vector)
        requires
            a != b,
            b != a ^ 0x8000_0000_0000_0000u64,
            ha as int == (h * 31 + a) % 0x1_0000_0000_0000_0000,
            hb as int == (h * 31 + b) % 0x1_0000_0000_0000_0000,
    ;
}

/// Distinct local ordinals under the same path mint distinct leaf
/// identities: the fold only adds the ordinal, so two ordinals collide
/// only if they were equal modulo `2^64`.
pub proof fn lemma_fold_step_local_injective(acc: u64, a: u64, b: u64)
    requires
        a != b,
    ensures
        fold_step(acc, a) != fold_step(acc, b),
{
    lemma_fold_step_value(acc, a);
    lemma_fold_step_value(acc, b);
    assert((acc * 31 + a) % 0x1_0000_0000_0000_0000 != (acc * 31 + b)
        % 0x1_0000_0000_0000_0000) by (bit_vector)
        requires
            a != b,
    ;
}

/// Distinct path hashes mint distinct leaf identities for the same local
/// ordinal: multiplying by the odd constant 31 is injective modulo
/// `2^64`.
pub proof fn lemma_fold_step_injective(h1: u64, h2: u64, local: u64)
    requires
        h1 != h2,
    ensures
        fold_step(h1, local) != fold_step(h2, local),
{
    lemma_fold_step_value(h1, local);
    lemma_fold_step_value(h2, local);
    assert((h1 * 31 + local) % 0x1_0000_0000_0000_0000 != (h2 * 31 + local)
        % 0x1_0000_0000_0000_0000) by (bit_vector)
        requires
            h1 != h2,
    ;
}

} // verus!
