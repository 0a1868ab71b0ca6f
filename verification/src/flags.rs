//! Bit flags packed into a 16-bit word.
//!
//! A set of flags is an ordered list of values, each with a mask. Decoding a
//! word keeps the flags whose mask meets the word, in the order of the list.

use vstd::prelude::*;

verus! {

/// A flag that owns some bits of a 16-bit word.
pub trait BitFlag: Copy {
    /// The bits of the word that stand for this flag.
    spec fn mask_of(self) -> u16;

    /// The bits of the word that stand for this flag.
    fn mask(self) -> (m: u16)
        ensures
            m == self.mask_of(),
    ;
}

/// True when `value` has a bit of `flag`.
pub open spec fn is_set<F: BitFlag>(value: u16, flag: F) -> bool {
    value & flag.mask_of() != 0
}

/// The flags of `all` that are set in `value`, in the order of `all`.
pub open spec fn flags_of<F: BitFlag>(value: u16, all: Seq<F>) -> Seq<F> {
    all.filter(|flag: F| is_set(value, flag))
}

/// The word with the bits of every flag of `chosen`.
pub open spec fn compose<F: BitFlag>(chosen: Seq<F>) -> u16
    decreases chosen.len(),
{
    if chosen.len() == 0 {
        0
    } else {
        compose(chosen.drop_last()) | chosen.last().mask_of()
    }
}

/// True when two flags share a bit only if they are the same flag.
pub open spec fn independent<F: BitFlag>() -> bool {
    forall|a: F, b: F| (#[trigger] a.mask_of() & #[trigger] b.mask_of() != 0) <==> a == b
}

/// Keeps the flags of `all` that are set in `value`, in the order of `all`.
pub fn decode_flags<F: BitFlag>(value: u16, all: &[F]) -> (out: Vec<F>)
    ensures
        out@ == flags_of(value, all@),
{
    let mut out: Vec<F> = Vec::new();
    let mut i: usize = 0;
    while i < all.len()
        invariant
            i <= all@.len(),
            out@ == flags_of(value, all@.take(i as int)),
        decreases all@.len() - i,
    {
        let flag = all[i];
        proof {
            let pred = |flag: F| is_set(value, flag);
            all@.take(i as int).lemma_filter_push(flag, pred);
            assert(all@.take(i as int).push(flag) =~= all@.take(i + 1));
        }
        if value & flag.mask() != 0 {
            out.push(flag);
        }
        i += 1;
    }
    proof {
        assert(all@.take(i as int) =~= all@);
    }
    out
}

/// The decoded flags are the flags of the list that are set in the word, no
/// more and no fewer.
pub proof fn lemma_flags_of_contains<F: BitFlag>(value: u16, all: Seq<F>, flag: F)
    ensures
        flags_of(value, all).contains(flag) <==> all.contains(flag) && is_set(value, flag),
{
    let pred = |flag: F| is_set(value, flag);
    if flags_of(value, all).contains(flag) {
        let i = choose|i: int| 0 <= i < all.filter(pred).len() && all.filter(pred)[i] == flag;
        all.lemma_filter_pred(pred, i);
        all.lemma_filter_contains_rev(pred, flag);
    }
    if all.contains(flag) && is_set(value, flag) {
        let i = choose|i: int| 0 <= i < all.len() && all[i] == flag;
        all.lemma_filter_contains(pred, i);
    }
}

/// A flag is set in a composed word exactly when it was among the chosen.
pub proof fn lemma_compose_is_set<F: BitFlag>(chosen: Seq<F>, flag: F)
    requires
        independent::<F>(),
    ensures
        is_set(compose(chosen), flag) <==> chosen.contains(flag),
    decreases chosen.len(),
{
    let m = flag.mask_of();
    if chosen.len() == 0 {
        assert(0u16 & m == 0) by (bit_vector);
    } else {
        let head = chosen.drop_last();
        let last = chosen.last();
        let a = compose(head);
        let b = last.mask_of();
        lemma_compose_is_set(head, flag);
        assert(((a | b) & m != 0) <==> (a & m != 0 || b & m != 0)) by (bit_vector);
        assert((b & m != 0) <==> last == flag);
        if chosen.contains(flag) {
            let i = choose|i: int| 0 <= i < chosen.len() && chosen[i] == flag;
            if i < chosen.len() - 1 {
                assert(head[i] == flag);
            }
        }
        if head.contains(flag) {
            let i = choose|i: int| 0 <= i < head.len() && head[i] == flag;
            assert(chosen[i] == flag);
        }
    }
}

/// Decoding inverts composition: the word composed from any choice of flags,
/// in any order and with repeats, decodes to exactly the chosen flags, in the
/// order of `all`.
pub proof fn lemma_decode_inverts_compose<F: BitFlag>(all: Seq<F>, chosen: Seq<F>)
    requires
        independent::<F>(),
    ensures
        flags_of(compose(chosen), all) == all.filter(|flag: F| chosen.contains(flag)),
{
    let value = compose(chosen);
    let set = |flag: F| is_set(value, flag);
    let picked = |flag: F| chosen.contains(flag);
    assert forall|flag: F| #[trigger] set(flag) == picked(flag) by {
        lemma_compose_is_set(chosen, flag);
    }
    assert(set =~= picked);
}

} // verus!
