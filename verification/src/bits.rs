use vstd::prelude::*;

verus! {

/// The 32-bit word in which only the bit at `position` is set.
pub open spec fn bit32(position: u32) -> u32 {
    1u32 << position
}

/// The 8-bit word in which only the bit at `position` is set.
pub open spec fn bit8(position: u8) -> u8 {
    1u8 << position
}

/// The word in which exactly the bits at the listed positions are set.
pub open spec fn union32(positions: Seq<u32>) -> u32
    decreases positions.len(),
{
    if positions.len() == 0 {
        0
    } else {
        union32(positions.drop_last()) | bit32(positions.last())
    }
}

/// The byte in which exactly the bits at the listed positions are set.
pub open spec fn union8(positions: Seq<u8>) -> u8
    decreases positions.len(),
{
    if positions.len() == 0 {
        0
    } else {
        union8(positions.drop_last()) | bit8(positions.last())
    }
}

/// Two single bits meet exactly when they are the same bit.
pub proof fn lemma_bit32_distinct(p: u32, q: u32)
    by (bit_vector)
    requires
        p < 32,
        q < 32,
    ensures
        ((1u32 << p) & (1u32 << q) != 0) <==> p == q,
{
}

/// Two single bits meet exactly when they are the same bit.
pub proof fn lemma_bit8_distinct(p: u8, q: u8)
    by (bit_vector)
    requires
        p < 8,
        q < 8,
    ensures
        ((1u8 << p) & (1u8 << q) != 0) <==> p == q,
{
}

/// A mask meets the union of two words exactly when it meets one of them.
pub proof fn lemma_or_then_and32(x: u32, m: u32, k: u32)
    by (bit_vector)
    ensures
        ((x | m) & k != 0) <==> (x & k != 0 || m & k != 0),
        0u32 & k == 0,
{
}

/// A mask meets the union of two bytes exactly when it meets one of them.
pub proof fn lemma_or_then_and8(x: u8, m: u8, k: u8)
    by (bit_vector)
    ensures
        ((x | m) & k != 0) <==> (x & k != 0 || m & k != 0),
        0u8 & k == 0,
{
}

/// A bit is set in a union exactly when its position is listed.
pub proof fn lemma_union32_has(positions: Seq<u32>, p: u32)
    requires
        p < 32,
        forall|i: int| 0 <= i < positions.len() ==> positions[i] < 32,
    ensures
        (union32(positions) & bit32(p) != 0) <==> positions.contains(p),
    decreases positions.len(),
{
    if positions.len() == 0 {
        lemma_or_then_and32(0, 0, bit32(p));
    } else {
        let rest = positions.drop_last();
        let last = positions.last();
        lemma_union32_has(rest, p);
        lemma_or_then_and32(union32(rest), bit32(last), bit32(p));
        lemma_bit32_distinct(last, p);
        assert(positions.contains(p) <==> rest.contains(p) || last == p) by {
            if positions.contains(p) {
                let i = choose|i: int| 0 <= i < positions.len() && positions[i] == p;
                if i < rest.len() {
                    assert(rest[i] == p);
                }
            }
        }
    }
}

/// A bit is set in a union exactly when its position is listed.
pub proof fn lemma_union8_has(positions: Seq<u8>, p: u8)
    requires
        p < 8,
        forall|i: int| 0 <= i < positions.len() ==> positions[i] < 8,
    ensures
        (union8(positions) & bit8(p) != 0) <==> positions.contains(p),
    decreases positions.len(),
{
    if positions.len() == 0 {
        lemma_or_then_and8(0, 0, bit8(p));
    } else {
        let rest = positions.drop_last();
        let last = positions.last();
        lemma_union8_has(rest, p);
        lemma_or_then_and8(union8(rest), bit8(last), bit8(p));
        lemma_bit8_distinct(last, p);
        assert(positions.contains(p) <==> rest.contains(p) || last == p) by {
            if positions.contains(p) {
                let i = choose|i: int| 0 <= i < positions.len() && positions[i] == p;
                if i < rest.len() {
                    assert(rest[i] == p);
                }
            }
        }
    }
}

/// Listing one more position sets one more bit.
pub proof fn lemma_union32_step<B>(s: Seq<B>, f: spec_fn(B) -> u32, i: int)
    requires
        0 <= i < s.len(),
    ensures
        union32(s.take(i + 1).map_values(f)) == union32(s.take(i).map_values(f)) | bit32(f(s[i])),
{
    let next = s.take(i + 1).map_values(f);
    assert(next.drop_last() =~= s.take(i).map_values(f));
}

/// Listing one more position sets one more bit.
pub proof fn lemma_union8_step<B>(s: Seq<B>, f: spec_fn(B) -> u8, i: int)
    requires
        0 <= i < s.len(),
    ensures
        union8(s.take(i + 1).map_values(f)) == union8(s.take(i).map_values(f)) | bit8(f(s[i])),
{
    let next = s.take(i + 1).map_values(f);
    assert(next.drop_last() =~= s.take(i).map_values(f));
}

/// Under a one-to-one naming of positions, a position is listed exactly when
/// the item that names it is.
pub proof fn lemma_positions_contain<B, P>(s: Seq<B>, f: spec_fn(B) -> P, b: B)
    requires
        forall|x: B, y: B| #[trigger] f(x) == #[trigger] f(y) ==> x == y,
    ensures
        s.map_values(f).contains(f(b)) <==> s.contains(b),
{
    if s.contains(b) {
        let i = choose|i: int| 0 <= i < s.len() && s[i] == b;
        assert(s.map_values(f)[i] == f(b));
    }
}

} // verus!
