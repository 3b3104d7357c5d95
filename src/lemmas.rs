use vstd::prelude::*;

use crate::color::Color;
use crate::layout::{
    channel, channel_at, key_at, key_offset, layout_of, lemma_offset_inverse,
    lemma_position_decompose,
};
use crate::map::{assigned, blank_map, Target};

verus! {

/// Channel `ch` of key `i` of `map` lies at `key_offset(i) + 12 * ch` of its layout.
pub proof fn lemma_key_bytes(map: Seq<Color>, i: int, ch: int)
    requires
        map.len() == 144,
        0 <= i < 144,
        0 <= ch < 3,
    ensures
        layout_of(map)[key_offset(i) + 12 * ch] == channel(map[i], ch),
{
    lemma_offset_inverse(i, ch);
}

/// Colouring one key of a blank map and encoding it puts that key's red,
/// green and blue at its offset, 12 and 24 bytes further, and zero everywhere
/// else in the layout.
pub proof fn lemma_single_key_layout(i: int, c: Color)
    requires
        0 <= i < 144,
    ensures
        ({
            let m = assigned(blank_map(), Target::Key(i as usize), c)->Some_0;
            &&& layout_of(m)[key_offset(i)] == c.r
            &&& layout_of(m)[key_offset(i) + 12] == c.g
            &&& layout_of(m)[key_offset(i) + 24] == c.b
            &&& forall|p: int|
                0 <= p < 444 && p != key_offset(i) && p != key_offset(i) + 12 && p != key_offset(i)
                    + 24 ==> #[trigger] layout_of(m)[p] == 0
        }),
{
    let m = assigned(blank_map(), Target::Key(i as usize), c)->Some_0;
    lemma_key_bytes(m, i, 0);
    lemma_key_bytes(m, i, 1);
    lemma_key_bytes(m, i, 2);
    assert forall|p: int|
        0 <= p < 444 && p != key_offset(i) && p != key_offset(i) + 12 && p != key_offset(i)
            + 24 implies #[trigger] layout_of(m)[p] == 0 by {
        if p < 432 {
            lemma_position_decompose(p);
            if key_at(p) == i {
                assert(p == key_offset(i) + 12 * channel_at(p));
            }
        }
    }
}

/// After colouring every key with `c`, each key's three channel bytes in the
/// layout are those of `c`; colouring key `k` with `c2` afterwards changes
/// key `k`'s three bytes to `c2` and leaves every other byte as it was.
pub proof fn lemma_all_then_key(map: Seq<Color>, c: Color, k: int, c2: Color)
    requires
        map.len() == 144,
        0 <= k < 144,
    ensures
        ({
            let all = assigned(map, Target::All, c)->Some_0;
            let after = assigned(all, Target::Key(k as usize), c2)->Some_0;
            &&& forall|i: int, ch: int|
                0 <= i < 144 && 0 <= ch < 3 ==> #[trigger] layout_of(all)[key_offset(i) + 12 * ch]
                    == channel(c, ch)
            &&& forall|ch: int|
                0 <= ch < 3 ==> #[trigger] layout_of(after)[key_offset(k) + 12 * ch] == channel(
                    c2,
                    ch,
                )
            &&& forall|p: int|
                0 <= p < 444 && p != key_offset(k) && p != key_offset(k) + 12 && p != key_offset(k)
                    + 24 ==> #[trigger] layout_of(after)[p] == layout_of(all)[p]
        }),
{
    let all = assigned(map, Target::All, c)->Some_0;
    let after = assigned(all, Target::Key(k as usize), c2)->Some_0;
    assert forall|i: int, ch: int| 0 <= i < 144 && 0 <= ch < 3 implies #[trigger] layout_of(
        all,
    )[key_offset(i) + 12 * ch] == channel(c, ch) by {
        lemma_key_bytes(all, i, ch);
    }
    assert forall|ch: int| 0 <= ch < 3 implies #[trigger] layout_of(after)[key_offset(k) + 12 * ch]
        == channel(c2, ch) by {
        lemma_key_bytes(after, k, ch);
    }
    assert forall|p: int|
        0 <= p < 444 && p != key_offset(k) && p != key_offset(k) + 12 && p != key_offset(k)
            + 24 implies #[trigger] layout_of(after)[p] == layout_of(all)[p] by {
        if p < 432 {
            lemma_position_decompose(p);
            if key_at(p) == k {
                assert(p == key_offset(k) + 12 * channel_at(p));
            }
        }
    }
}

} // verus!
