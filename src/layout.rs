use vstd::arithmetic::div_mod::lemma_fundamental_div_mod_converse;
use vstd::prelude::*;

use crate::color::Color;
use crate::keys::NUM_KEYS;

verus! {

/// Length of the device-layout buffer.
pub const LAYOUT_LEN: usize = 444;

/// Keys are grouped in blocks of twelve (two physical columns). Within a block
/// the twelve red values come first, then the green ones, then the blue ones,
/// so each block takes 36 bytes. This is where key `i`'s red value goes.
pub open spec fn key_offset(i: int) -> int {
    (i / 12) * 36 + i % 12
}

/// The key whose channel is stored at position `p` of the layout.
pub open spec fn key_at(p: int) -> int {
    (p / 36) * 12 + p % 12
}

/// The channel (0 red, 1 green, 2 blue) stored at position `p` of the layout.
pub open spec fn channel_at(p: int) -> int {
    (p % 36) / 12
}

pub open spec fn channel(c: Color, ch: int) -> u8 {
    if ch == 0 {
        c.r
    } else if ch == 1 {
        c.g
    } else {
        c.b
    }
}

/// The byte at position `p` of the layout of `map`: the last twelve
/// positions belong to no key and stay zero.
pub open spec fn layout_byte(map: Seq<Color>, p: int) -> u8 {
    if p < 432 {
        channel(map[key_at(p)], channel_at(p))
    } else {
        0
    }
}

/// The device-layout buffer of a colour map.
pub open spec fn layout_of(map: Seq<Color>) -> Seq<u8> {
    Seq::new(444, |p: int| layout_byte(map, p))
}

/// Channel `c` of key `i` lies at `key_offset(i) + 12 * c`, and nowhere else.
pub proof fn lemma_offset_inverse(i: int, c: int)
    requires
        0 <= i < 144,
        0 <= c < 3,
    ensures
        0 <= key_offset(i) + 12 * c < 432,
        key_at(key_offset(i) + 12 * c) == i,
        channel_at(key_offset(i) + 12 * c) == c,
{
    let q = i / 12;
    let w = i % 12;
    let p = key_offset(i) + 12 * c;
    lemma_fundamental_div_mod_converse(p, 36, q, 12 * c + w);
    lemma_fundamental_div_mod_converse(p, 12, 3 * q + c, w);
    lemma_fundamental_div_mod_converse(12 * c + w, 12, c, w);
}

/// Each of the first 432 positions holds one channel of one key.
pub proof fn lemma_position_decompose(p: int)
    requires
        0 <= p < 432,
    ensures
        0 <= key_at(p) < 144,
        0 <= channel_at(p) < 3,
        p == key_offset(key_at(p)) + 12 * channel_at(p),
{
    let q = p / 36;
    let r = p % 36;
    let c = r / 12;
    let w = r % 12;
    lemma_fundamental_div_mod_converse(p, 12, 3 * q + c, w);
    let k = 12 * q + w;
    lemma_fundamental_div_mod_converse(k, 12, q, w);
}

/// Where key `i`'s red value goes in the device layout.
pub fn offset_of_key(i: usize) -> (r: usize)
    requires
        i < NUM_KEYS,
    ensures
        r as int == key_offset(i as int),
        r + 24 < LAYOUT_LEN,
{
    proof {
        lemma_offset_inverse(i as int, 2);
    }
    (i / 12) * 36 + i % 12
}

/// Lays out the colours of all keys in the order the device reads them.
pub fn encode_layout(map: &[Color; 144]) -> (r: [u8; 444])
    ensures
        r@ == layout_of(map@),
{
    let mut hw: [u8; 444] = [0; 444];
    let mut i: usize = 0;
    while i < NUM_KEYS
        invariant
            i <= NUM_KEYS,
            forall|p: int|
                0 <= p < 444 ==> #[trigger] hw@[p] == if p < 432 && key_at(p) < i {
                    layout_byte(map@, p)
                } else {
                    0u8
                },
        decreases NUM_KEYS - i,
    {
        let offset = offset_of_key(i);
        let color = map[i];
        let ghost before = hw@;
        hw[offset] = color.r;
        hw[offset + 12] = color.g;
        hw[offset + 24] = color.b;
        proof {
            lemma_offset_inverse(i as int, 0);
            lemma_offset_inverse(i as int, 1);
            lemma_offset_inverse(i as int, 2);
            assert forall|p: int| 0 <= p < 444 implies #[trigger] hw@[p] == if p < 432 && key_at(p)
                < i + 1 {
                layout_byte(map@, p)
            } else {
                0u8
            } by {
                if p < 432 {
                    lemma_position_decompose(p);
                }
            }
        }
        i = i + 1;
    }
    assert(hw@ =~= layout_of(map@));
    hw
}

} // verus!
