//! Channel-count support masks: bit `i` of a mask says whether a device can
//! run with `i + 1` interleaved channels (one to eight).

use vstd::prelude::*;

verus! {

/// Whether bit `k` of `mask` is set.
pub open spec fn bit_set(mask: u8, k: u8) -> bool {
    (mask >> k) & 1u8 == 1u8
}

/// Whether `mask` says that `count` channels are supported.
pub open spec fn spec_supports(mask: u8, count: int) -> bool {
    1 <= count <= 8 && bit_set(mask, (count - 1) as u8)
}

proof fn lemma_set_bit(m: u8, i: u8, k: u8)
    requires
        i < 8,
        k < 8,
    ensures
        bit_set(m | (1u8 << i), k) == (k == i || bit_set(m, k)),
{
    assert(((m | (1u8 << i)) >> k) & 1u8 == 1u8 <==> (k == i || (m >> k) & 1u8 == 1u8))
        by (bit_vector)
        requires
            i < 8,
            k < 8,
    ;
}

proof fn lemma_zero_bits(k: u8)
    requires
        k < 8,
    ensures
        !bit_set(0u8, k),
{
    assert((0u8 >> k) & 1u8 != 1u8) by (bit_vector);
}

proof fn lemma_and_shift(mask: u8, b: u8)
    requires
        b < 8,
    ensures
        (mask & (1u8 << b) != 0u8) == bit_set(mask, b),
{
    assert((mask & (1u8 << b) != 0u8) == ((mask >> b) & 1u8 == 1u8)) by (bit_vector)
        requires
            b < 8,
    ;
}

/// The mask of the channel counts whose test passed: `tests[i]` says whether
/// `i + 1` channels can be set on the device.
pub fn channel_mask(tests: &Vec<bool>) -> (mask: u8)
    requires
        tests@.len() <= 8,
    ensures
        forall|k: u8| k < 8 ==> bit_set(mask, k) == (k < tests@.len() && tests@[k as int]),
        forall|c: int| 1 <= c <= 8 ==> spec_supports(mask, c) == (c <= tests@.len() && tests@[c - 1]),
{
    let mut mask: u8 = 0;
    let mut i: usize = 0;
    proof {
        assert forall|k: u8| k < 8 implies !bit_set(mask, k) by {
            lemma_zero_bits(k);
        }
    }
    while i < tests.len()
        invariant
            tests@.len() <= 8,
            i <= tests@.len(),
            forall|k: u8| k < 8 ==> bit_set(mask, k) == (k < i && tests@[k as int]),
        decreases tests@.len() - i,
    {
        if tests[i] {
            let ghost old_mask = mask;
            let b = i as u8;
            mask = mask | (1u8 << b);
            proof {
                assert forall|k: u8| k < 8 implies bit_set(mask, k) == (k < i + 1
                    && tests@[k as int]) by {
                    lemma_set_bit(old_mask, b, k);
                }
            }
        }
        i = i + 1;
    }
    proof {
        assert forall|c: int| 1 <= c <= 8 implies spec_supports(mask, c) == (c <= tests@.len()
            && tests@[c - 1]) by {
            let k = (c - 1) as u8;
            assert(bit_set(mask, k) == (k < tests@.len() && tests@[k as int]));
        }
    }
    mask
}

/// Whether the device with the support mask `mask` can be configured for
/// `count` channels.
pub fn supports_channels(mask: u8, count: usize) -> (r: bool)
    requires
        1 <= count <= 8,
    ensures
        r == spec_supports(mask, count as int),
{
    let b = (count - 1) as u8;
    proof {
        lemma_and_shift(mask, b);
    }
    (mask & (1u8 << b)) != 0
}

/// A device supports exactly the channel counts whose test passed when it was
/// opened.
pub proof fn lemma_mask_records_tests(tests: Seq<bool>, mask: u8, count: int)
    requires
        tests.len() == 8,
        1 <= count <= 8,
        forall|k: u8| k < 8 ==> bit_set(mask, k) == (k < tests.len() && tests[k as int]),
    ensures
        spec_supports(mask, count) == tests[count - 1],
{
    assert(bit_set(mask, (count - 1) as u8) == tests[count - 1]);
}

} // verus!
