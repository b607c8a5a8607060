//! The cycle counter and the six indicator outputs it drives.
//!
//! Each sampling cycle advances a 16-bit wrapping counter by one and sets
//! each of six indicators from one counter bit, bits 2 through 7: a binary
//! counting pattern in which indicator k toggles at half the frequency of
//! indicator k-1. The pattern is a liveness signal, not a status display.

use vstd::arithmetic::div_mod::{lemma_add_mod_noop_right, lemma_small_mod};
use vstd::prelude::*;

verus! {

/// Number of indicator outputs.
pub const INDICATOR_COUNT: usize = 6;

/// Mask of the counter bit that drives indicator k: bit k + 2.
pub open spec fn indicator_mask(k: int) -> u16 {
    if k == 0 {
        0x0004
    } else if k == 1 {
        0x0008
    } else if k == 2 {
        0x0010
    } else if k == 3 {
        0x0020
    } else if k == 4 {
        0x0040
    } else {
        0x0080
    }
}

/// Whether indicator k is on for counter value c: bit k + 2 of c is set.
pub open spec fn indicator_on(c: u16, k: int) -> bool {
    c & indicator_mask(k) != 0
}

/// The counter after one cycle: incremented by one, wrapping at 2^16.
pub open spec fn next_counter(c: u16) -> u16 {
    if c == 0xFFFF {
        0
    } else {
        (c + 1) as u16
    }
}

/// The counter after n cycles.
pub open spec fn counter_after(c: u16, n: nat) -> u16
    decreases n,
{
    if n == 0 {
        c
    } else {
        next_counter(counter_after(c, (n - 1) as nat))
    }
}

/// Advances the cycle counter by one, wrapping at 2^16.
pub fn advance_counter(c: u16) -> (n: u16)
    ensures
        n == next_counter(c),
{
    if c == 0xFFFF {
        0
    } else {
        c + 1
    }
}

/// Computes the six indicator levels for a counter value, indicator k at
/// index k.
pub fn indicator_states(c: u16) -> (leds: Vec<bool>)
    ensures
        leds@.len() == INDICATOR_COUNT,
        forall|k: int| 0 <= k < INDICATOR_COUNT ==> leds@[k] == indicator_on(c, k),
{
    let mut leds: Vec<bool> = Vec::new();
    leds.push(c & 0x0004 != 0);
    leds.push(c & 0x0008 != 0);
    leds.push(c & 0x0010 != 0);
    leds.push(c & 0x0020 != 0);
    leds.push(c & 0x0040 != 0);
    leds.push(c & 0x0080 != 0);
    leds
}

/// After n cycles the counter holds its start plus n, modulo 2^16.
pub proof fn lemma_counter_after(c: u16, n: nat)
    ensures
        counter_after(c, n) == (c + n) % 0x10000,
    decreases n,
{
    if n == 0 {
        lemma_small_mod(c as nat, 0x10000);
    } else {
        lemma_counter_after(c, (n - 1) as nat);
        let prev = counter_after(c, (n - 1) as nat);
        lemma_add_mod_noop_right(1, c + n - 1, 0x10000);
        assert((1 + prev) % 0x10000 == (c + n) % 0x10000);
        if prev == 0xFFFF {
            assert(next_counter(prev) == (c + n) % 0x10000);
        } else {
            lemma_small_mod((prev + 1) as nat, 0x10000);
        }
    }
}

/// Indicator rotation law, static half: indicator k is on exactly when bit
/// k + 2 of the counter is set.
pub proof fn lemma_indicator_bit(c: u16, k: int)
    requires
        0 <= k < INDICATOR_COUNT,
    ensures
        indicator_on(c, k) <==> ((c >> ((k + 2) as u16)) & 1) == 1,
{
    if k == 0 {
        assert((c & 0x0004u16 != 0) <==> ((c >> 2u16) & 1) == 1) by (bit_vector);
    } else if k == 1 {
        assert((c & 0x0008u16 != 0) <==> ((c >> 3u16) & 1) == 1) by (bit_vector);
    } else if k == 2 {
        assert((c & 0x0010u16 != 0) <==> ((c >> 4u16) & 1) == 1) by (bit_vector);
    } else if k == 3 {
        assert((c & 0x0020u16 != 0) <==> ((c >> 5u16) & 1) == 1) by (bit_vector);
    } else if k == 4 {
        assert((c & 0x0040u16 != 0) <==> ((c >> 6u16) & 1) == 1) by (bit_vector);
    } else {
        assert((c & 0x0080u16 != 0) <==> ((c >> 7u16) & 1) == 1) by (bit_vector);
    }
}

/// Indicator rotation law, dynamic half: from any counter value, indicator
/// k inverts after 2^(k+2) cycles and is back to its value after 2^(k+3)
/// cycles — each indicator toggles at exactly half the frequency of the one
/// before it.
pub proof fn lemma_indicator_half_frequency(c: u16, k: int)
    requires
        0 <= k < INDICATOR_COUNT,
    ensures
        indicator_on(counter_after(c, indicator_mask(k) as nat), k) == !indicator_on(c, k),
        indicator_on(counter_after(c, 2 * indicator_mask(k) as nat), k) == indicator_on(c, k),
{
    let m = indicator_mask(k);
    lemma_counter_after(c, m as nat);
    lemma_counter_after(c, 2 * m as nat);
    let c1 = counter_after(c, m as nat);
    let c2 = counter_after(c, 2 * m as nat);
    if k == 0 {
        assert(((c1 & 0x0004u16 != 0) == !(c & 0x0004u16 != 0)) && ((c2 & 0x0004u16 != 0) == (c
            & 0x0004u16 != 0))) by (bit_vector)
            requires
                c1 == (c + 0x0004) % 0x10000 && c2 == (c + 0x0008) % 0x10000,
        ;
    } else if k == 1 {
        assert(((c1 & 0x0008u16 != 0) == !(c & 0x0008u16 != 0)) && ((c2 & 0x0008u16 != 0) == (c
            & 0x0008u16 != 0))) by (bit_vector)
            requires
                c1 == (c + 0x0008) % 0x10000 && c2 == (c + 0x0010) % 0x10000,
        ;
    } else if k == 2 {
        assert(((c1 & 0x0010u16 != 0) == !(c & 0x0010u16 != 0)) && ((c2 & 0x0010u16 != 0) == (c
            & 0x0010u16 != 0))) by (bit_vector)
            requires
                c1 == (c + 0x0010) % 0x10000 && c2 == (c + 0x0020) % 0x10000,
        ;
    } else if k == 3 {
        assert(((c1 & 0x0020u16 != 0) == !(c & 0x0020u16 != 0)) && ((c2 & 0x0020u16 != 0) == (c
            & 0x0020u16 != 0))) by (bit_vector)
            requires
                c1 == (c + 0x0020) % 0x10000 && c2 == (c + 0x0040) % 0x10000,
        ;
    } else if k == 4 {
        assert(((c1 & 0x0040u16 != 0) == !(c & 0x0040u16 != 0)) && ((c2 & 0x0040u16 != 0) == (c
            & 0x0040u16 != 0))) by (bit_vector)
            requires
                c1 == (c + 0x0040) % 0x10000 && c2 == (c + 0x0080) % 0x10000,
        ;
    } else {
        assert(((c1 & 0x0080u16 != 0) == !(c & 0x0080u16 != 0)) && ((c2 & 0x0080u16 != 0) == (c
            & 0x0080u16 != 0))) by (bit_vector)
            requires
                c1 == (c + 0x0080) % 0x10000 && c2 == (c + 0x0100) % 0x10000,
        ;
    }
}

} // verus!
