//! Slide indices and the notification that announces one.

use crate::decimal::{decimal, to_decimal};
use vstd::prelude::*;

verus! {

/// The slide a request for `index` selects among `slide_count` slides.
pub open spec fn normalized(index: nat, slide_count: nat) -> nat {
    if slide_count == 0 {
        0
    } else {
        index % slide_count
    }
}

/// An index that names a slide is kept, any index is brought into range, and
/// indices a whole number of rounds apart select the same slide.
pub proof fn lemma_normalized_wraps(index: nat, slide_count: nat, rounds: nat)
    requires
        slide_count > 0,
    ensures
        normalized(index, slide_count) < slide_count,
        index < slide_count ==> normalized(index, slide_count) == index,
        normalized(index + rounds * slide_count, slide_count) == normalized(index, slide_count),
{
    vstd::arithmetic::div_mod::lemma_mod_multiples_vanish(
        rounds as int,
        index as int,
        slide_count as int,
    );
    assert(slide_count * rounds + index == index + rounds * slide_count) by (nonlinear_arith);
    if index < slide_count {
        vstd::arithmetic::div_mod::lemma_small_mod(index, slide_count);
    }
}

/// Reduces a requested index modulo the number of slides; with no slides at all
/// the index is 0.
pub fn normalize_index(index: usize, slide_count: usize) -> (slide: usize)
    ensures
        slide == normalized(index as nat, slide_count as nat),
        slide_count > 0 ==> slide < slide_count,
{
    if slide_count == 0 {
        0
    } else {
        index % slide_count
    }
}

/// The notification that sends viewers to slide `slide_index`: the index in
/// decimal and nothing else.
pub fn notification(slide_index: usize) -> (text: String)
    ensures
        text@ == decimal(slide_index as nat),
{
    to_decimal(slide_index)
}

} // verus!
