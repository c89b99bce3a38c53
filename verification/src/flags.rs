//! A packed flag field: what one toggle does to it, and what holds after any
//! run of toggles.

use vstd::prelude::*;

verus! {

/// The field after one toggle. Switching on joins the bits of `mask` to
/// `flags`; switching off removes them.
pub open spec fn with_flag(flags: u32, mask: u32, on: bool) -> u32 {
    if on {
        flags | mask
    } else {
        flags & !mask
    }
}

/// Whether bit number `index` of `flags` is set.
pub open spec fn has_bit(flags: u32, index: u32) -> bool {
    (flags >> index) & 1 == 1
}

/// The field after a run of toggles, each a mask and the value given for it,
/// applied from the first to the last.
pub open spec fn apply_calls(flags: u32, calls: Seq<(u32, bool)>) -> u32
    decreases calls.len(),
{
    if calls.len() == 0 {
        flags
    } else {
        with_flag(apply_calls(flags, calls.drop_last()), calls.last().0, calls.last().1)
    }
}

/// What a run of toggles makes of bit number `index`: the value given by the
/// last toggle whose mask holds that bit, or the bit of `flags` where no mask
/// holds it.
pub open spec fn bit_after(flags: u32, calls: Seq<(u32, bool)>, index: u32) -> bool
    decreases calls.len(),
{
    if calls.len() == 0 {
        has_bit(flags, index)
    } else if has_bit(calls.last().0, index) {
        calls.last().1
    } else {
        bit_after(flags, calls.drop_last(), index)
    }
}

/// All the bits that a run of toggles names, switched on or off.
pub open spec fn touched(calls: Seq<(u32, bool)>) -> u32
    decreases calls.len(),
{
    if calls.len() == 0 {
        0
    } else {
        touched(calls.drop_last()) | calls.last().0
    }
}

/// A toggle leaves its own bits all set or all clear, as asked.
pub proof fn lemma_toggle_own_bits(flags: u32, mask: u32, on: bool)
    ensures
        with_flag(flags, mask, on) & mask == (if on { mask } else { 0 }),
{
    assert((flags | mask) & mask == mask) by (bit_vector);
    assert((flags & !mask) & mask == 0) by (bit_vector);
}

/// A toggle changes no bit outside its mask.
pub proof fn lemma_toggle_keeps_others(flags: u32, mask: u32, on: bool, other: u32)
    requires
        mask & other == 0,
    ensures
        with_flag(flags, mask, on) & other == flags & other,
{
    assert((flags | mask) & other == flags & other) by (bit_vector)
        requires
            mask & other == 0,
    ;
    assert((flags & !mask) & other == flags & other) by (bit_vector)
        requires
            mask & other == 0,
    ;
}

/// Toggling twice with the same mask and value is the same as toggling once.
pub proof fn lemma_toggle_idempotent(flags: u32, mask: u32, on: bool)
    ensures
        with_flag(with_flag(flags, mask, on), mask, on) == with_flag(flags, mask, on),
{
    assert((flags | mask) | mask == flags | mask) by (bit_vector);
    assert((flags & !mask) & !mask == flags & !mask) by (bit_vector);
}

/// Two toggles give the same field in either order, when their masks share no
/// bit or when both are given the same value.
pub proof fn lemma_toggles_commute(flags: u32, a: u32, a_on: bool, b: u32, b_on: bool)
    requires
        a & b == 0 || a_on == b_on,
    ensures
        with_flag(with_flag(flags, a, a_on), b, b_on) == with_flag(
            with_flag(flags, b, b_on),
            a,
            a_on,
        ),
{
    assert((flags | a) | b == (flags | b) | a) by (bit_vector);
    assert((flags & !a) & !b == (flags & !b) & !a) by (bit_vector);
    assert(a & b == 0 ==> (flags | a) & !b == (flags & !b) | a) by (bit_vector);
    assert(a & b == 0 ==> (flags & !a) | b == (flags | b) & !a) by (bit_vector);
}

/// Switching on one mask and then another leaves the bits of both set.
pub proof fn lemma_two_flags_both_set(flags: u32, a: u32, b: u32)
    ensures
        with_flag(with_flag(flags, a, true), b, true) & (a | b) == a | b,
{
    assert(((flags | a) | b) & (a | b) == a | b) by (bit_vector);
}

/// After any run of toggles, each bit has the value that the last toggle
/// naming it gave, and a bit that no toggle named is as it was.
pub proof fn lemma_bit_after_calls(flags: u32, calls: Seq<(u32, bool)>, index: u32)
    requires
        index < 32,
    ensures
        has_bit(apply_calls(flags, calls), index) == bit_after(flags, calls, index),
    decreases calls.len(),
{
    if calls.len() > 0 {
        let before = apply_calls(flags, calls.drop_last());
        let mask = calls.last().0;
        lemma_bit_after_calls(flags, calls.drop_last(), index);
        assert(((before | mask) >> index) & 1 == 1 <==> ((mask >> index) & 1 == 1 || (before
            >> index) & 1 == 1)) by (bit_vector)
            requires
                index < 32,
        ;
        assert(((before & !mask) >> index) & 1 == 1 <==> ((mask >> index) & 1 != 1 && (before
            >> index) & 1 == 1)) by (bit_vector)
            requires
                index < 32,
        ;
    }
}

/// Two fields that agree on each of their 32 bits are equal.
proof fn lemma_equal_by_bits(a: u32, b: u32)
    requires
        forall|index: u32| index < 32 ==> has_bit(a, index) == has_bit(b, index),
    ensures
        a == b,
{
    assert forall|index: u32| index < 32 implies (((a ^ b) >> index) & 1 == 0) by {
        assert(has_bit(a, index) == has_bit(b, index));
        assert(((a >> index) & 1 == 1) == ((b >> index) & 1 == 1) ==> ((a ^ b) >> index) & 1
            == 0) by (bit_vector)
            requires
                index < 32,
        ;
    }
    let x = a ^ b;
    assert(x == 0) by {
        assert((x >> 0u32) & 1 == 0 && (x >> 1u32) & 1 == 0 && (x >> 2u32) & 1 == 0 && (x
            >> 3u32) & 1 == 0 && (x >> 4u32) & 1 == 0 && (x >> 5u32) & 1 == 0 && (x >> 6u32) & 1
            == 0 && (x >> 7u32) & 1 == 0);
        assert((x >> 8u32) & 1 == 0 && (x >> 9u32) & 1 == 0 && (x >> 10u32) & 1 == 0 && (x
            >> 11u32) & 1 == 0 && (x >> 12u32) & 1 == 0 && (x >> 13u32) & 1 == 0 && (x >> 14u32)
            & 1 == 0 && (x >> 15u32) & 1 == 0);
        assert((x >> 16u32) & 1 == 0 && (x >> 17u32) & 1 == 0 && (x >> 18u32) & 1 == 0 && (x
            >> 19u32) & 1 == 0 && (x >> 20u32) & 1 == 0 && (x >> 21u32) & 1 == 0 && (x >> 22u32)
            & 1 == 0 && (x >> 23u32) & 1 == 0);
        assert((x >> 24u32) & 1 == 0 && (x >> 25u32) & 1 == 0 && (x >> 26u32) & 1 == 0 && (x
            >> 27u32) & 1 == 0 && (x >> 28u32) & 1 == 0 && (x >> 29u32) & 1 == 0 && (x >> 30u32)
            & 1 == 0 && (x >> 31u32) & 1 == 0);
        assert(x == 0) by (bit_vector)
            requires
                (x >> 0u32) & 1 == 0 && (x >> 1u32) & 1 == 0 && (x >> 2u32) & 1 == 0 && (x
                    >> 3u32) & 1 == 0 && (x >> 4u32) & 1 == 0 && (x >> 5u32) & 1 == 0 && (x
                    >> 6u32) & 1 == 0 && (x >> 7u32) & 1 == 0,
                (x >> 8u32) & 1 == 0 && (x >> 9u32) & 1 == 0 && (x >> 10u32) & 1 == 0 && (x
                    >> 11u32) & 1 == 0 && (x >> 12u32) & 1 == 0 && (x >> 13u32) & 1 == 0 && (x
                    >> 14u32) & 1 == 0 && (x >> 15u32) & 1 == 0,
                (x >> 16u32) & 1 == 0 && (x >> 17u32) & 1 == 0 && (x >> 18u32) & 1 == 0 && (x
                    >> 19u32) & 1 == 0 && (x >> 20u32) & 1 == 0 && (x >> 21u32) & 1 == 0 && (x
                    >> 22u32) & 1 == 0 && (x >> 23u32) & 1 == 0,
                (x >> 24u32) & 1 == 0 && (x >> 25u32) & 1 == 0 && (x >> 26u32) & 1 == 0 && (x
                    >> 27u32) & 1 == 0 && (x >> 28u32) & 1 == 0 && (x >> 29u32) & 1 == 0 && (x
                    >> 30u32) & 1 == 0 && (x >> 31u32) & 1 == 0,
        ;
    }
    assert(a == b) by (bit_vector)
        requires
            a ^ b == 0,
    ;
}

/// The field after a run of toggles depends only on the value last given to
/// each bit: two runs that agree on that, whatever their order and whatever
/// else they hold, give the same field.
pub proof fn lemma_calls_order_independent(
    flags: u32,
    first: Seq<(u32, bool)>,
    second: Seq<(u32, bool)>,
)
    requires
        forall|index: u32|
            index < 32 ==> bit_after(flags, first, index) == bit_after(flags, second, index),
    ensures
        apply_calls(flags, first) == apply_calls(flags, second),
{
    let a = apply_calls(flags, first);
    let b = apply_calls(flags, second);
    assert forall|index: u32| index < 32 implies has_bit(a, index) == has_bit(b, index) by {
        lemma_bit_after_calls(flags, first, index);
        lemma_bit_after_calls(flags, second, index);
    }
    lemma_equal_by_bits(a, b);
}

/// A run of toggles keeps the bits of the starting field that it never names,
/// and sets the bits it names as it would on an empty field.
pub proof fn lemma_calls_on_any_start(flags: u32, calls: Seq<(u32, bool)>)
    ensures
        apply_calls(flags, calls) == (flags & !touched(calls)) | apply_calls(0, calls),
    decreases calls.len(),
{
    if calls.len() == 0 {
        assert(flags == (flags & !0u32) | 0u32) by (bit_vector);
    } else {
        let rest = calls.drop_last();
        lemma_calls_on_any_start(flags, rest);
        let t = touched(rest);
        let z = apply_calls(0, rest);
        let m = calls.last().0;
        assert(((flags & !t) | z) | m == (flags & !(t | m)) | (z | m)) by (bit_vector);
        assert(((flags & !t) | z) & !m == (flags & !(t | m)) | (z & !m)) by (bit_vector);
    }
}

/// Where every toggle of a run switches on, the field is the starting field
/// joined with every mask named: the OR of all the bits switched on.
pub proof fn lemma_calls_switching_on(flags: u32, calls: Seq<(u32, bool)>)
    requires
        forall|i: int| 0 <= i < calls.len() ==> (#[trigger] calls[i]).1,
    ensures
        apply_calls(flags, calls) == flags | touched(calls),
    decreases calls.len(),
{
    if calls.len() == 0 {
        assert(flags == flags | 0u32) by (bit_vector);
    } else {
        let rest = calls.drop_last();
        assert forall|i: int| 0 <= i < rest.len() implies (#[trigger] rest[i]).1 by {
            assert(rest[i] == calls[i]);
        }
        lemma_calls_switching_on(flags, rest);
        let t = touched(rest);
        let m = calls.last().0;
        assert(calls.last().1);
        assert((flags | t) | m == flags | (t | m)) by (bit_vector);
    }
}

} // verus!
