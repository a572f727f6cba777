//! Particle-crab background: which outline points become particles, and the seeded
//! pseudo-random sequence that scatters them.

use vstd::prelude::*;

use crate::chart::stepped_indices;

verus! {

/// Every other body point, then both eyes (the last two outline points).
pub open spec fn sampled_indices(point_count: nat) -> Seq<usize> {
    let eye_start: int = if point_count >= 2 { point_count - 2 } else { 0 };
    stepped_indices(0, eye_start, 2) + stepped_indices(eye_start, point_count as int, 1)
}

fn push_stepped(out: &mut Vec<usize>, start: usize, end: usize, step: usize)
    requires
        step >= 1,
    ensures
        final(out)@ == old(out)@ + stepped_indices(start as int, end as int, step as int),
{
    let ghost whole = old(out)@ + stepped_indices(start as int, end as int, step as int);
    let mut i = start;
    while i < end
        invariant
            step >= 1,
            whole == old(out)@ + stepped_indices(start as int, end as int, step as int),
            out@ + stepped_indices(i as int, end as int, step as int) == whole,
        decreases end - i,
    {
        assert(stepped_indices(i as int, end as int, step as int) == seq![i as usize]
            + stepped_indices(i + step, end as int, step as int));
        out.push(i);
        assert(out@ + stepped_indices(i + step, end as int, step as int) =~= whole);
        if end - i <= step {
            assert(stepped_indices(i + step, end as int, step as int) == Seq::<usize>::empty());
            assert(out@ =~= whole);
            return;
        }
        i = i + step;
    }
    assert(stepped_indices(i as int, end as int, step as int) == Seq::<usize>::empty());
    assert(out@ =~= whole);
}

/// Subsample body points; always keep both eyes.
pub fn sampled_crab_indices(point_count: usize) -> (out: Vec<usize>)
    ensures
        out@ == sampled_indices(point_count as nat),
{
    let last = point_count;
    let eye_start = last.saturating_sub(2);
    let mut out: Vec<usize> = Vec::new();
    push_stepped(&mut out, 0, eye_start, 2);
    push_stepped(&mut out, eye_start, last, 1);
    assert(out@ =~= sampled_indices(point_count as nat));
    out
}

/// One step of the background's linear congruential generator.
pub fn lcg_next(state: u32) -> (next: u32)
    ensures
        next == (state as int * 1664525 + 1013904223) % 0x1_0000_0000,
{
    let m = state.wrapping_mul(1664525);
    let r = m.wrapping_add(1013904223);
    let ghost x = state as int * 1664525;
    assert(m == x % 0x1_0000_0000);
    assert(r == (m as int + 1013904223) % 0x1_0000_0000);
    assert((x % 0x1_0000_0000 + 1013904223) % 0x1_0000_0000 == (x + 1013904223) % 0x1_0000_0000)
        by (nonlinear_arith);
    r
}

/// The top 24 bits of a generator state (the numerator of a uniform draw in `[0, 1)`).
pub fn lcg_bits(state: u32) -> (bits: u32)
    ensures
        bits == state / 256,
{
    let b = state >> 8;
    assert(state >> 8 == state / 256) by (bit_vector);
    b
}

} // verus!
