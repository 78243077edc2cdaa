//! The lookup table of a custom cam.
//!
//! A cam whose profile has no closed form is sampled once, at equal steps of
//! the full turn, into a table.  A displacement is then read by linear
//! interpolation between the two entries that enclose the angle.  The table
//! is a ring: after its last entry comes its first.

use vstd::prelude::*;

verus! {

/// Whether `table` holds, for each index below `samples`, a value that
/// `profile` may return for that index.
pub open spec fn tabulated_by<V, F: Fn(usize) -> V>(table: Seq<V>, samples: usize, profile: F) -> bool {
    &&& table.len() == samples
    &&& forall|i: int|
        0 <= i < samples ==> call_ensures(profile, (i as usize,), #[trigger] table[i])
}

/// Samples a profile into a table of `samples` entries: entry `i` is the
/// value of the profile at step `i` of `samples` steps around the turn.
pub fn tabulate<V, F: Fn(usize) -> V>(samples: usize, profile: &F) -> (table: Vec<V>)
    requires
        forall|i: usize| i < samples ==> call_requires(*profile, (i,)),
    ensures
        tabulated_by(table@, samples, *profile),
{
    let mut table: Vec<V> = Vec::new();
    let mut index: usize = 0;
    while index < samples
        invariant
            index <= samples,
            table@.len() == index,
            forall|i: usize| i < samples ==> call_requires(*profile, (i,)),
            forall|i: int|
                0 <= i < index ==> call_ensures(*profile, (i as usize,), #[trigger] table@[i]),
        decreases samples - index,
    {
        let value: V = profile(index);
        table.push(value);
        index = index + 1;
    }
    table
}

/// The two entries between which a displacement is interpolated, where
/// `whole` is the whole part of the angle counted in table steps: the entry
/// at `whole`, wrapped into the table, and its successor on the ring.
pub open spec fn cell_of(whole: nat, samples: nat) -> (nat, nat)
    recommends
        samples > 0,
{
    (whole % samples, (whole % samples + 1) % samples)
}

/// The table repeats with every full turn: an angle that lies `turns` full
/// turns further on is read from the same two entries.
pub proof fn lemma_table_is_periodic(whole: nat, samples: nat, turns: nat)
    requires
        samples > 0,
    ensures
        cell_of(whole + turns * samples, samples) == cell_of(whole, samples),
{
    vstd::arithmetic::div_mod::lemma_mod_multiples_vanish(
        turns as int,
        whole as int,
        samples as int,
    );
    assert(samples * turns + whole == whole + turns * samples) by (nonlinear_arith);
}

/// The two entries between which a displacement is interpolated.
pub fn table_cell(whole: usize, samples: usize) -> (cell: (usize, usize))
    requires
        samples > 0,
    ensures
        cell.0 == cell_of(whole as nat, samples as nat).0,
        cell.1 == cell_of(whole as nat, samples as nat).1,
        cell.0 < samples,
        cell.1 < samples,
        cell.1 == (if cell.0 + 1 == samples {
            0
        } else {
            cell.0 + 1
        }),
{
    let index: usize = whole % samples;
    let next: usize = if index + 1 == samples {
        0
    } else {
        index + 1
    };
    proof {
        if index + 1 == samples {
            assert((index + 1) as int % samples as int == 0) by (nonlinear_arith)
                requires
                    index + 1 == samples,
                    samples > 0,
            ;
        } else {
            vstd::arithmetic::div_mod::lemma_small_mod((index + 1) as nat, samples as nat);
        }
    }
    (index, next)
}

} // verus!
