use vstd::prelude::*;

use crate::random::RandomDeterministic;
use crate::random::generator_output;
use crate::random::next_generator_state;

verus! {

/// Why a weighted draw was refused: a configuration defect in the table.
#[derive(Clone, Copy, Debug, PartialEq, Eq, Structural)]
pub enum TableError {
    /// The table holds no entry at all.
    EmptyTable,
    /// The table holds entries, but every weight is zero.
    ZeroTotalWeight,
}

/// Sum of the weights of a weighted table.
pub open spec fn total_weight<T>(table: Seq<(T, u64)>) -> int
    decreases table.len(),
{
    if table.len() == 0 {
        0
    } else {
        table[0].1 + total_weight(table.skip(1))
    }
}

/// A table a draw is allowed on: at least one entry, a positive weight sum,
/// and a sum a 64-bit accumulator can hold.
pub open spec fn valid_table<T>(table: Seq<(T, u64)>) -> bool {
    &&& table.len() > 0
    &&& 0 < total_weight(table)
    &&& total_weight(table) <= u64::MAX
}

/// Cumulative-weight selection: the value of the first entry whose cumulative
/// weight exceeds the draw `r`.
pub open spec fn pick_from<T>(table: Seq<(T, u64)>, r: int) -> T
    recommends
        table.len() > 0,
        0 <= r < total_weight(table),
    decreases table.len(),
{
    if table.len() <= 1 || r < table[0].1 {
        table[0].0
    } else {
        pick_from(table.skip(1), r - table[0].1)
    }
}

/// The value a weighted draw on `table` returns when the generator is in
/// state `s`: the generator's next output, reduced modulo the weight sum,
/// selects an entry by cumulative weight.
pub open spec fn draw_from<T>(table: Seq<(T, u64)>, s: u64) -> T
    recommends
        valid_table(table),
{
    pick_from(table, generator_output(s) as int % total_weight(table))
}

/// A weight sum is never negative.
pub proof fn lemma_total_weight_nonneg<T>(table: Seq<(T, u64)>)
    ensures
        total_weight(table) >= 0,
    decreases table.len(),
{
    if table.len() > 0 {
        lemma_total_weight_nonneg(table.skip(1));
    }
}

/// Weight accumulated by the first `i` entries of a table.
pub open spec fn cumulative_weight<T>(table: Seq<(T, u64)>, i: int) -> int {
    total_weight(table.take(i))
}

/// The cumulative weight grows by exactly one entry's weight per entry.
pub proof fn lemma_cumulative_weight_step<T>(table: Seq<(T, u64)>, i: int)
    requires
        0 <= i < table.len(),
    ensures
        cumulative_weight(table, i + 1) == cumulative_weight(table, i) + table[i].1,
    decreases i,
{
    if i == 0 {
        assert(table.take(0) =~= Seq::<(T, u64)>::empty());
        assert(table.take(1) =~= seq![table[0]]);
        assert(table.take(1).skip(1) =~= Seq::<(T, u64)>::empty());
    } else {
        lemma_cumulative_weight_step(table.skip(1), i - 1);
        assert(table.take(i + 1).skip(1) =~= table.skip(1).take(i));
        assert(table.take(i).skip(1) =~= table.skip(1).take(i - 1));
        assert(table.take(i + 1)[0] == table[0]);
        assert(table.take(i)[0] == table[0]);
        assert(table.skip(1)[i - 1] == table[i]);
    }
}

/// Weighted-selection correctness: entry `i` is returned exactly on the
/// draws inside its cumulative-weight window, so each entry is selected on
/// `table[i].1` of the `total_weight(table)` possible draw values — the
/// discrete content of "probability proportional to weight".
pub proof fn lemma_pick_window<T>(table: Seq<(T, u64)>, i: int, r: int)
    requires
        0 <= i < table.len(),
        cumulative_weight(table, i) <= r < cumulative_weight(table, i) + table[i].1,
    ensures
        pick_from(table, r) == table[i].0,
    decreases i,
{
    if i == 0 {
        assert(table.take(0) =~= Seq::<(T, u64)>::empty());
        assert(r < table[0].1);
    } else {
        assert(table.take(i)[0] == table[0]);
        assert(table.take(i).skip(1) =~= table.skip(1).take(i - 1));
        lemma_total_weight_nonneg(table.skip(1).take(i - 1));
        assert(cumulative_weight(table, i) == table[0].1 + cumulative_weight(
            table.skip(1),
            i - 1,
        ));
        assert(table.skip(1)[i - 1] == table[i]);
        lemma_pick_window(table.skip(1), i - 1, r - table[0].1);
    }
}

/// Weighted distribution of the selection rule: the windows of draw values
/// start at zero, sit back to back — each entry's window as wide as its
/// weight — and together tile `[0, total_weight)`; inside its window an
/// entry is the one selected. Over draws spread uniformly on the range,
/// entry `i` is therefore selected with frequency `table[i].1 /
/// total_weight(table)`.
pub proof fn lemma_weighted_distribution<T>(table: Seq<(T, u64)>, i: int)
    requires
        0 <= i < table.len(),
    ensures
        cumulative_weight(table, 0) == 0,
        cumulative_weight(table, i + 1) == cumulative_weight(table, i) + table[i].1,
        cumulative_weight(table, table.len() as int) == total_weight(table),
        forall|r: int|
            cumulative_weight(table, i) <= r < cumulative_weight(table, i) + table[i].1
                ==> pick_from(table, r) == table[i].0,
{
    assert(table.take(0) =~= Seq::<(T, u64)>::empty());
    assert(table.take(table.len() as int) =~= table);
    lemma_cumulative_weight_step(table, i);
    assert forall|r: int|
        cumulative_weight(table, i) <= r < cumulative_weight(table, i)
            + table[i].1 implies pick_from(table, r) == table[i].0 by {
        lemma_pick_window(table, i, r);
    }
}

/// Sum the weights of a table.
pub fn table_total_weight<T>(table: &Vec<(T, u64)>) -> (total: u64)
    requires
        total_weight(table@) <= u64::MAX,
    ensures
        total == total_weight(table@),
{
    let mut acc: u64 = 0;
    let mut i: usize = 0;
    proof {
        assert(table@.skip(0) =~= table@);
    }
    while i < table.len()
        invariant
            i <= table@.len(),
            total_weight(table@) <= u64::MAX,
            total_weight(table@) == acc + total_weight(table@.skip(i as int)),
        decreases table@.len() - i,
    {
        proof {
            assert(table@.skip(i as int)[0] == table@[i as int]);
            assert(table@.skip(i as int).skip(1) =~= table@.skip(i as int + 1));
            lemma_total_weight_nonneg(table@.skip(i as int + 1));
        }
        acc = acc + table[i].1;
        i = i + 1;
    }
    proof {
        assert(table@.skip(table@.len() as int) =~= Seq::<(T, u64)>::empty());
    }
    acc
}

/// Walk the table accumulating weight and return the value of the first
/// entry whose cumulative weight exceeds `r`.
pub fn pick_weighted<T: Copy>(table: &Vec<(T, u64)>, r: u64) -> (picked: T)
    requires
        table@.len() > 0,
        r < total_weight(table@),
    ensures
        picked == pick_from(table@, r as int),
{
    let n = table.len();
    let mut i: usize = 0;
    let mut remaining: u64 = r;
    proof {
        assert(table@.skip(0) =~= table@);
    }
    loop
        invariant
            table@.len() == n,
            i < n,
            remaining <= r,
            remaining < total_weight(table@.skip(i as int)),
            pick_from(table@, r as int) == pick_from(table@.skip(i as int), remaining as int),
        decreases table@.len() - i,
    {
        proof {
            assert(table@.skip(i as int)[0] == table@[i as int]);
            assert(table@.skip(i as int).skip(1) =~= table@.skip(i as int + 1));
        }
        let w = table[i].1;
        if remaining < w {
            return table[i].0;
        }
        proof {
            lemma_total_weight_nonneg(table@.skip(i as int + 1));
            assert(table@.skip(i as int).len() > 1);
        }
        remaining = remaining - w;
        i = i + 1;
    }
}

impl RandomDeterministic {
    /// Draw one value from a weighted table, each entry with probability
    /// proportional to its weight. The table must be well formed; the draw
    /// consumes exactly one unit of randomness whatever the table size.
    pub fn draw_weighted<T: Copy>(&mut self, table: &Vec<(T, u64)>) -> (picked: T)
        requires
            valid_table(table@),
        ensures
            picked == draw_from(table@, old(self)@),
            final(self)@ == next_generator_state(old(self)@),
    {
        let total = table_total_weight(table);
        let x = self.next_u64();
        let r = x % total;
        pick_weighted(table, r)
    }

    /// Draw one value from a weighted table, refusing a defective table
    /// instead of demanding a well-formed one. On a refused table the
    /// generator state is left untouched.
    pub fn try_draw_weighted<T: Copy>(&mut self, table: &Vec<(T, u64)>) -> (picked: Result<
        T,
        TableError,
    >)
        requires
            total_weight(table@) <= u64::MAX,
        ensures
            picked == (if table@.len() == 0 {
                Result::<T, TableError>::Err(TableError::EmptyTable)
            } else if total_weight(table@) <= 0 {
                Result::<T, TableError>::Err(TableError::ZeroTotalWeight)
            } else {
                Result::<T, TableError>::Ok(draw_from(table@, old(self)@))
            }),
            final(self)@ == (if valid_table(table@) {
                next_generator_state(old(self)@)
            } else {
                old(self)@
            }),
    {
        if table.len() == 0 {
            return Err(TableError::EmptyTable);
        }
        let total = table_total_weight(table);
        if total == 0 {
            return Err(TableError::ZeroTotalWeight);
        }
        Ok(self.draw_weighted(table))
    }
}

} // verus!
