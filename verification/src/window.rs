//! Pagination over a columnar source: how many batches a source has, which
//! rows each of them holds, and where the cursor may move.

use vstd::arithmetic::div_mod::lemma_fundamental_div_mod;
use vstd::arithmetic::div_mod::lemma_fundamental_div_mod_converse;
use vstd::arithmetic::mul::lemma_mul_inequality;
use vstd::arithmetic::mul::lemma_mul_is_commutative;
use vstd::arithmetic::mul::lemma_mul_is_distributive_add;
use vstd::prelude::*;

verus! {

/// The number of batches of `size` rows that hold `total` rows: the quotient
/// rounded up.
pub open spec fn ceil_div(total: nat, size: nat) -> nat
    recommends
        size >= 1,
{
    ((total + size - 1) / (size as int)) as nat
}

/// The index of the first source row in batch `n`.
pub open spec fn batch_start(size: nat, n: nat) -> nat {
    n * size
}

/// The index one past the last source row in batch `n`: a batch is full
/// unless the source ends inside it.
pub open spec fn batch_end(total: nat, size: nat, n: nat) -> nat {
    if (n + 1) * size <= total {
        (n + 1) * size
    } else {
        total
    }
}

/// The number of rows in batch `n`.
pub open spec fn batch_len(total: nat, size: nat, n: nat) -> nat {
    (batch_end(total, size, n) - batch_start(size, n)) as nat
}

/// `ceil_div(total, size)` is the least count of batches that covers
/// `total` rows: that many batches hold all rows, and one batch fewer
/// does not.
pub proof fn lemma_ceil_div_is_ceiling(total: nat, size: nat)
    requires
        size >= 1,
    ensures
        ceil_div(total, size) * size >= total,
        total > 0 ==> ceil_div(total, size) >= 1 && (ceil_div(total, size) - 1) * size < total,
        total == 0 ==> ceil_div(total, size) == 0,
{
    let x = total + size - 1;
    let d = size as int;
    let q = x / d;
    let r = x % d;
    lemma_fundamental_div_mod(x, d);
    assert(x == d * q + r);
    assert(0 <= r < d);
    lemma_mul_is_commutative(d, q);
    assert(q * d == x - r);
    if total == 0 {
        lemma_fundamental_div_mod_converse(x, d, 0, x);
    } else {
        assert(q >= 1) by {
            if q <= 0 {
                lemma_mul_inequality(q, 0, d);
            }
        }
        assert((q - 1) * d == q * d - d) by {
            lemma_mul_is_distributive_add(d, q, -1);
            lemma_mul_is_commutative(d, q - 1);
        }
    }
}

/// Every batch below the count starts inside the source, and the batches
/// tile it: each starts where the one before ended, the last ends at the
/// last row, and none is empty or longer than the batch size.
pub proof fn lemma_batches_tile(total: nat, size: nat, n: nat)
    requires
        size >= 1,
        n < ceil_div(total, size),
    ensures
        batch_start(size, n) < total,
        batch_start(size, n) < batch_end(total, size, n) <= total,
        1 <= batch_len(total, size, n) <= size,
        n + 1 < ceil_div(total, size) ==> batch_end(total, size, n) == batch_start(
            size,
            n + 1,
        ) && batch_len(total, size, n) == size,
        n + 1 == ceil_div(total, size) ==> batch_end(total, size, n) == total,
{
    let count = ceil_div(total, size);
    lemma_ceil_div_is_ceiling(total, size);
    let d = size as int;
    assert((n + 1) * d == n * d + d) by {
        lemma_mul_is_distributive_add(d, n as int, 1);
        lemma_mul_is_commutative(d, (n + 1) as int);
        lemma_mul_is_commutative(d, n as int);
    }
    assert(n * d <= (count - 1) * d) by {
        lemma_mul_inequality(n as int, count - 1, d);
    }
    if n + 1 < count {
        assert((n + 1) * d <= (count - 1) * d) by {
            lemma_mul_inequality((n + 1) as int, count - 1, d);
        }
    } else {
        assert((n + 1) * d == count * d);
    }
}

/// Where the cursor stands in a paginated source.
#[derive(Clone, Copy, Debug, PartialEq, Eq, Structural)]
pub struct WindowState {
    /// The batch on display, counted from zero.
    pub batch_index: usize,
    /// The number of rows in every batch but the last.
    pub batch_size: usize,
    /// The number of batches in the source.
    pub total_batches: usize,
    /// The number of rows in the source.
    pub total_rows: usize,
}

/// Computes the number of batches of `batch_size` rows in a source of
/// `total_rows` rows, without overflow for any pair of arguments.
pub fn total_batches_for(total_rows: usize, batch_size: usize) -> (count: usize)
    requires
        batch_size >= 1,
    ensures
        count == ceil_div(total_rows as nat, batch_size as nat),
{
    let whole: usize = total_rows / batch_size;
    let rest: usize = total_rows % batch_size;
    proof {
        let d = batch_size as int;
        lemma_fundamental_div_mod(total_rows as int, d);
        lemma_mul_is_commutative(d, whole as int);
        if rest == 0 {
            lemma_fundamental_div_mod_converse(total_rows + d - 1, d, whole as int, d - 1);
        } else {
            assert((whole + 1) * d == whole * d + d) by {
                lemma_mul_is_distributive_add(d, whole as int, 1);
                lemma_mul_is_commutative(d, whole + 1);
            }
            lemma_fundamental_div_mod_converse(total_rows + d - 1, d, whole + 1, rest - 1);
            assert(whole * d >= whole) by {
                lemma_mul_inequality(1, d, whole as int);
                lemma_mul_is_commutative(d, whole as int);
            }
        }
    }
    if rest == 0 {
        whole
    } else {
        whole + 1
    }
}

impl WindowState {
    /// The invariant of a window: at least one row per batch, the batch
    /// count that the row count gives, and a cursor on one of the batches.
    pub open spec fn wf(self) -> bool {
        &&& self.batch_size >= 1
        &&& self.total_batches == ceil_div(self.total_rows as nat, self.batch_size as nat)
        &&& self.batch_index < self.total_batches
    }

    /// The number of rows that batch `n` of this source holds.
    pub open spec fn spec_batch_len(self, n: nat) -> nat {
        batch_len(self.total_rows as nat, self.batch_size as nat, n)
    }

    /// The index in the source of the first row of batch `n`.
    pub open spec fn spec_batch_start(self, n: nat) -> nat {
        batch_start(self.batch_size as nat, n)
    }

    /// The window with its cursor on batch `n`.
    pub open spec fn at(self, n: usize) -> WindowState {
        WindowState { batch_index: n, ..self }
    }

    /// The batch that a step forward leads to, if the cursor is not on the
    /// last one.
    pub open spec fn spec_next_index(self) -> Option<usize> {
        if self.batch_index + 1 < self.total_batches {
            Some((self.batch_index + 1) as usize)
        } else {
            None
        }
    }

    /// The batch that a step back leads to, if the cursor is not on the
    /// first one.
    pub open spec fn spec_previous_index(self) -> Option<usize> {
        if self.batch_index > 0 {
            Some((self.batch_index - 1) as usize)
        } else {
            None
        }
    }

    /// Positions a cursor on the first batch of a source. A source without
    /// rows has no batch to stand on.
    pub fn open(total_rows: usize, batch_size: usize) -> (window: Option<WindowState>)
        requires
            batch_size >= 1,
        ensures
            total_rows == 0 <==> window is None,
            window matches Some(w) ==> w.wf() && w.batch_index == 0 && w.batch_size == batch_size
                && w.total_rows == total_rows,
    {
        let total_batches: usize = total_batches_for(total_rows, batch_size);
        proof {
            lemma_ceil_div_is_ceiling(total_rows as nat, batch_size as nat);
        }
        if total_batches == 0 {
            None
        } else {
            Some(WindowState { batch_index: 0, batch_size, total_batches, total_rows })
        }
    }

    /// Returns the batch after the current one, or `None` on the last batch.
    pub fn next_index(&self) -> (next: Option<usize>)
        ensures
            next == self.spec_next_index(),
            next matches Some(n) ==> n < self.total_batches,
    {
        if self.total_batches > 0 && self.batch_index < self.total_batches - 1 {
            Some(self.batch_index + 1)
        } else {
            None
        }
    }

    /// Returns the batch before the current one, or `None` on the first
    /// batch.
    pub fn previous_index(&self) -> (previous: Option<usize>)
        ensures
            previous == self.spec_previous_index(),
            self.wf() ==> (previous matches Some(n) ==> n < self.total_batches),
    {
        if self.batch_index > 0 {
            Some(self.batch_index - 1)
        } else {
            None
        }
    }

    /// Returns the index in the source of the first row of batch `n`.
    pub fn batch_start(&self, n: usize) -> (start: usize)
        requires
            self.wf(),
            n < self.total_batches,
        ensures
            start == self.spec_batch_start(n as nat),
            start < self.total_rows,
    {
        proof {
            lemma_batches_tile(self.total_rows as nat, self.batch_size as nat, n as nat);
        }
        n * self.batch_size
    }

    /// Returns the number of rows that batch `n` holds.
    pub fn batch_len(&self, n: usize) -> (len: usize)
        requires
            self.wf(),
            n < self.total_batches,
        ensures
            len == self.spec_batch_len(n as nat),
            1 <= len <= self.batch_size,
            self.spec_batch_start(n as nat) + len <= self.total_rows,
    {
        proof {
            lemma_batches_tile(self.total_rows as nat, self.batch_size as nat, n as nat);
        }
        let start: usize = n * self.batch_size;
        let left: usize = self.total_rows - start;
        if left < self.batch_size {
            left
        } else {
            self.batch_size
        }
    }
}

} // verus!
