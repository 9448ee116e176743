use vstd::prelude::*;

use crate::scalar::Scalar;
use vstd::arithmetic::div_mod::lemma_fundamental_div_mod;

verus! {

/// A dense transfer matrix of shape `[n_locs][3][n_sec]`: element
/// `(p, c, s)` is field component `c` (0 = north, 1 = east, 2 = down) at
/// location `p` caused by pole `s` carrying unit current.  The entries are
/// stored row-major — location, then component, then pole — so the same
/// buffer read as a `3·n_locs` by `n_sec` matrix is exactly the flattening
/// the solver consumes.
#[derive(Debug)]
pub struct TransferMatrix {
    n_locs: usize,
    n_sec: usize,
    data: Vec<Scalar>,
}

impl TransferMatrix {
    pub closed spec fn spec_n_locs(self) -> int {
        self.n_locs as int
    }

    pub closed spec fn spec_n_sec(self) -> int {
        self.n_sec as int
    }

    /// Well-formedness: the buffer holds exactly one entry per
    /// location-component-pole triple.
    pub closed spec fn wf(self) -> bool {
        self.data@.len() == self.spec_n_locs() * 3 * self.spec_n_sec()
    }

    /// The entry for location `p`, component `c`, pole `s`.
    pub closed spec fn spec_at(self, p: int, c: int, s: int) -> Scalar {
        self.data@[(p * 3 + c) * self.spec_n_sec() + s]
    }

    /// Wraps an entry buffer, laid out row-major over location, component,
    /// pole, as a transfer matrix.
    pub fn new(n_locs: usize, n_sec: usize, data: Vec<Scalar>) -> (r: TransferMatrix)
        requires
            data@.len() == n_locs * 3 * n_sec,
        ensures
            r.wf(),
            r.spec_n_locs() == n_locs,
            r.spec_n_sec() == n_sec,
            forall|p: int, c: int, s: int|
                0 <= p < n_locs && 0 <= c < 3 && 0 <= s < n_sec ==> #[trigger] r.spec_at(p, c, s)
                    == data@[(p * 3 + c) * n_sec + s],
    {
        TransferMatrix { n_locs, n_sec, data }
    }

    pub fn n_locs(&self) -> (r: usize)
        ensures
            r == self.spec_n_locs(),
    {
        self.n_locs
    }

    pub fn n_sec(&self) -> (r: usize)
        ensures
            r == self.spec_n_sec(),
    {
        self.n_sec
    }

    /// An in-bounds triple indexes strictly inside the buffer.
    proof fn lemma_index_bound(self, p: int, c: int, s: int)
        requires
            self.wf(),
            0 <= p < self.spec_n_locs(),
            0 <= c < 3,
            0 <= s < self.spec_n_sec(),
        ensures
            0 <= (p * 3 + c) * self.spec_n_sec() + s < self.data@.len(),
            (p * 3 + c) * self.spec_n_sec() + s < self.spec_n_locs() * 3 * self.spec_n_sec(),
            0 <= p * 3 + c <= (p * 3 + c) * self.spec_n_sec() + s,
    {
        let n = self.spec_n_sec();
        let l = self.spec_n_locs();
        assert(0 <= (p * 3 + c) * n + s < l * 3 * n && 0 <= p * 3 + c <= (p * 3 + c) * n + s)
            by (nonlinear_arith)
            requires
                0 <= p < l,
                0 <= c < 3,
                0 <= s < n,
        ;
    }

    /// Reads the entry for location `p`, component `c`, pole `s`.
    pub fn at(&self, p: usize, c: usize, s: usize) -> (r: Scalar)
        requires
            self.wf(),
            p < self.spec_n_locs(),
            c < 3,
            s < self.spec_n_sec(),
        ensures
            r == self.spec_at(p as int, c as int, s as int),
    {
        let _len = self.data.len();
        proof {
            self.lemma_index_bound(p as int, c as int, s as int);
        }
        self.data[(p * 3 + c) * self.n_sec + s]
    }

    /// Reads the flattened view: row `row` of the `3·n_locs` by `n_sec`
    /// matrix is the component `row % 3` at location `row / 3`, so the
    /// flattening is a pure reinterpretation of the same buffer.
    pub fn flat_at(&self, row: usize, col: usize) -> (r: Scalar)
        requires
            self.wf(),
            row < 3 * self.spec_n_locs(),
            col < self.spec_n_sec(),
        ensures
            r == self.spec_at(row as int / 3, row as int % 3, col as int),
    {
        let _len = self.data.len();
        proof {
            lemma_fundamental_div_mod(row as int, 3);
            self.lemma_index_bound(row as int / 3, row as int % 3, col as int);
            assert(((row as int / 3) * 3 + row as int % 3) * self.spec_n_sec() == (row as int)
                * self.spec_n_sec()) by (nonlinear_arith)
                requires
                    row as int == 3 * (row as int / 3) + row as int % 3,
            ;
        }
        self.data[row * self.n_sec + col]
    }

    /// Copies out the kernel row of one component at one location: entry `s`
    /// is the response of pole `s` on component `c` at location `p`.
    pub fn component_row(&self, p: usize, c: usize) -> (r: Vec<Scalar>)
        requires
            self.wf(),
            p < self.spec_n_locs(),
            c < 3,
        ensures
            r@.len() == self.spec_n_sec(),
            forall|s: int|
                0 <= s < self.spec_n_sec() ==> r@[s] == self.spec_at(p as int, c as int, s),
    {
        let n = self.n_sec();
        let mut row: Vec<Scalar> = Vec::new();
        let mut s: usize = 0;
        while s < n
            invariant
                n == self.spec_n_sec(),
                self.wf(),
                p < self.spec_n_locs(),
                c < 3,
                s <= n,
                row@.len() == s,
                forall|m: int| 0 <= m < s ==> row@[m] == self.spec_at(p as int, c as int, m),
            decreases n - s,
        {
            row.push(self.at(p, c, s));
            s += 1;
        }
        row
    }
}

} // verus!
