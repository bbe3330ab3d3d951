use vstd::prelude::*;

use crate::error::SheError;

verus! {

/// Largest value of `i64`, as a mathematical integer.
pub open spec fn i64_max() -> int {
    0x7fff_ffff_ffff_ffff
}

/// What the baby-step table answers for the element `g^d`: the offset `d`
/// when `0 <= d < hash_size`, nothing otherwise.
pub open spec fn table_answer(hash_size: int, d: int) -> Option<u64> {
    if 0 <= d < hash_size {
        Some(d as u64)
    } else {
        None
    }
}

/// One giant step `i`: the probe of `g^(m - i*H)` found offset `d` means
/// `m = i*H + d`; otherwise the probe of `g^(-m - i*H)` found `d` means
/// `m = -(i*H + d)`; otherwise nothing is known yet.
pub open spec fn giant_step(
    hash_size: int,
    i: int,
    pos_hit: Option<u64>,
    neg_hit: Option<u64>,
) -> Option<int> {
    match pos_hit {
        Some(d) => Some(i * hash_size + d),
        None => match neg_hit {
            Some(d) => Some(-(i * hash_size + d)),
            None => None,
        },
    }
}

/// The result of searching for the exponent `m` from giant step `i` on, when
/// every probe is answered by the table truthfully.
pub open spec fn search_from(hash_size: int, try_num: int, i: int, m: int) -> Option<int>
    decreases try_num - i,
{
    if i >= try_num {
        None
    } else {
        match giant_step(
            hash_size,
            i,
            table_answer(hash_size, m - i * hash_size),
            table_answer(hash_size, -m - i * hash_size),
        ) {
            Some(v) => Some(v),
            None => search_from(hash_size, try_num, i + 1, m),
        }
    }
}

/// The exponent a whole search finds, or `None` when it reports `CantDecrypt`.
pub open spec fn search(hash_size: int, try_num: int, m: int) -> Option<int> {
    search_from(hash_size, try_num, 0, m)
}

proof fn lemma_search_from(hash_size: int, try_num: int, i: int, m: int)
    requires
        0 <= hash_size,
        0 <= i <= try_num,
        hash_size * try_num <= i64_max(),
        i * hash_size <= (if m < 0 { -m } else { m }),
    ensures
        search_from(hash_size, try_num, i, m) == if (if m < 0 { -m } else { m }) < hash_size
            * try_num {
            Some(m)
        } else {
            None::<int>
        },
    decreases try_num - i,
{
    let a = if m < 0 { -m } else { m };
    if i == try_num {
        assert(hash_size * try_num == try_num * hash_size) by (nonlinear_arith);
    } else {
        assert((i + 1) * hash_size == i * hash_size + hash_size) by (nonlinear_arith);
        assert(i * hash_size + hash_size <= hash_size * try_num) by (nonlinear_arith)
            requires
                i < try_num,
                0 <= hash_size,
        ;
        if a >= (i + 1) * hash_size {
            lemma_search_from(hash_size, try_num, i + 1, m);
        } else if m >= 0 {
            assert(table_answer(hash_size, m - i * hash_size) == Some((m - i * hash_size) as u64));
        } else {
            assert(table_answer(hash_size, m - i * hash_size) is None);
            assert(table_answer(hash_size, -m - i * hash_size) == Some((-m - i * hash_size) as u64));
        }
    }
}

/// Range boundary: with a table of `hash_size` entries and `try_num` giant
/// steps, a search whose probes the table answers truthfully finds every
/// exponent `m` with `|m| <= hash_size * try_num - 1`, and reports
/// `CantDecrypt` for every larger one.
pub proof fn lemma_range_boundary(hash_size: nat, try_num: nat, m: int)
    requires
        hash_size * try_num <= i64_max(),
    ensures
        search(hash_size as int, try_num as int, m) == if (if m < 0 { -m } else { m }) < hash_size
            * try_num {
            Some(m)
        } else {
            None::<int>
        },
{
    lemma_search_from(hash_size as int, try_num as int, 0, m);
}

/// A bounded baby-step/giant-step search for a small exponent.
///
/// The caller holds the target element `g^m` and a table of `g^d` for
/// `0 <= d < hash_size`. Before each step it looks up `g^(m - off)` and
/// `g^(-m - off)` in that table, where `off` is `probe_offset()`, and hands the
/// two answers to `step`. The search ends at the first hit, or with
/// `CantDecrypt` after `try_num` steps.
pub struct DlpSearch {
    hash_size: u64,
    try_num: u64,
    next: u64,
}

/// Where a search stands after one giant step.
#[derive(Clone, Copy, Debug, PartialEq, Eq, Structural)]
pub enum SearchStep {
    /// The exponent was found.
    Found(i64),
    /// No hit yet: probe the next giant step.
    Continue,
    /// Every giant step was probed without a hit.
    Exhausted,
}

impl SearchStep {
    /// The exponent found, or `CantDecrypt` once the search is exhausted.
    pub fn result(&self) -> (r: Option<Result<i64, SheError>>)
        ensures
            r == match *self {
                SearchStep::Found(m) => Some(Ok::<i64, SheError>(m)),
                SearchStep::Continue => None::<Result<i64, SheError>>,
                SearchStep::Exhausted => Some(Err::<i64, SheError>(SheError::CantDecrypt)),
            },
    {
        match self {
            SearchStep::Found(m) => Some(Ok(*m)),
            SearchStep::Continue => None,
            SearchStep::Exhausted => Some(Err(SheError::CantDecrypt)),
        }
    }
}

impl DlpSearch {
    pub closed spec fn spec_hash_size(&self) -> nat {
        self.hash_size as nat
    }

    pub closed spec fn spec_try_num(&self) -> nat {
        self.try_num as nat
    }

    /// Index of the giant step that the next call of `step` handles.
    pub closed spec fn spec_next(&self) -> nat {
        self.next as nat
    }

    /// The decodable range fits in `i64` and no more than `try_num` steps
    /// were taken.
    pub closed spec fn wf(&self) -> bool {
        self.hash_size * self.try_num <= i64_max() && self.next <= self.try_num
    }

    /// Starts a search over a table of `hash_size` entries with `try_num`
    /// giant steps; `None` when `hash_size * try_num` exceeds `i64::MAX`.
    pub fn new(hash_size: u64, try_num: u64) -> (r: Option<DlpSearch>)
        ensures
            r is None <==> hash_size * try_num > i64_max(),
            r matches Some(s) ==> s.wf() && s.spec_hash_size() == hash_size
                && s.spec_try_num() == try_num && s.spec_next() == 0,
    {
        match hash_size.checked_mul(try_num) {
            Some(prod) if prod <= 0x7fff_ffff_ffff_ffffu64 => Some(
                DlpSearch { hash_size, try_num, next: 0 },
            ),
            _ => None,
        }
    }

    pub fn hash_size(&self) -> (r: u64)
        ensures
            r == self.spec_hash_size(),
    {
        self.hash_size
    }

    pub fn try_num(&self) -> (r: u64)
        ensures
            r == self.spec_try_num(),
    {
        self.try_num
    }

    /// Whether every giant step has been probed.
    pub fn is_exhausted(&self) -> (r: bool)
        requires
            self.wf(),
        ensures
            r <==> self.spec_next() == self.spec_try_num(),
    {
        self.next == self.try_num
    }

    /// The exponent shift of the next giant step: `next * hash_size`.
    pub fn probe_offset(&self) -> (r: u64)
        requires
            self.wf(),
            self.spec_next() < self.spec_try_num(),
        ensures
            r == self.spec_next() * self.spec_hash_size(),
    {
        proof {
            assert(self.next * self.hash_size <= self.hash_size * self.try_num) by (nonlinear_arith)
                requires
                    self.next <= self.try_num,
            ;
        }
        self.next * self.hash_size
    }

    /// Takes the table's answers for the two probes of the current giant step.
    pub fn step(&mut self, pos_hit: Option<u64>, neg_hit: Option<u64>) -> (r: SearchStep)
        requires
            old(self).wf(),
            old(self).spec_next() < old(self).spec_try_num(),
            pos_hit matches Some(d) ==> d < old(self).spec_hash_size(),
            neg_hit matches Some(d) ==> d < old(self).spec_hash_size(),
        ensures
            final(self).wf(),
            final(self).spec_hash_size() == old(self).spec_hash_size(),
            final(self).spec_try_num() == old(self).spec_try_num(),
            final(self).spec_next() == old(self).spec_next() + 1,
            match giant_step(
                old(self).spec_hash_size() as int,
                old(self).spec_next() as int,
                pos_hit,
                neg_hit,
            ) {
                Some(v) => r == SearchStep::Found(v as i64),
                None => if final(self).spec_next() == final(self).spec_try_num() {
                    r == SearchStep::Exhausted
                } else {
                    r == SearchStep::Continue
                },
            },
            r matches SearchStep::Found(v) ==> -i64_max() <= v <= i64_max(),
    {
        let h = self.hash_size;
        let i = self.next;
        proof {
            assert(i * h + h <= h * self.try_num) by (nonlinear_arith)
                requires
                    i < self.try_num,
            ;
        }
        let base: u64 = i * h;
        self.next = i + 1;
        match pos_hit {
            Some(d) => SearchStep::Found((base + d) as i64),
            None => match neg_hit {
                Some(d) => SearchStep::Found(-((base + d) as i64)),
                None => if self.next == self.try_num {
                    SearchStep::Exhausted
                } else {
                    SearchStep::Continue
                },
            },
        }
    }
}

} // verus!
