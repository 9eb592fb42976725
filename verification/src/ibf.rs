//! An invertible Bloom filter over `u64` elements.
//!
//! The sketch holds `2^k + 2` cells; each element is folded into three of
//! them, chosen from its hash, by xor of the element and of its hash.
//! Two sketches built with the same seed and capacity can be merged
//! cell-wise, after which peeling recovers the elements that appear in
//! exactly one of the underlying sets: a cell whose stored hash matches
//! the hash of its stored element holds a single element, which is
//! removed and may in turn free its other cells.

use std::hash::Hasher;
use vstd::arithmetic::power2::{lemma2_to64, lemma_pow2_adds, lemma_pow2_strictly_increases, pow2};
use vstd::bits::{lemma_u64_shl_is_mul, lemma_usize_shl_is_mul};
use vstd::prelude::*;

verus! {

/// Cells each element is folded into.
const NUM_HASHES: usize = 3;

/// One cell of the sketch: the xor of the elements folded into it and
/// the xor of their hashes.
#[derive(PartialEq, Eq, Structural, Clone, Copy, Debug, Default)]
pub struct IbfElem {
    pub xor_elem: u64,
    pub xor_hash: u64,
}

impl IbfElem {
    fn adjust(&mut self, elem: u64, elem_hash: u64)
        ensures
            *final(self) == (IbfElem {
                xor_elem: old(self).xor_elem ^ elem,
                xor_hash: old(self).xor_hash ^ elem_hash,
            }),
    {
        self.xor_elem = self.xor_elem ^ elem;
        self.xor_hash = self.xor_hash ^ elem_hash;
    }

    fn merge(&mut self, rhs: &IbfElem)
        ensures
            *final(self) == (IbfElem {
                xor_elem: old(self).xor_elem ^ rhs.xor_elem,
                xor_hash: old(self).xor_hash ^ rhs.xor_hash,
            }),
    {
        self.xor_elem = self.xor_elem ^ rhs.xor_elem;
        self.xor_hash = self.xor_hash ^ rhs.xor_hash;
    }
}

/// The digest of one element under one seed.
pub uninterp spec fn ibf_seeded_hash(seed: u64, elem: u64) -> u64;

/// Relies on std's `DefaultHasher`: every instance made by `default()`
/// hashes identically, so the digest depends on the seed and the element
/// alone.
#[verifier::external_body]
fn seeded_hash(seed: u64, elem: u64) -> (r: u64)
    ensures
        r == ibf_seeded_hash(seed, elem),
{
    let mut h = std::collections::hash_map::DefaultHasher::default();
    h.write_u64(seed);
    h.write_u64(elem);
    h.finish()
}

/// Cells a sketch with parameter `k` holds.
pub open spec fn spec_capacity(k: i32) -> nat {
    pow2(k as nat) + 2
}

/// The three cells an element with digest `h` is folded into, in order.
/// The second and third are nudged upward, modulo `2^k`, to step off the
/// earlier ones.
pub open spec fn spec_indexes(k: i32, h: u64) -> (u64, u64, u64) {
    let mask = ((1u64 << (k as u64)) - 1) as u64;
    let pos0 = h & mask;
    let pos1a = (h >> (k as u64)) & mask;
    let pos1 = if pos1a >= pos0 {
        ((pos1a + 1) as u64) & mask
    } else {
        pos1a
    };
    let lo = if pos0 < pos1 {
        pos0
    } else {
        pos1
    };
    let hi = if pos0 < pos1 {
        pos1
    } else {
        pos0
    };
    let pos2a = (h >> ((2 * k) as u64)) & mask;
    let pos2b = if pos2a >= lo {
        ((pos2a + 1) as u64) & mask
    } else {
        pos2a
    };
    let pos2 = if pos2b >= hi {
        ((pos2b + 1) as u64) & mask
    } else {
        pos2b
    };
    (pos0, pos1, pos2)
}

/// One cell adjusted by an element and its digest.
pub open spec fn spec_adjust_elem(e: IbfElem, elem: u64, h: u64) -> IbfElem {
    IbfElem { xor_elem: e.xor_elem ^ elem, xor_hash: e.xor_hash ^ h }
}

/// The sketch data after folding an element with digest `h` into its
/// three cells, in order.
pub open spec fn spec_adjusted(data: Seq<IbfElem>, k: i32, elem: u64, h: u64) -> Seq<IbfElem> {
    let (p0, p1, p2) = spec_indexes(k, h);
    let d0 = data.update(p0 as int, spec_adjust_elem(data[p0 as int], elem, h));
    let d1 = d0.update(p1 as int, spec_adjust_elem(d0[p1 as int], elem, h));
    d1.update(p2 as int, spec_adjust_elem(d1[p2 as int], elem, h))
}

/// The sketch data after peeling each element of `recovered`, in order.
pub open spec fn spec_peeled(data: Seq<IbfElem>, k: i32, seed: u64, recovered: Seq<u64>) -> Seq<
    IbfElem,
>
    decreases recovered.len(),
{
    if recovered.len() == 0 {
        data
    } else {
        spec_peeled(
            spec_adjusted(data, k, recovered[0], ibf_seeded_hash(seed, recovered[0])),
            k,
            seed,
            recovered.drop_first(),
        )
    }
}

proof fn lemma_peeled_push(data: Seq<IbfElem>, k: i32, seed: u64, recovered: Seq<u64>, elem: u64)
    ensures
        spec_peeled(data, k, seed, recovered.push(elem)) == spec_adjusted(
            spec_peeled(data, k, seed, recovered),
            k,
            elem,
            ibf_seeded_hash(seed, elem),
        ),
    decreases recovered.len(),
{
    if recovered.len() == 0 {
        let adjusted = spec_adjusted(data, k, elem, ibf_seeded_hash(seed, elem));
        assert(recovered.push(elem)[0] == elem);
        assert(recovered.push(elem).drop_first() =~= Seq::<u64>::empty());
        assert(spec_peeled(data, k, seed, recovered.push(elem)) == spec_peeled(
            adjusted,
            k,
            seed,
            recovered.push(elem).drop_first(),
        ));
        assert(spec_peeled(adjusted, k, seed, recovered.push(elem).drop_first()) == adjusted);
        assert(spec_peeled(data, k, seed, recovered) == data);
    } else {
        let adj0 = spec_adjusted(data, k, recovered[0], ibf_seeded_hash(seed, recovered[0]));
        assert(recovered.push(elem)[0] == recovered[0]);
        assert(recovered.push(elem).drop_first() =~= recovered.drop_first().push(elem));
        assert(spec_peeled(data, k, seed, recovered.push(elem)) == spec_peeled(
            adj0,
            k,
            seed,
            recovered.drop_first().push(elem),
        ));
        lemma_peeled_push(adj0, k, seed, recovered.drop_first(), elem);
        assert(spec_peeled(data, k, seed, recovered) == spec_peeled(
            adj0,
            k,
            seed,
            recovered.drop_first(),
        ));
    }
}

/// Cells whose stored element is not zero.
pub open spec fn spec_nonzero_count(data: Seq<IbfElem>) -> int
    decreases data.len(),
{
    if data.len() == 0 {
        0
    } else {
        spec_nonzero_count(data.drop_last()) + if data.last().xor_elem != 0 {
            1int
        } else {
            0int
        }
    }
}

/// The sketch: `2^k + 2` cells and the seed its digests are drawn from.
#[derive(Clone, Debug)]
pub struct Ibf {
    /// The cell-count parameter: the sketch holds `2^k + 2` cells.
    pub k: i32,
    pub data: Vec<IbfElem>,
    pub seed: u64,
}

impl Ibf {
    pub open spec fn wf(&self) -> bool {
        &&& 0 <= self.k <= 31
        &&& self.data@.len() == spec_capacity(self.k)
    }

    /// Wrap existing sketch data, which must have the cell count of some
    /// parameter `k`, under the seed it was built with.
    pub fn from_vec(data: Vec<IbfElem>, seed: u64) -> (r: Ibf)
        requires
            exists|kk: i32| 0 <= kk <= 31 && data@.len() == spec_capacity(kk),
        ensures
            r.wf(),
            r.data == data,
            r.seed == seed,
    {
        let ghost kk = choose|kk: i32| 0 <= kk <= 31 && data@.len() == spec_capacity(kk);
        proof {
            lemma2_to64();
        }
        let k = Ibf::calculate_k(data.len());
        proof {
            if k < kk {
                lemma_pow2_strictly_increases(k as nat, kk as nat);
            }
            if kk < k {
                // the minimality of k rules kk == k - 1 out already
                lemma_pow2_strictly_increases(kk as nat, (k - 1) as nat);
            }
            assert(k == kk);
        }
        Self { data, k, seed }
    }

    /// An empty sketch with at least `capacity` cells.
    pub fn new(capacity: usize, seed: u64) -> (r: Ibf)
        requires
            capacity <= 0x8000_0002,
        ensures
            r.wf(),
            r.seed == seed,
            spec_capacity(r.k) >= capacity,
            r.k > 0 ==> spec_capacity((r.k - 1) as i32) < capacity,
            forall|i: int|
                0 <= i < r.data@.len() ==> r.data@[i] == (IbfElem { xor_elem: 0, xor_hash: 0 }),
    {
        let k = Ibf::calculate_k(capacity);
        let new_capacity = Ibf::cells_of(k) + NUM_HASHES - 1;
        let mut data: Vec<IbfElem> = Vec::new();
        let mut i: usize = 0;
        while i < new_capacity
            invariant
                i <= new_capacity,
                data@.len() == i,
                forall|j: int|
                    0 <= j < i ==> data@[j] == (IbfElem { xor_elem: 0, xor_hash: 0 }),
            decreases new_capacity - i,
        {
            data.push(IbfElem { xor_elem: 0, xor_hash: 0 });
            i = i + 1;
        }
        Self { data, k, seed }
    }

    /// The number of plain cells, `2^k`, as a machine integer.
    fn cells_of(k: i32) -> (r: usize)
        requires
            0 <= k <= 31,
        ensures
            r == pow2(k as nat),
            r <= 0x8000_0000,
    {
        proof {
            lemma2_to64();
            if k < 31 {
                lemma_pow2_strictly_increases(k as nat, 31);
            }
            lemma_usize_shl_is_mul(1usize, k as usize);
        }
        1usize << (k as usize)
    }

    /// The least `k` whose cell count reaches `capacity`.  The cell
    /// count is `2^k + 2` so that the three cell indexes of an element
    /// come from bit masks, with no division.
    fn calculate_k(capacity: usize) -> (r: i32)
        requires
            capacity <= 0x8000_0002,
        ensures
            0 <= r <= 31,
            spec_capacity(r) >= capacity,
            r > 0 ==> spec_capacity((r - 1) as i32) < capacity,
    {
        let mut k: i32 = 0;
        let mut cells: usize = 1;
        proof {
            lemma2_to64();
        }
        while cells + NUM_HASHES - 1 < capacity
            invariant
                0 <= k <= 31,
                capacity <= 0x8000_0002,
                cells == pow2(k as nat),
                cells <= 0x8000_0000,
                k > 0 ==> spec_capacity((k - 1) as i32) < capacity,
            decreases 31 - k,
        {
            proof {
                lemma2_to64();
                if k == 31 {
                    assert(false);
                }
                lemma_pow2_strictly_increases(k as nat, (k + 1) as nat);
                lemma_pow2_adds(k as nat, 1);
                if k + 1 < 31 {
                    lemma_pow2_strictly_increases((k + 1) as nat, 31);
                }
            }
            k = k + 1;
            cells = cells * 2;
        }
        k
    }

    pub fn add(&mut self, elem: u64)
        requires
            old(self).wf(),
        ensures
            final(self).wf(),
            final(self).seed == old(self).seed,
            final(self).k == old(self).k,
            final(self).data@ == spec_adjusted(
                old(self).data@,
                old(self).k,
                elem,
                ibf_seeded_hash(old(self).seed, elem),
            ),
    {
        self.adjust(elem)
    }

    pub fn remove(&mut self, elem: u64)
        requires
            old(self).wf(),
        ensures
            final(self).wf(),
            final(self).seed == old(self).seed,
            final(self).k == old(self).k,
            final(self).data@ == spec_adjusted(
                old(self).data@,
                old(self).k,
                elem,
                ibf_seeded_hash(old(self).seed, elem),
            ),
    {
        self.adjust(elem)
    }

    fn compute_hash(&self, elem: u64) -> (r: u64)
        ensures
            r == ibf_seeded_hash(self.seed, elem),
    {
        seeded_hash(self.seed, elem)
    }

    fn adjust(&mut self, elem: u64)
        requires
            old(self).wf(),
        ensures
            final(self).wf(),
            final(self).seed == old(self).seed,
            final(self).k == old(self).k,
            final(self).data@ == spec_adjusted(
                old(self).data@,
                old(self).k,
                elem,
                ibf_seeded_hash(old(self).seed, elem),
            ),
    {
        self.adjust_value(elem);
    }

    /// Merge another sketch's cells into this one.  Sketches of unequal
    /// size or seed cannot be merged; nothing changes and the merge
    /// reports failure.
    pub fn merge(&mut self, rhs_data: &[IbfElem], rhs_seed: u64) -> (r: bool)
        requires
            old(self).wf(),
        ensures
            final(self).wf(),
            final(self).seed == old(self).seed,
            final(self).k == old(self).k,
            r == (old(self).data@.len() == rhs_data@.len() && old(self).seed == rhs_seed),
            !r ==> final(self).data == old(self).data,
            r ==> final(self).data@.len() == old(self).data@.len(),
            r ==> forall|i: int|
                0 <= i < old(self).data@.len() ==> final(self).data@[i] == (IbfElem {
                    xor_elem: old(self).data@[i].xor_elem ^ rhs_data@[i].xor_elem,
                    xor_hash: old(self).data@[i].xor_hash ^ rhs_data@[i].xor_hash,
                }),
    {
        if self.data.len() != rhs_data.len() || self.seed != rhs_seed {
            return false;
        }
        let ghost pre = self.data@;
        let n = self.data.len();
        let mut i: usize = 0;
        while i < n
            invariant
                i <= n,
                n == self.data@.len(),
                n == pre.len(),
                n == rhs_data@.len(),
                self.seed == old(self).seed,
                self.k == old(self).k,
                self.wf(),
                forall|j: int| i <= j < n ==> self.data@[j] == pre[j],
                forall|j: int|
                    0 <= j < i ==> self.data@[j] == (IbfElem {
                        xor_elem: pre[j].xor_elem ^ rhs_data@[j].xor_elem,
                        xor_hash: pre[j].xor_hash ^ rhs_data@[j].xor_hash,
                    }),
            decreases n - i,
        {
            let rhs_elem = rhs_data[i];
            let cell = &mut self.data[i];
            cell.merge(&rhs_elem);
            i = i + 1;
        }
        true
    }

    /// Peel recoverable elements out of the sketch.  Returns the peeled
    /// elements and the number of cells still holding a nonzero element;
    /// zero means the recovered set is complete.
    pub fn try_recover(&mut self) -> (r: (Vec<u64>, u64))
        requires
            old(self).wf(),
        ensures
            final(self).wf(),
            final(self).seed == old(self).seed,
            final(self).k == old(self).k,
            final(self).data@ == spec_peeled(
                old(self).data@,
                old(self).k,
                old(self).seed,
                r.0@,
            ),
            r.1 == spec_nonzero_count(final(self).data@),
    {
        let ghost pre = self.data@;
        let mut result: Vec<u64> = Vec::new();
        let mut to_check: Vec<usize> = Vec::new();
        let n = self.data.len();
        proof {
            lemma2_to64();
        }
        // An adversarial sketch can make peeling walk in a circle; the
        // budget bounds the walk without cutting short any run in which
        // peeling makes progress proportional to the cell count.
        let mut fuel: u64 = (n as u64) * 16 + 16;
        let mut i: usize = 0;
        while i < n
            invariant
                i <= n,
                n == self.data@.len(),
                self.wf(),
                self.seed == old(self).seed,
                self.k == old(self).k,
                self.data@ == spec_peeled(pre, old(self).k, old(self).seed, result@),
                forall|j: int| 0 <= j < to_check@.len() ==> to_check@[j] < n,
            decreases n - i,
        {
            to_check.push(i);
            while to_check.len() > 0 && fuel > 0
                invariant
                    n == self.data@.len(),
                    self.wf(),
                    self.seed == old(self).seed,
                    self.k == old(self).k,
                    self.data@ == spec_peeled(pre, old(self).k, old(self).seed, result@),
                    forall|j: int| 0 <= j < to_check@.len() ==> to_check@[j] < n,
                decreases fuel,
            {
                fuel = fuel - 1;
                let j = to_check.pop().unwrap();
                let elem = self.data[j].xor_elem;
                if elem == 0 && self.data[j].xor_hash == 0 {
                    continue;
                }
                let elem_hash = self.compute_hash(elem);
                if elem_hash != self.data[j].xor_hash {
                    continue;
                }
                proof {
                    lemma_peeled_push(pre, self.k, self.seed, result@, elem);
                }
                result.push(elem);
                self.adjust_value_and_add_to_queue(elem, elem_hash, &mut to_check);
            }
            i = i + 1;
        }
        let mut elems_that_differ: u64 = 0;
        let mut c: usize = 0;
        proof {
            assert(self.data@.take(0) =~= Seq::<IbfElem>::empty());
        }
        while c < n
            invariant
                c <= n,
                n == self.data@.len(),
                elems_that_differ == spec_nonzero_count(self.data@.take(c as int)),
                elems_that_differ <= c,
            decreases n - c,
        {
            if self.data[c].xor_elem != 0 {
                elems_that_differ = elems_that_differ + 1;
            }
            c = c + 1;
            proof {
                assert(self.data@.take(c as int).drop_last() =~= self.data@.take(c - 1));
                assert(self.data@.take(c as int).last() == self.data@[c - 1]);
            }
        }
        proof {
            assert(self.data@.take(n as int) =~= self.data@);
        }
        (result, elems_that_differ)
    }

    /// Peel the sketch and insist on a complete recovery.
    pub fn recover(&mut self) -> (r: Result<Vec<u64>, &'static str>)
        requires
            old(self).wf(),
        ensures
            final(self).wf(),
            final(self).seed == old(self).seed,
            final(self).k == old(self).k,
            r is Err <==> spec_nonzero_count(final(self).data@) != 0,
            r matches Ok(v) ==> final(self).data@ == spec_peeled(
                old(self).data@,
                old(self).k,
                old(self).seed,
                v@,
            ),
    {
        let (result, difference) = self.try_recover();
        if difference != 0 {
            return Err("unable to recover result");
        }
        Ok(result)
    }

    fn generate_idx(&self, elem_hash: u64) -> (r: (u64, u64, u64))
        requires
            self.wf(),
        ensures
            r == spec_indexes(self.k, elem_hash),
            r.0 < self.data@.len(),
            r.1 < self.data@.len(),
            r.2 < self.data@.len(),
    {
        proof {
            lemma2_to64();
            if self.k < 31 {
                lemma_pow2_strictly_increases(self.k as nat, 31);
            }
            lemma_u64_shl_is_mul(1u64, self.k as u64);
        }
        let mask = (1u64 << (self.k as u64)) - 1;
        proof {
            assert(elem_hash & mask <= mask) by (bit_vector);
        }
        let pos0 = elem_hash & mask;
        let mut pos1 = (elem_hash >> (self.k as u64)) & mask;
        proof {
            let h1 = elem_hash >> (self.k as u64);
            assert(h1 & mask <= mask) by (bit_vector);
            assert(((pos1 + 1) as u64) & mask <= mask) by (bit_vector);
        }
        if pos1 >= pos0 {
            pos1 = (pos1 + 1) & mask;
        }
        let mut pos2 = (elem_hash >> (2 * self.k) as u64) & mask;
        proof {
            let h2 = elem_hash >> ((2 * self.k) as u64);
            assert(h2 & mask <= mask) by (bit_vector);
            assert(((pos2 + 1) as u64) & mask <= mask) by (bit_vector);
        }
        if pos2 >= (if pos0 < pos1 {
            pos0
        } else {
            pos1
        }) {
            pos2 = (pos2 + 1) & mask;
        }
        proof {
            assert(((pos2 + 1) as u64) & mask <= mask) by (bit_vector);
        }
        if pos2 >= (if pos0 < pos1 {
            pos1
        } else {
            pos0
        }) {
            pos2 = (pos2 + 1) & mask;
        }
        (pos0, pos1, pos2)
    }

    /// Fold an element into its three cells and queue those cells for
    /// another look.
    fn adjust_value_and_add_to_queue(&mut self, elem: u64, elem_hash: u64, queue: &mut Vec<usize>)
        requires
            old(self).wf(),
        ensures
            final(self).wf(),
            final(self).seed == old(self).seed,
            final(self).k == old(self).k,
            final(self).data@ == spec_adjusted(
                old(self).data@,
                old(self).k,
                elem,
                elem_hash,
            ),
            final(queue)@.len() == old(queue)@.len() + 3,
            forall|j: int|
                0 <= j < old(queue)@.len() ==> final(queue)@[j] == old(queue)@[j],
            forall|j: int|
                old(queue)@.len() <= j < final(queue)@.len() ==> final(queue)@[j] < old(
                    self,
                ).data@.len(),
    {
        let idx = self.generate_idx(elem_hash);
        let n = self.data.len();
        proof {
            assert(idx.0 < n && idx.1 < n && idx.2 < n);
        }
        let p0 = idx.0 as usize;
        let p1 = idx.1 as usize;
        let p2 = idx.2 as usize;
        let c0 = &mut self.data[p0];
        c0.adjust(elem, elem_hash);
        queue.push(p0);
        let c1 = &mut self.data[p1];
        c1.adjust(elem, elem_hash);
        queue.push(p1);
        let c2 = &mut self.data[p2];
        c2.adjust(elem, elem_hash);
        queue.push(p2);
    }

    fn adjust_value(&mut self, elem: u64)
        requires
            old(self).wf(),
        ensures
            final(self).wf(),
            final(self).seed == old(self).seed,
            final(self).k == old(self).k,
            final(self).data@ == spec_adjusted(
                old(self).data@,
                old(self).k,
                elem,
                ibf_seeded_hash(old(self).seed, elem),
            ),
    {
        let elem_hash = self.compute_hash(elem);
        let idx = self.generate_idx(elem_hash);
        let n = self.data.len();
        proof {
            assert(idx.0 < n && idx.1 < n && idx.2 < n);
        }
        let p0 = idx.0 as usize;
        let p1 = idx.1 as usize;
        let p2 = idx.2 as usize;
        let c0 = &mut self.data[p0];
        c0.adjust(elem, elem_hash);
        let c1 = &mut self.data[p1];
        c1.adjust(elem, elem_hash);
        let c2 = &mut self.data[p2];
        c2.adjust(elem, elem_hash);
    }
}

} // verus!
