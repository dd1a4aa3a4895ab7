use vstd::prelude::*;

verus! {

/// Bit `k` (0 is the lowest) of the byte `b`.
pub open spec fn byte_bit(b: u8, k: u8) -> bool {
    (b >> k) & 1u8 == 1u8
}

/// The byte `b` with bit `k` replaced by `v`.
pub open spec fn byte_with_bit(b: u8, k: u8, v: bool) -> u8 {
    if v {
        b | (1u8 << k)
    } else {
        b & !(1u8 << k)
    }
}

proof fn lemma_byte_with_bit(b: u8, k: u8, v: bool, j: u8)
    requires
        k < 8,
        j < 8,
    ensures
        byte_bit(byte_with_bit(b, k, v), j) == if j == k {
            v
        } else {
            byte_bit(b, j)
        },
{
    if v {
        assert(((b | (1u8 << k)) >> j) & 1u8 == 1u8 <==> (j == k || (b >> j) & 1u8 == 1u8))
            by (bit_vector)
            requires
                k < 8,
                j < 8,
        ;
    } else {
        assert(((b & !(1u8 << k)) >> j) & 1u8 == 1u8 <==> (j != k && (b >> j) & 1u8 == 1u8))
            by (bit_vector)
            requires
                k < 8,
                j < 8,
        ;
    }
}

proof fn lemma_fresh_byte(v: bool)
    ensures
        byte_bit(if v { 1u8 } else { 0u8 }, 0) == v,
{
    assert((1u8 >> 0u8) & 1u8 == 1u8) by (bit_vector);
    assert((0u8 >> 0u8) & 1u8 != 1u8) by (bit_vector);
}

/// A packed presence mask: bit `i` is set when the value at row `i` is present.
pub struct BitVec {
    data: Vec<u8>,
    length: usize,
}

impl View for BitVec {
    type V = Seq<bool>;

    closed spec fn view(&self) -> Seq<bool> {
        Seq::new(self.length as nat, |i: int| byte_bit(self.data@[i / 8], (i % 8) as u8))
    }
}

impl BitVec {
    /// The packed bytes cover exactly the bits in use.
    pub closed spec fn wf(&self) -> bool {
        self.data@.len() == (self.length as int + 7) / 8
    }

    pub fn new() -> (r: BitVec)
        ensures
            r.wf(),
            r@ == Seq::<bool>::empty(),
    {
        let r = BitVec { data: Vec::new(), length: 0 };
        assert(r@ =~= Seq::<bool>::empty());
        r
    }

    pub fn with_capacity(capacity: usize) -> (r: BitVec)
        ensures
            r.wf(),
            r@ == Seq::<bool>::empty(),
    {
        let r = BitVec { data: Vec::with_capacity(capacity / 8 + 1), length: 0 };
        assert(r@ =~= Seq::<bool>::empty());
        r
    }

    pub fn len(&self) -> (r: usize)
        ensures
            r == self@.len(),
    {
        self.length
    }

    pub fn get(&self, idx: usize) -> (r: bool)
        requires
            self.wf(),
            idx < self@.len(),
        ensures
            r == self@[idx as int],
    {
        let b = self.data[idx / 8];
        let k = (idx % 8) as u8;
        (b >> k) & 1u8 == 1u8
    }

    pub fn set(&mut self, idx: usize, value: bool)
        requires
            old(self).wf(),
            idx < old(self)@.len(),
        ensures
            final(self).wf(),
            final(self)@ == old(self)@.update(idx as int, value),
    {
        let pos = idx / 8;
        let k = (idx % 8) as u8;
        let b = self.data[pos];
        let nb = if value {
            b | (1u8 << k)
        } else {
            b & !(1u8 << k)
        };
        self.data.set(pos, nb);
        proof {
            let pre = old(self)@;
            assert forall|i: int| 0 <= i < pre.len() implies #[trigger] self@[i] == pre.update(
                idx as int,
                value,
            )[i] by {
                if i / 8 == pos as int {
                    lemma_byte_with_bit(b, k, value, (i % 8) as u8);
                }
            }
            assert(self@ =~= pre.update(idx as int, value));
        }
    }

    pub fn push(&mut self, value: bool)
        requires
            old(self).wf(),
            old(self)@.len() < usize::MAX,
        ensures
            final(self).wf(),
            final(self)@ == old(self)@.push(value),
    {
        let idx = self.length;
        let k = (idx % 8) as u8;
        if k == 0 {
            self.data.push(if value { 1u8 } else { 0u8 });
            self.length = idx + 1;
            proof {
                lemma_fresh_byte(value);
                let pre = old(self)@;
                assert forall|i: int| 0 <= i < pre.len() + 1 implies #[trigger] self@[i]
                    == pre.push(value)[i] by {
                    if i < pre.len() {
                        assert(i / 8 < idx as int / 8);
                    }
                }
                assert(self@ =~= pre.push(value));
            }
        } else {
            let pos = idx / 8;
            let b = self.data[pos];
            let nb = if value {
                b | (1u8 << k)
            } else {
                b & !(1u8 << k)
            };
            self.data.set(pos, nb);
            self.length = idx + 1;
            proof {
                let pre = old(self)@;
                assert forall|i: int| 0 <= i < pre.len() + 1 implies #[trigger] self@[i]
                    == pre.push(value)[i] by {
                    if i / 8 == pos as int {
                        lemma_byte_with_bit(b, k, value, (i % 8) as u8);
                    }
                }
                assert(self@ =~= pre.push(value));
            }
        }
    }
}

/// Whether row `i` is present in every one of `masks`.
pub open spec fn all_present(masks: Seq<Seq<bool>>, i: int) -> bool {
    forall|j: int| 0 <= j < masks.len() ==> #[trigger] masks[j][i]
}

/// The presence masks of a group of columns.
pub open spec fn masks_of(vecs: Seq<&BitVec>) -> Seq<Seq<bool>> {
    Seq::new(vecs.len(), |j: int| vecs[j]@)
}

/// Walks `size` rows of several presence masks at once and yields, for each
/// row, whether that row is present in all of them.
pub struct BitAndIterator<'a> {
    vecs: &'a [&'a BitVec],
    index: usize,
    size: usize,
}

impl<'a> BitAndIterator<'a> {
    pub closed spec fn wf(&self) -> bool {
        &&& self.index <= self.size
        &&& forall|j: int|
            0 <= j < self.vecs@.len() ==> (#[trigger] self.vecs@[j]).wf() && self.vecs@[j]@.len()
                == self.size
    }

    /// The rows still to be yielded.
    pub closed spec fn remaining(&self) -> Seq<bool> {
        Seq::new(
            (self.size - self.index) as nat,
            |i: int| all_present(masks_of(self.vecs@), i + self.index),
        )
    }

    /// Every mask must hold exactly `size` rows.
    pub fn new(vecs: &'a [&'a BitVec], size: usize) -> (r: BitAndIterator<'a>)
        requires
            forall|j: int|
                0 <= j < vecs@.len() ==> (#[trigger] vecs@[j]).wf() && vecs@[j]@.len() == size,
        ensures
            r.wf(),
            r.remaining() == Seq::new(size as nat, |i: int| all_present(masks_of(vecs@), i)),
    {
        let r = BitAndIterator { vecs, index: 0, size };
        assert(r.remaining() =~= Seq::new(size as nat, |i: int| all_present(masks_of(vecs@), i)));
        r
    }

    pub fn next(&mut self) -> (r: Option<bool>)
        requires
            old(self).wf(),
        ensures
            final(self).wf(),
            old(self).remaining().len() == 0 ==> r.is_none() && final(self).remaining()
                == old(self).remaining(),
            old(self).remaining().len() > 0 ==> r == Some(old(self).remaining()[0])
                && final(self).remaining() == old(self).remaining().drop_first(),
    {
        if self.index >= self.size {
            return None;
        }
        let i = self.index;
        let mut acc = true;
        let mut j: usize = 0;
        while j < self.vecs.len()
            invariant
                self.wf(),
                self.index == i,
                i < self.size,
                j <= self.vecs@.len(),
                acc == forall|t: int| 0 <= t < j ==> #[trigger] self.vecs@[t]@[i as int],
            decreases self.vecs@.len() - j,
        {
            let present = self.vecs[j].get(i);
            proof {
                assert(self.vecs@[j as int].wf());
            }
            if !present {
                acc = false;
            }
            j = j + 1;
            proof {
                if acc {
                    assert forall|t: int| 0 <= t < j implies #[trigger] self.vecs@[t]@[i as int] by {
                        if t < j - 1 {
                        }
                    }
                }
            }
        }
        let ghost pre = self.remaining();
        self.index = i + 1;
        proof {
            assert(self.remaining() =~= pre.drop_first());
            let masks = masks_of(self.vecs@);
            assert forall|t: int| 0 <= t < masks.len() implies #[trigger] masks[t] == self.vecs@[t]@ by {
            }
            if !acc {
                let t = choose|t: int| 0 <= t < self.vecs@.len() && !#[trigger] self.vecs@[t]@[i as int];
                assert(!masks[t][i as int]);
            }
            assert(acc == all_present(masks, i as int));
        }
        Some(acc)
    }
}

/// Collects, for each of `size` rows, whether that row is present in every
/// one of `vecs`.
pub fn bit_and_all(vecs: &[&BitVec], size: usize) -> (r: Vec<bool>)
    requires
        forall|j: int| 0 <= j < vecs@.len() ==> (#[trigger] vecs@[j]).wf() && vecs@[j]@.len() == size,
    ensures
        r@ == Seq::new(size as nat, |i: int| all_present(masks_of(vecs@), i)),
{
    let ghost full = Seq::new(size as nat, |i: int| all_present(masks_of(vecs@), i));
    let mut it = BitAndIterator::new(vecs, size);
    let mut out: Vec<bool> = Vec::with_capacity(size);
    loop
        invariant
            it.wf(),
            full == Seq::new(size as nat, |i: int| all_present(masks_of(vecs@), i)),
            out@ + it.remaining() == full,
        decreases it.remaining().len(),
    {
        let ghost rest = it.remaining();
        match it.next() {
            Some(b) => {
                out.push(b);
                assert(out@ + it.remaining() =~= full) by {
                    assert(rest =~= seq![b] + rest.drop_first());
                }
            },
            None => {
                assert(out@ =~= full);
                return out;
            },
        }
    }
}

} // verus!
