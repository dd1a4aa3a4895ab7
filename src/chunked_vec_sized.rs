use vstd::prelude::*;

use crate::bit_vec::BitVec;
use crate::evaluable::Evaluable;
use crate::types::opt_view;
use crate::{presence, ChunkedVec};

verus! {

/// A column of fixed-size values: one slot per row, and a presence mask.
/// The slot under an absent row holds an arbitrary value that is never read.
pub struct ChunkedVecSized<T> {
    data: Vec<T>,
    bitmap: BitVec,
}

impl<T: View> View for ChunkedVecSized<T> {
    type V = Seq<Option<T::V>>;

    closed spec fn view(&self) -> Seq<Option<T::V>> {
        Seq::new(
            self.bitmap@.len(),
            |i: int|
                if self.bitmap@[i] {
                    Some(self.data@[i]@)
                } else {
                    None
                },
        )
    }
}

impl<T: View> ChunkedVecSized<T> {
    /// Every row has a slot and a mask bit.
    pub closed spec fn wf(&self) -> bool {
        self.bitmap.wf() && self.data@.len() == self.bitmap@.len()
    }

    pub fn new() -> (r: Self)
        ensures
            r.wf(),
            r@ == Seq::<Option<T::V>>::empty(),
    {
        Self::with_capacity(0)
    }

    pub fn with_capacity(capacity: usize) -> (r: Self)
        ensures
            r.wf(),
            r@ == Seq::<Option<T::V>>::empty(),
    {
        let r = ChunkedVecSized { data: Vec::with_capacity(capacity), bitmap: BitVec::with_capacity(capacity) };
        assert(r@ =~= Seq::<Option<T::V>>::empty());
        r
    }

    pub fn len(&self) -> (r: usize)
        requires
            self.wf(),
        ensures
            r == self@.len(),
    {
        self.bitmap.len()
    }

    pub fn is_empty(&self) -> (r: bool)
        requires
            self.wf(),
        ensures
            r == (self@.len() == 0),
    {
        self.bitmap.len() == 0
    }

    /// Appends a present row holding `value`.
    pub fn push_data(&mut self, value: T)
        requires
            old(self).wf(),
        ensures
            final(self).wf(),
            final(self)@ == old(self)@.push(Some(value@)),
    {
        let ghost pre = self@;
        let ghost v = value@;
        self.data.push(value);
        let _ = self.data.len();
        self.bitmap.push(true);
        assert(self@ =~= pre.push(Some(v)));
    }

    /// The value at row `idx`, or `None` where that row is absent.
    pub fn get_option_ref(&self, idx: usize) -> (r: Option<&T>)
        requires
            self.wf(),
            idx < self@.len(),
        ensures
            opt_view(r) == self@[idx as int],
    {
        if self.bitmap.get(idx) {
            Some(&self.data[idx])
        } else {
            None
        }
    }

    /// The presence mask.
    pub fn bitmap(&self) -> (r: &BitVec)
        requires
            self.wf(),
        ensures
            r.wf(),
            r@ == presence(self@),
    {
        assert(self.bitmap@ =~= presence(self@));
        &self.bitmap
    }
}

impl<T: View + Default> ChunkedVecSized<T> {
    /// Appends an absent row.
    pub fn push_null(&mut self)
        requires
            old(self).wf(),
        ensures
            final(self).wf(),
            final(self)@ == old(self)@.push(None),
    {
        let ghost pre = self@;
        self.data.push(T::default());
        let _ = self.data.len();
        self.bitmap.push(false);
        assert(self@ =~= pre.push(None));
    }

    pub fn push(&mut self, value: Option<T>)
        requires
            old(self).wf(),
        ensures
            final(self).wf(),
            final(self)@ == old(self)@.push(opt_view(value)),
    {
        match value {
            Some(v) => self.push_data(v),
            None => self.push_null(),
        }
    }
}

/// Whether two rows agree: both absent, or both present with equal values.
pub open spec fn row_agrees<T: Evaluable>(x: Option<T::V>, y: Option<T::V>) -> bool {
    match (x, y) {
        (None, None) => true,
        (Some(p), Some(q)) => T::spec_same(p, q),
        _ => false,
    }
}

/// Whether two columns agree row by row.
pub open spec fn rows_agree<T: Evaluable>(a: Seq<Option<T::V>>, b: Seq<Option<T::V>>) -> bool {
    a.len() == b.len() && forall|k: int| 0 <= k < a.len() ==> #[trigger] row_agrees::<T>(a[k], b[k])
}

impl<T: Evaluable> ChunkedVecSized<T> {
    /// Whether two columns hold the same rows. Presence is compared first;
    /// two absent rows are equal whatever values lie under them.
    pub fn same_rows(&self, other: &ChunkedVecSized<T>) -> (r: bool)
        requires
            self.wf(),
            other.wf(),
        ensures
            r == rows_agree::<T>(self@, other@),
    {
        let n = self.len();
        if n != other.len() {
            return false;
        }
        let mut i: usize = 0;
        while i < n
            invariant
                self.wf(),
                other.wf(),
                n == self@.len(),
                n == other@.len(),
                i <= n,
                forall|k: int| 0 <= k < i ==> #[trigger] row_agrees::<T>(self@[k], other@[k]),
            decreases n - i,
        {
            let a = self.get_option_ref(i);
            let b = other.get_option_ref(i);
            let same = match (a, b) {
                (None, None) => true,
                (Some(x), Some(y)) => x.same_value(y),
                _ => false,
            };
            if !same {
                assert(!row_agrees::<T>(self@[i as int], other@[i as int]));
                return false;
            }
            i = i + 1;
        }
        true
    }
}

impl<T: View + Default> ChunkedVec<T> for ChunkedVecSized<T> {
    open spec fn chunked_wf(&self) -> bool {
        self.wf()
    }

    open spec fn chunked_view(&self) -> Seq<Option<T::V>> {
        self@
    }

    fn chunked_with_capacity(capacity: usize) -> (r: Self) {
        Self::with_capacity(capacity)
    }

    fn chunked_push(&mut self, value: Option<T>) {
        self.push(value)
    }
}

} // verus!
