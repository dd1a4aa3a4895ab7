use vstd::prelude::*;

use crate::bit_vec::BitVec;
use crate::chunked_vec_bytes::ChunkedVecBytes;
use crate::types::{opt_view, Json, JsonRef};
use crate::{presence, ChunkedVec};

verus! {

/// A column of JSON values in their binary encoding: the payloads are laid
/// out as in a byte column, beside the type code of each row.
pub struct ChunkedVecJson {
    payloads: ChunkedVecBytes,
    type_codes: Vec<u8>,
}

impl View for ChunkedVecJson {
    type V = Seq<Option<(u8, Seq<u8>)>>;

    closed spec fn view(&self) -> Seq<Option<(u8, Seq<u8>)>> {
        Seq::new(
            self.payloads@.len(),
            |i: int|
                match self.payloads@[i] {
                    Some(p) => Some((self.type_codes@[i], p)),
                    None => None,
                },
        )
    }
}

impl ChunkedVecJson {
    pub closed spec fn wf(&self) -> bool {
        self.payloads.wf() && self.type_codes@.len() == self.payloads@.len()
    }

    /// The number of payload bytes held.
    pub closed spec fn byte_len(&self) -> nat {
        self.payloads.byte_len()
    }

    pub fn new() -> (r: Self)
        ensures
            r.wf(),
            r@ == Seq::<Option<(u8, Seq<u8>)>>::empty(),
            r.byte_len() == 0,
    {
        Self::with_capacity(0)
    }

    pub fn with_capacity(capacity: usize) -> (r: Self)
        ensures
            r.wf(),
            r@ == Seq::<Option<(u8, Seq<u8>)>>::empty(),
            r.byte_len() == 0,
    {
        let r = ChunkedVecJson {
            payloads: ChunkedVecBytes::with_capacity(capacity),
            type_codes: Vec::with_capacity(capacity),
        };
        assert(r@ =~= Seq::<Option<(u8, Seq<u8>)>>::empty());
        r
    }

    pub fn len(&self) -> (r: usize)
        requires
            self.wf(),
        ensures
            r == self@.len(),
    {
        self.payloads.len()
    }

    pub fn is_empty(&self) -> (r: bool)
        requires
            self.wf(),
        ensures
            r == (self@.len() == 0),
    {
        self.payloads.is_empty()
    }

    /// Appends a present row holding a copy of `value`.
    pub fn push_data_ref(&mut self, value: JsonRef<'_>)
        requires
            old(self).wf(),
        ensures
            final(self).wf(),
            final(self)@ == old(self)@.push(Some(value@)),
            final(self).byte_len() == old(self).byte_len() + value@.1.len(),
    {
        let ghost pre = self@;
        self.payloads.push_data_ref(value.value);
        self.type_codes.push(value.type_code);
        assert(self@ =~= pre.push(Some(value@)));
    }

    /// Appends a present row holding `value`.
    pub fn push_data(&mut self, value: Json)
        requires
            old(self).wf(),
        ensures
            final(self).wf(),
            final(self)@ == old(self)@.push(Some(value@)),
            final(self).byte_len() == old(self).byte_len() + value@.1.len(),
    {
        self.push_data_ref(value.as_ref())
    }

    /// Appends an absent row.
    pub fn push_null(&mut self)
        requires
            old(self).wf(),
        ensures
            final(self).wf(),
            final(self)@ == old(self)@.push(None),
            final(self).byte_len() == old(self).byte_len(),
    {
        let ghost pre = self@;
        self.payloads.push_null();
        self.type_codes.push(0);
        assert(self@ =~= pre.push(None));
    }

    pub fn push_ref(&mut self, value: Option<JsonRef<'_>>)
        requires
            old(self).wf(),
        ensures
            final(self).wf(),
            final(self)@ == old(self)@.push(opt_view(value)),
    {
        match value {
            Some(v) => self.push_data_ref(v),
            None => self.push_null(),
        }
    }

    pub fn push(&mut self, value: Option<Json>)
        requires
            old(self).wf(),
        ensures
            final(self).wf(),
            final(self)@ == old(self)@.push(opt_view(value)),
    {
        match value {
            Some(v) => self.push_data(v),
            None => self.push_null(),
        }
    }

    /// The value at row `idx`, or `None` where that row is absent.
    pub fn get_option_ref(&self, idx: usize) -> (r: Option<JsonRef<'_>>)
        requires
            self.wf(),
            idx < self@.len(),
        ensures
            opt_view(r) == self@[idx as int],
    {
        match self.payloads.get_option_ref(idx) {
            Some(p) => Some(JsonRef::new(self.type_codes[idx], p)),
            None => None,
        }
    }

    /// The presence mask.
    pub fn bitmap(&self) -> (r: &BitVec)
        requires
            self.wf(),
        ensures
            r.wf(),
            r@ == presence(self@),
    {
        let r = self.payloads.bitmap();
        assert(r@ =~= presence(self@));
        r
    }
}

impl ChunkedVecJson {
    /// Whether two columns hold the same rows. Presence is compared first;
    /// two absent rows are equal whatever lies under them.
    pub fn same_rows(&self, other: &ChunkedVecJson) -> (r: bool)
        requires
            self.wf(),
            other.wf(),
        ensures
            r == (self@ == other@),
    {
        let n = self.len();
        if n != other.len() {
            return false;
        }
        let mut i: usize = 0;
        while i < n
            invariant
                self.wf(),
                other.wf(),
                n == self@.len(),
                n == other@.len(),
                i <= n,
                forall|k: int| 0 <= k < i ==> self@[k] == other@[k],
            decreases n - i,
        {
            let a = self.get_option_ref(i);
            let b = other.get_option_ref(i);
            let same = match (a, b) {
                (None, None) => true,
                (Some(x), Some(y)) => x.type_code == y.type_code && crate::chunked_vec_bytes::bytes_equal(
                    x.value,
                    y.value,
                ),
                _ => false,
            };
            if !same {
                return false;
            }
            i = i + 1;
        }
        assert(self@ =~= other@);
        true
    }
}

impl ChunkedVec<Json> for ChunkedVecJson {
    open spec fn chunked_wf(&self) -> bool {
        self.wf()
    }

    open spec fn chunked_view(&self) -> Seq<Option<(u8, Seq<u8>)>> {
        self@
    }

    fn chunked_with_capacity(capacity: usize) -> (r: Self) {
        Self::with_capacity(capacity)
    }

    fn chunked_push(&mut self, value: Option<Json>) {
        self.push(value)
    }
}

} // verus!
