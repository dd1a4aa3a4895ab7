use vstd::prelude::*;

use crate::bit_vec::BitVec;
use crate::types::{opt_view, Bytes};
use crate::{presence, ChunkedVec};

verus! {

/// A column of byte strings: all rows share one buffer, row `i` being
/// `data[offsets[i]..offsets[i + 1]]`, beside a presence mask.
pub struct ChunkedVecBytes {
    data: Vec<u8>,
    bitmap: BitVec,
    offsets: Vec<usize>,
}

impl View for ChunkedVecBytes {
    type V = Seq<Option<Seq<u8>>>;

    closed spec fn view(&self) -> Seq<Option<Seq<u8>>> {
        Seq::new(
            self.bitmap@.len(),
            |i: int|
                if self.bitmap@[i] {
                    Some(self.data@.subrange(self.offsets@[i] as int, self.offsets@[i + 1] as int))
                } else {
                    None
                },
        )
    }
}

impl ChunkedVecBytes {
    /// The offsets start at zero and never decrease; bytes past the last one
    /// belong to a row still being written.
    pub closed spec fn wf_open(&self) -> bool {
        &&& self.bitmap.wf()
        &&& self.offsets@.len() == self.bitmap@.len() + 1
        &&& self.offsets@[0] == 0
        &&& forall|i: int, j: int|
            0 <= i <= j < self.offsets@.len() ==> #[trigger] self.offsets@[i]
                <= #[trigger] self.offsets@[j]
        &&& self.offsets@.last() <= self.data@.len()
    }

    /// Every byte of the buffer belongs to a finished row.
    pub closed spec fn wf(&self) -> bool {
        self.wf_open() && self.offsets@.last() == self.data@.len()
    }

    /// The number of bytes in the shared buffer.
    pub closed spec fn byte_len(&self) -> nat {
        self.data@.len()
    }

    /// The bytes written after the last finished row.
    pub closed spec fn pending(&self) -> Seq<u8> {
        self.data@.subrange(self.offsets@.last() as int, self.data@.len() as int)
    }

    /// The offsets of the rows into the shared buffer.
    pub closed spec fn offsets_view(&self) -> Seq<usize> {
        self.offsets@
    }

    /// The shared buffer.
    pub closed spec fn data_view(&self) -> Seq<u8> {
        self.data@
    }

    /// How a well-formed column is laid out: one offset more than rows,
    /// starting at zero, never decreasing, ending at the buffer's length; a
    /// present row is the buffer between its two offsets.
    pub proof fn lemma_layout(&self)
        requires
            self.wf(),
        ensures
            self.offsets_view().len() == self@.len() + 1,
            self.offsets_view()[0] == 0,
            forall|i: int, j: int|
                0 <= i <= j < self.offsets_view().len() ==> #[trigger] self.offsets_view()[i]
                    <= #[trigger] self.offsets_view()[j],
            self.offsets_view().last() == self.byte_len(),
            self.byte_len() == self.data_view().len(),
            forall|i: int|
                0 <= i < self@.len() && (#[trigger] self@[i]) is Some ==> self@[i] == Some(
                    self.data_view().subrange(
                        self.offsets_view()[i] as int,
                        self.offsets_view()[i + 1] as int,
                    ),
                ),
    {
    }

    pub fn new() -> (r: Self)
        ensures
            r.wf(),
            r@ == Seq::<Option<Seq<u8>>>::empty(),
            r.byte_len() == 0,
    {
        Self::with_capacity(0)
    }

    pub fn with_capacity(capacity: usize) -> (r: Self)
        ensures
            r.wf(),
            r@ == Seq::<Option<Seq<u8>>>::empty(),
            r.byte_len() == 0,
    {
        let mut offsets: Vec<usize> = Vec::with_capacity(capacity / 2 + 1);
        offsets.push(0);
        let r = ChunkedVecBytes { data: Vec::new(), bitmap: BitVec::with_capacity(capacity), offsets };
        assert(r@ =~= Seq::<Option<Seq<u8>>>::empty());
        r
    }

    pub fn len(&self) -> (r: usize)
        requires
            self.wf(),
        ensures
            r == self@.len(),
    {
        self.bitmap.len()
    }

    pub fn is_empty(&self) -> (r: bool)
        requires
            self.wf(),
        ensures
            r == (self@.len() == 0),
    {
        self.bitmap.len() == 0
    }

    /// Appends bytes to the row being written.
    fn append_pending(&mut self, value: &[u8])
        requires
            old(self).wf_open(),
        ensures
            final(self).wf_open(),
            final(self)@ == old(self)@,
            final(self).offsets_view() == old(self).offsets_view(),
            final(self).pending() == old(self).pending() + value@,
            final(self).byte_len() == old(self).byte_len() + value@.len(),
            final(self).data_view() == old(self).data_view() + value@,
    {
        let ghost pre = self@;
        let ghost pre_data = self.data@;
        let mut i: usize = 0;
        while i < value.len()
            invariant
                self.wf_open(),
                self.offsets@ == old(self).offsets@,
                self.bitmap@ == old(self).bitmap@,
                i <= value@.len(),
                self.data@ == pre_data + value@.subrange(0, i as int),
            decreases value@.len() - i,
        {
            self.data.push(value[i]);
            i = i + 1;
            assert(self.data@ =~= pre_data + value@.subrange(0, i as int));
        }
        assert(value@.subrange(0, i as int) =~= value@);
        assert forall|r: int| 0 <= r < pre.len() implies #[trigger] self@[r] == pre[r] by {
            assert(self.offsets@[r] <= self.offsets@[r + 1]);
            assert(self.offsets@[r + 1] <= self.offsets@.last());
            assert(self.data@.subrange(self.offsets@[r] as int, self.offsets@[r + 1] as int)
                =~= pre_data.subrange(self.offsets@[r] as int, self.offsets@[r + 1] as int));
        }
        assert(self@ =~= pre);
        assert(self.pending() =~= old(self).pending() + value@);
    }

    /// Closes the row being written: `present` tells whether it is present.
    fn finish_row(&mut self, present: bool)
        requires
            old(self).wf_open(),
        ensures
            final(self).wf(),
            final(self)@ == old(self)@.push(
                if present {
                    Some(old(self).pending())
                } else {
                    None
                },
            ),
            final(self).byte_len() == old(self).byte_len(),
            final(self).data_view() == old(self).data_view(),
            final(self).offsets_view() == old(self).offsets_view().push(old(self).data_view().len() as usize),
    {
        let ghost pre = self@;
        let ghost pending = self.pending();
        let end = self.data.len();
        self.offsets.push(end);
        let _ = self.offsets.len();
        self.bitmap.push(present);
        assert forall|r: int| 0 <= r < pre.len() implies #[trigger] self@[r] == pre[r] by {
            assert(self.offsets@[r] == old(self).offsets@[r]);
            assert(self.offsets@[r + 1] == old(self).offsets@[r + 1]);
        }
        assert(self@ =~= pre.push(
            if present {
                Some(pending)
            } else {
                None
            },
        ));
    }

    /// Appends a present row holding a copy of `value`.
    pub fn push_data_ref(&mut self, value: &[u8])
        requires
            old(self).wf(),
        ensures
            final(self).wf(),
            final(self)@ == old(self)@.push(Some(value@)),
            final(self).byte_len() == old(self).byte_len() + value@.len(),
            final(self).data_view() == old(self).data_view() + value@,
            final(self).offsets_view() == old(self).offsets_view().push(final(self).byte_len() as usize),
    {
        self.append_pending(value);
        assert(old(self).pending() =~= Seq::<u8>::empty());
        assert(self.pending() =~= value@);
        self.finish_row(true);
    }

    /// Appends a present row holding `value`.
    pub fn push_data(&mut self, value: Bytes)
        requires
            old(self).wf(),
        ensures
            final(self).wf(),
            final(self)@ == old(self)@.push(Some(value@)),
            final(self).byte_len() == old(self).byte_len() + value@.len(),
            final(self).data_view() == old(self).data_view() + value@,
            final(self).offsets_view() == old(self).offsets_view().push(final(self).byte_len() as usize),
    {
        self.push_data_ref(value.as_slice())
    }

    /// Appends an absent row.
    pub fn push_null(&mut self)
        requires
            old(self).wf(),
        ensures
            final(self).wf(),
            final(self)@ == old(self)@.push(None),
            final(self).byte_len() == old(self).byte_len(),
            final(self).data_view() == old(self).data_view(),
            final(self).offsets_view() == old(self).offsets_view().push(final(self).byte_len() as usize),
    {
        self.finish_row(false);
    }

    pub fn push_ref(&mut self, value: Option<&[u8]>)
        requires
            old(self).wf(),
        ensures
            final(self).wf(),
            final(self)@ == old(self)@.push(opt_view(value)),
            final(self).byte_len() == old(self).byte_len() + match value {
                Some(v) => v@.len(),
                None => 0,
            },
            final(self).data_view() == old(self).data_view() + match value {
                Some(v) => v@,
                None => Seq::<u8>::empty(),
            },
            final(self).offsets_view() == old(self).offsets_view().push(final(self).byte_len() as usize),
    {
        match value {
            Some(v) => self.push_data_ref(v),
            None => self.push_null(),
        }
    }

    pub fn push(&mut self, value: Option<Bytes>)
        requires
            old(self).wf(),
        ensures
            final(self).wf(),
            final(self)@ == old(self)@.push(opt_view(value)),
            final(self).byte_len() == old(self).byte_len() + match value {
                Some(v) => v@.len(),
                None => 0,
            },
            final(self).data_view() == old(self).data_view() + match value {
                Some(v) => v@,
                None => Seq::<u8>::empty(),
            },
            final(self).offsets_view() == old(self).offsets_view().push(final(self).byte_len() as usize),
    {
        match value {
            Some(v) => self.push_data(v),
            None => self.push_null(),
        }
    }

    /// The bytes of row `idx`, or `None` where that row is absent.
    pub fn get_option_ref(&self, idx: usize) -> (r: Option<&[u8]>)
        requires
            self.wf(),
            idx < self@.len(),
        ensures
            opt_view(r) == self@[idx as int],
    {
        if self.bitmap.get(idx) {
            let n = self.offsets.len();
            assert(idx + 1 < n);
            let start = self.offsets[idx];
            let end = self.offsets[idx + 1];
            assert(start <= end);
            Some(vstd::slice::slice_subrange(self.data.as_slice(), start, end))
        } else {
            None
        }
    }

    /// The presence mask.
    pub fn bitmap(&self) -> (r: &BitVec)
        requires
            self.wf(),
        ensures
            r.wf(),
            r@ == presence(self@),
    {
        assert(self.bitmap@ =~= presence(self@));
        &self.bitmap
    }

    /// The offsets of the rows into the shared buffer, one more than the rows.
    pub fn offsets(&self) -> (r: &[usize])
        ensures
            r@ == self.offsets_view(),
    {
        self.offsets.as_slice()
    }

    /// The shared buffer.
    pub fn data(&self) -> (r: &[u8])
        ensures
            r@ == self.data_view(),
    {
        self.data.as_slice()
    }

    /// Hands the column to a writer that adds one row.
    pub fn into_writer(self) -> (r: BytesWriter)
        requires
            self.wf(),
        ensures
            r.wf(),
            r@ == self@,
            r.byte_len() == self.byte_len(),
            r.data_view() == self.data_view(),
            r.offsets_view() == self.offsets_view(),
    {
        BytesWriter { chunked_vec: self }
    }
}

/// Whether two byte strings are equal.
pub fn bytes_equal(a: &[u8], b: &[u8]) -> (r: bool)
    ensures
        r == (a@ == b@),
{
    if a.len() != b.len() {
        return false;
    }
    let mut i: usize = 0;
    while i < a.len()
        invariant
            a@.len() == b@.len(),
            i <= a@.len(),
            a@.subrange(0, i as int) == b@.subrange(0, i as int),
        decreases a@.len() - i,
    {
        if a[i] != b[i] {
            assert(a@.subrange(0, i as int + 1)[i as int] != b@.subrange(0, i as int + 1)[i as int]);
            assert(a@ != b@) by {
                if a@ == b@ {
                    assert(a@[i as int] == b@[i as int]);
                }
            }
            return false;
        }
        assert(a@.subrange(0, i as int + 1) =~= a@.subrange(0, i as int).push(a@[i as int]));
        assert(b@.subrange(0, i as int + 1) =~= b@.subrange(0, i as int).push(b@[i as int]));
        i = i + 1;
    }
    assert(a@ =~= a@.subrange(0, i as int));
    assert(b@ =~= b@.subrange(0, i as int));
    true
}

impl ChunkedVecBytes {
    /// Whether two columns hold the same rows. Presence is compared first;
    /// two absent rows are equal whatever bytes lie under them.
    pub fn same_rows(&self, other: &ChunkedVecBytes) -> (r: bool)
        requires
            self.wf(),
            other.wf(),
        ensures
            r == (self@ == other@),
    {
        let n = self.len();
        if n != other.len() {
            return false;
        }
        let mut i: usize = 0;
        while i < n
            invariant
                self.wf(),
                other.wf(),
                n == self@.len(),
                n == other@.len(),
                i <= n,
                forall|k: int| 0 <= k < i ==> self@[k] == other@[k],
            decreases n - i,
        {
            let a = self.get_option_ref(i);
            let b = other.get_option_ref(i);
            let same = match (a, b) {
                (None, None) => true,
                (Some(x), Some(y)) => bytes_equal(x, y),
                _ => false,
            };
            if !same {
                return false;
            }
            i = i + 1;
        }
        assert(self@ =~= other@);
        true
    }
}

impl ChunkedVec<Bytes> for ChunkedVecBytes {
    open spec fn chunked_wf(&self) -> bool {
        self.wf()
    }

    open spec fn chunked_view(&self) -> Seq<Option<Seq<u8>>> {
        self@
    }

    fn chunked_with_capacity(capacity: usize) -> (r: Self) {
        Self::with_capacity(capacity)
    }

    fn chunked_push(&mut self, value: Option<Bytes>) {
        self.push(value)
    }
}

/// Owns a byte column while one row is added to it. The column comes back
/// only through a `BytesGuard`, that is once the row has been finished.
pub struct BytesWriter {
    chunked_vec: ChunkedVecBytes,
}

impl View for BytesWriter {
    type V = Seq<Option<Seq<u8>>>;

    closed spec fn view(&self) -> Seq<Option<Seq<u8>>> {
        self.chunked_vec@
    }
}

impl BytesWriter {
    /// The shared buffer, with any bytes of the row being written.
    pub closed spec fn data_view(&self) -> Seq<u8> {
        self.chunked_vec.data_view()
    }

    /// The offsets of the finished rows.
    pub closed spec fn offsets_view(&self) -> Seq<usize> {
        self.chunked_vec.offsets_view()
    }

    pub closed spec fn wf(&self) -> bool {
        self.chunked_vec.wf()
    }

    pub closed spec fn byte_len(&self) -> nat {
        self.chunked_vec.byte_len()
    }

    /// Starts a row whose bytes come in several pieces.
    pub fn begin(self) -> (r: PartialBytesWriter)
        requires
            self.wf(),
        ensures
            r.wf(),
            r.rows() == self@,
            r.pending() == Seq::<u8>::empty(),
            r.byte_len() == self.byte_len(),
            r.data_view() == self.data_view(),
            r.offsets_view() == self.offsets_view(),
    {
        let r = PartialBytesWriter { chunked_vec: self.chunked_vec };
        assert(r.pending() =~= Seq::<u8>::empty());
        r
    }

    /// Writes a whole row; `None` writes an absent row.
    pub fn write_ref(self, data: Option<&[u8]>) -> (r: BytesGuard)
        requires
            self.wf(),
        ensures
            r.wf(),
            r@ == self@.push(opt_view(data)),
            r.byte_len() == self.byte_len() + match data {
                Some(v) => v@.len(),
                None => 0,
            },
            r.data_view() == self.data_view() + match data {
                Some(v) => v@,
                None => Seq::<u8>::empty(),
            },
            r.offsets_view() == self.offsets_view().push(r.byte_len() as usize),
    {
        let mut chunked_vec = self.chunked_vec;
        chunked_vec.push_ref(data);
        BytesGuard { chunked_vec }
    }

    /// Writes a whole row; `None` writes an absent row.
    pub fn write(self, data: Option<Bytes>) -> (r: BytesGuard)
        requires
            self.wf(),
        ensures
            r.wf(),
            r@ == self@.push(opt_view(data)),
            r.byte_len() == self.byte_len() + match data {
                Some(v) => v@.len(),
                None => 0,
            },
            r.data_view() == self.data_view() + match data {
                Some(v) => v@,
                None => Seq::<u8>::empty(),
            },
            r.offsets_view() == self.offsets_view().push(r.byte_len() as usize),
    {
        let mut chunked_vec = self.chunked_vec;
        chunked_vec.push(data);
        BytesGuard { chunked_vec }
    }
}

/// A row being written piece by piece. Finishing it records the offset that
/// the buffer has reached and marks the row present, even when nothing was
/// written. The writer owns the column: the column comes back only through
/// `finish`, so abandoning the writer abandons the column with it, and no
/// column with a half-recorded row can ever be observed.
pub struct PartialBytesWriter {
    chunked_vec: ChunkedVecBytes,
}

impl PartialBytesWriter {
    /// The shared buffer, with any bytes of the row being written.
    pub closed spec fn data_view(&self) -> Seq<u8> {
        self.chunked_vec.data_view()
    }

    /// The offsets of the finished rows.
    pub closed spec fn offsets_view(&self) -> Seq<usize> {
        self.chunked_vec.offsets_view()
    }

    pub closed spec fn wf(&self) -> bool {
        self.chunked_vec.wf_open()
    }

    /// The finished rows.
    pub closed spec fn rows(&self) -> Seq<Option<Seq<u8>>> {
        self.chunked_vec@
    }

    /// The bytes written so far to the row being written.
    pub closed spec fn pending(&self) -> Seq<u8> {
        self.chunked_vec.pending()
    }

    pub closed spec fn byte_len(&self) -> nat {
        self.chunked_vec.byte_len()
    }

    pub fn partial_write(&mut self, data: &[u8])
        requires
            old(self).wf(),
        ensures
            final(self).wf(),
            final(self).rows() == old(self).rows(),
            final(self).pending() == old(self).pending() + data@,
            final(self).byte_len() == old(self).byte_len() + data@.len(),
            final(self).data_view() == old(self).data_view() + data@,
            final(self).offsets_view() == old(self).offsets_view(),
    {
        self.chunked_vec.append_pending(data);
    }

    pub fn finish(self) -> (r: BytesGuard)
        requires
            self.wf(),
        ensures
            r.wf(),
            r@ == self.rows().push(Some(self.pending())),
            r.byte_len() == self.byte_len(),
            r.data_view() == self.data_view(),
            r.offsets_view() == self.offsets_view().push(self.byte_len() as usize),
    {
        let mut chunked_vec = self.chunked_vec;
        chunked_vec.finish_row(true);
        BytesGuard { chunked_vec }
    }
}

/// Shows that a row was written; gives the column back.
pub struct BytesGuard {
    chunked_vec: ChunkedVecBytes,
}

impl View for BytesGuard {
    type V = Seq<Option<Seq<u8>>>;

    closed spec fn view(&self) -> Seq<Option<Seq<u8>>> {
        self.chunked_vec@
    }
}

impl BytesGuard {
    /// The shared buffer, with any bytes of the row being written.
    pub closed spec fn data_view(&self) -> Seq<u8> {
        self.chunked_vec.data_view()
    }

    /// The offsets of the finished rows.
    pub closed spec fn offsets_view(&self) -> Seq<usize> {
        self.chunked_vec.offsets_view()
    }

    pub closed spec fn wf(&self) -> bool {
        self.chunked_vec.wf()
    }

    pub closed spec fn byte_len(&self) -> nat {
        self.chunked_vec.byte_len()
    }

    pub fn into_inner(self) -> (r: ChunkedVecBytes)
        requires
            self.wf(),
        ensures
            r.wf(),
            r@ == self@,
            r.byte_len() == self.byte_len(),
            r.data_view() == self.data_view(),
            r.offsets_view() == self.offsets_view(),
    {
        self.chunked_vec
    }
}

} // verus!
