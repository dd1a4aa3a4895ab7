use vstd::prelude::*;

verus! {

/// The largest number of rows in one batch.
pub const BATCH_MAX_SIZE: usize = 1024;

/// Maps the rows of a filtered view to the rows of the columns under it.
#[derive(Clone, Copy, Debug)]
pub enum LogicalRows<'a> {
    /// Row `i` is physical row `i`; no index array is held.
    Identical { size: usize },
    /// Row `i` is physical row `logical_rows[i]`.
    Ref { logical_rows: &'a [usize] },
}

impl<'a> LogicalRows<'a> {
    pub open spec fn spec_len(&self) -> nat {
        match self {
            LogicalRows::Identical { size } => *size as nat,
            LogicalRows::Ref { logical_rows } => logical_rows@.len(),
        }
    }

    /// The physical row of logical row `idx`.
    pub open spec fn spec_get(&self, idx: int) -> int {
        match self {
            LogicalRows::Identical { .. } => idx,
            LogicalRows::Ref { logical_rows } => logical_rows@[idx] as int,
        }
    }

    pub fn new_ident(size: usize) -> (r: LogicalRows<'a>)
        ensures
            r == (LogicalRows::Identical { size }),
    {
        LogicalRows::Identical { size }
    }

    pub fn from_slice(logical_rows: &'a [usize]) -> (r: LogicalRows<'a>)
        ensures
            r == (LogicalRows::Ref { logical_rows }),
    {
        LogicalRows::Ref { logical_rows }
    }

    pub fn is_ident(&self) -> (r: bool)
        ensures
            r == (*self is Identical),
    {
        match self {
            LogicalRows::Identical { .. } => true,
            LogicalRows::Ref { .. } => false,
        }
    }

    pub fn len(&self) -> (r: usize)
        ensures
            r == self.spec_len(),
    {
        match self {
            LogicalRows::Identical { size } => *size,
            LogicalRows::Ref { logical_rows } => logical_rows.len(),
        }
    }

    pub fn is_empty(&self) -> (r: bool)
        ensures
            r == (self.spec_len() == 0),
    {
        self.len() == 0
    }

    /// The physical row of logical row `idx`.
    pub fn get_idx(&self, idx: usize) -> (r: usize)
        requires
            idx < self.spec_len(),
        ensures
            r == self.spec_get(idx as int),
    {
        match self {
            LogicalRows::Identical { .. } => idx,
            LogicalRows::Ref { logical_rows } => logical_rows[idx],
        }
    }
}

/// The identical mapping over a full batch.
pub fn identical_logical_rows() -> (r: LogicalRows<'static>)
    ensures
        r == (LogicalRows::Identical { size: BATCH_MAX_SIZE }),
{
    LogicalRows::Identical { size: BATCH_MAX_SIZE }
}

/// The identical mapping sends every row in range to itself.
pub proof fn lemma_identical_maps_to_self(size: usize)
    ensures
        forall|i: int|
            0 <= i < size ==> #[trigger] (LogicalRows::Identical { size }).spec_get(i) == i,
{
}

} // verus!
