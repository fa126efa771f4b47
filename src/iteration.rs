use vstd::prelude::*;
use crate::error::{bridged, Error, ErrorModel, ErrorReport};
use crate::status::{count_result, STATUS_SUCCESS};

verus! {

/// The indices, in order, that a cursor over `count` items yields from
/// `position` on.
pub open spec fn indices_from(count: nat, position: nat) -> Seq<int> {
    Seq::new((count - position) as nat, |k: int| position + k)
}

/// Walks the indices of a native indexed collection. The number of items is
/// read once, when the cursor is made; each step hands out the next index to
/// fetch. A cursor is not rewound: a new one is made to walk again.
pub struct IndexCursor {
    count: u32,
    position: u32,
}

impl IndexCursor {
    /// The number of items, fixed when the cursor was made.
    pub closed spec fn count(&self) -> nat {
        self.count as nat
    }

    /// How many indices were handed out so far.
    pub closed spec fn position(&self) -> nat {
        self.position as nat
    }

    /// The cursor's invariant: its position never passes its count, and each
    /// index fits the native index type.
    pub open spec fn wf(&self) -> bool {
        self.position() <= self.count() && self.count() <= i32::MAX
    }

    /// A cursor over `count` items, at the first one.
    pub fn new(count: i32) -> (r: IndexCursor)
        requires
            count >= 0,
        ensures
            r.wf(),
            r.count() == count,
            r.position() == 0,
    {
        IndexCursor { count: count as u32, position: 0 }
    }

    /// Makes a cursor from the outcome of the native "get number of" call:
    /// a failed count fails the making of the cursor, never its steps.
    pub fn begin(status: i32, count: i32, report: ErrorReport) -> (r: Result<IndexCursor, Error>)
        ensures
            status == STATUS_SUCCESS && count >= 0 ==> r is Ok && r->Ok_0.wf() && r->Ok_0.count()
                == count && r->Ok_0.position() == 0,
            status == STATUS_SUCCESS && count < 0 ==> r is Err && r->Err_0@
                == ErrorModel::OpaqueFailure,
            status != STATUS_SUCCESS ==> r is Err && r->Err_0@ == bridged(status as int, report),
    {
        match count_result(status, count, report) {
            Ok(n) => Ok(IndexCursor::new(n as i32)),
            Err(e) => Err(e),
        }
    }

    /// The next index to fetch, or `None` once every index was handed out.
    pub fn next_index(&mut self) -> (r: Option<i32>)
        requires
            old(self).wf(),
        ensures
            final(self).wf(),
            final(self).count() == old(self).count(),
            old(self).position() < old(self).count() ==> r == Some(old(self).position() as i32)
                && final(self).position() == old(self).position() + 1,
            old(self).position() >= old(self).count() ==> r is None && final(self).position()
                == old(self).position(),
    {
        if self.position < self.count {
            let i = self.position;
            self.position = self.position + 1;
            Some(i as i32)
        } else {
            None
        }
    }

    /// How many indices are still to come.
    pub fn remaining(&self) -> (r: u32)
        requires
            self.wf(),
        ensures
            r == self.count() - self.position(),
    {
        self.count - self.position
    }

    /// Hands out every index still to come, in order, leaving the cursor
    /// exhausted.
    pub fn drain(&mut self) -> (r: Vec<i32>)
        requires
            old(self).wf(),
        ensures
            final(self).wf(),
            final(self).count() == old(self).count(),
            final(self).position() == old(self).count(),
            r@.len() == indices_from(old(self).count(), old(self).position()).len(),
            forall|k: int|
                0 <= k < r@.len() ==> r@[k] as int == indices_from(
                    old(self).count(),
                    old(self).position(),
                )[k],
    {
        let ghost start = self.position();
        let mut r: Vec<i32> = Vec::new();
        while self.position < self.count
            invariant
                self.wf(),
                self.count() == old(self).count(),
                start == old(self).position(),
                start <= self.position(),
                r@.len() == self.position() - start,
                forall|k: int| 0 <= k < r@.len() ==> r@[k] as int == start + k,
            decreases self.count() - self.position(),
        {
            if let Some(i) = self.next_index() {
                r.push(i);
            }
        }
        r
    }
}

/// A fresh cursor over `n` items yields each index below `n` exactly once,
/// in increasing order; and two fresh cursors over the same count yield the
/// same indices, so walking again means making a new cursor.
pub proof fn lemma_fresh_cursor_yields_each_index(n: nat)
    ensures
        indices_from(n, 0).len() == n,
        forall|k: int| 0 <= k < n ==> indices_from(n, 0)[k] == k,
        forall|k: int, j: int|
            0 <= k < j < n ==> indices_from(n, 0)[k] < indices_from(n, 0)[j],
{
}

} // verus!
