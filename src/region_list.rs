use smallvec::SmallVec;
use vstd::prelude::*;

use crate::region::BufferCopy;

verus! {

/// A list of device-ready copy regions, stored inline while it holds few of them.
#[verifier::external_body]
pub struct RegionList {
    inner: SmallVec<[BufferCopy; 4]>,
}

/// The regions held by a region list, in order.
pub uninterp spec fn region_list_items(v: RegionList) -> Seq<BufferCopy>;

/// Relies on `SmallVec::new`: the new vector is empty.
#[verifier::external_body]
pub(crate) fn region_list_new() -> (r: RegionList)
    ensures
        region_list_items(r) == Seq::<BufferCopy>::empty(),
{
    RegionList { inner: SmallVec::new() }
}

/// Relies on `SmallVec::push`: the item is appended at the end.
#[verifier::external_body]
pub(crate) fn region_list_push(v: &mut RegionList, item: BufferCopy)
    requires
        region_list_items(*old(v)).len() < usize::MAX,
    ensures
        region_list_items(*final(v)) == region_list_items(*old(v)).push(item),
{
    v.inner.push(item)
}

/// Relies on `SmallVec::len`: the number of items held.
#[verifier::external_body]
pub(crate) fn region_list_len(v: &RegionList) -> (r: usize)
    ensures
        r == region_list_items(*v).len(),
{
    v.inner.len()
}

/// Relies on indexing a `SmallVec`: the item at position `i`.
#[verifier::external_body]
pub(crate) fn region_list_get(v: &RegionList, i: usize) -> (r: BufferCopy)
    requires
        i < region_list_items(*v).len(),
    ensures
        r == region_list_items(*v)[i as int],
{
    v.inner[i]
}

impl RegionList {
    /// The number of regions in the list.
    pub fn len(&self) -> (r: usize)
        ensures
            r == region_list_items(*self).len(),
    {
        region_list_len(self)
    }

    /// True if the list holds no region.
    pub fn is_empty(&self) -> (r: bool)
        ensures
            r == (region_list_items(*self).len() == 0),
    {
        region_list_len(self) == 0
    }

    /// The region at position `i`.
    pub fn get(&self, i: usize) -> (r: BufferCopy)
        requires
            i < region_list_items(*self).len(),
        ensures
            r == region_list_items(*self)[i as int],
    {
        region_list_get(self, i)
    }

    /// The regions of the list, in order.
    pub fn to_vec(&self) -> (r: Vec<BufferCopy>)
        ensures
            r@ == region_list_items(*self),
    {
        let ghost items = region_list_items(*self);
        let n = region_list_len(self);
        let mut out: Vec<BufferCopy> = Vec::new();
        let mut i: usize = 0;
        while i < n
            invariant
                items == region_list_items(*self),
                n == items.len(),
                i <= n,
                out@ == items.take(i as int),
            decreases n - i,
        {
            out.push(region_list_get(self, i));
            assert(items.take(i + 1) =~= items.take(i as int).push(items[i as int]));
            i = i + 1;
        }
        assert(items.take(n as int) =~= items);
        out
    }
}

} // verus!
