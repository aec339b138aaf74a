use vstd::prelude::*;

use crate::error::BufferCopyError;
use crate::region_list::{
    region_list_get, region_list_items, region_list_len, region_list_new, region_list_push,
    RegionList,
};

verus! {

/// A copy between two buffers.
#[derive(Debug, Copy, Clone, PartialEq, Eq, Hash)]
pub struct BufferCopyRegion {
    /// Offset of the first byte to read from the source buffer.
    pub source_offset: usize,
    /// Offset of the first byte to write to the destination buffer.
    pub destination_offset: usize,
    /// Size in bytes of the copy.
    pub size: usize,
}

/// A device-ready copy region, in device-size units.
#[derive(Debug, Copy, Clone, PartialEq, Eq, Hash)]
pub struct BufferCopy {
    pub src_offset: u64,
    pub dst_offset: u64,
    pub size: u64,
}

impl BufferCopyRegion {
    /// Both the source range and the destination range end within their buffers.
    pub open spec fn in_bounds(self, src_size: int, dst_size: int) -> bool {
        &&& self.source_offset + self.size <= src_size
        &&& self.destination_offset + self.size <= dst_size
    }

    /// The device-ready form of this region.
    pub open spec fn device_region(self) -> BufferCopy {
        BufferCopy {
            src_offset: self.source_offset as u64,
            dst_offset: self.destination_offset as u64,
            size: self.size as u64,
        }
    }
}

/// Every region of `rs` lies within both buffers.
pub open spec fn all_in_bounds(rs: Seq<BufferCopyRegion>, src_size: int, dst_size: int) -> bool {
    forall|i: int| 0 <= i < rs.len() ==> #[trigger] rs[i].in_bounds(src_size, dst_size)
}

/// The regions of `rs` whose size is not zero, in their order, in device-ready form.
pub open spec fn normalized_regions(rs: Seq<BufferCopyRegion>) -> Seq<BufferCopy> {
    rs.filter(|r: BufferCopyRegion| r.size != 0).map_values(|r: BufferCopyRegion| r.device_region())
}

/// The ranges `[a, a + sa)` and `[b, b + sb)` overlap or touch at an end.
pub open spec fn ranges_touch(a: int, sa: int, b: int, sb: int) -> bool {
    a <= b + sb && b <= a + sa
}

/// Two regions of one copy may not be recorded together: their source ranges or their
/// destination ranges meet, or, when source and destination are one buffer, the source range
/// of one meets the destination range of the other.
pub open spec fn regions_conflict(r1: BufferCopy, r2: BufferCopy, same_object: bool) -> bool {
    ||| ranges_touch(r1.src_offset as int, r1.size as int, r2.src_offset as int, r2.size as int)
    ||| ranges_touch(r1.dst_offset as int, r1.size as int, r2.dst_offset as int, r2.size as int)
    ||| same_object && ranges_touch(
        r1.src_offset as int,
        r1.size as int,
        r2.dst_offset as int,
        r2.size as int,
    )
    ||| same_object && ranges_touch(
        r2.src_offset as int,
        r2.size as int,
        r1.dst_offset as int,
        r1.size as int,
    )
}

/// Some two distinct regions of `cs` conflict.
pub open spec fn has_conflict(cs: Seq<BufferCopy>, same_object: bool) -> bool {
    exists|i: int, j: int|
        0 <= i < j < cs.len() && #[trigger] regions_conflict(cs[i], cs[j], same_object)
}

/// What validating the regions of a copy gives: the first applicable error, or the
/// normalized regions.
pub open spec fn copy_validation(
    rs: Seq<BufferCopyRegion>,
    src_size: int,
    dst_size: int,
    same_object: bool,
) -> Result<Seq<BufferCopy>, BufferCopyError> {
    if !all_in_bounds(rs, src_size, dst_size) {
        Err(BufferCopyError::OutOfRange)
    } else if has_conflict(normalized_regions(rs), same_object) {
        Err(BufferCopyError::OverlappingRegions)
    } else {
        Ok(normalized_regions(rs))
    }
}

proof fn lemma_normalized_step(rs: Seq<BufferCopyRegion>, i: int)
    requires
        0 <= i < rs.len(),
    ensures
        normalized_regions(rs.take(i + 1)) == (if rs[i].size != 0 {
            normalized_regions(rs.take(i)).push(rs[i].device_region())
        } else {
            normalized_regions(rs.take(i))
        }),
        normalized_regions(rs.take(i)).len() <= i,
{
    let pred = |r: BufferCopyRegion| r.size != 0;
    let f = |r: BufferCopyRegion| r.device_region();
    assert(rs.take(i + 1).drop_last() =~= rs.take(i));
    reveal(Seq::filter);
    rs.take(i).lemma_filter_len(pred);
    if pred(rs[i]) {
        assert(rs.take(i + 1).filter(pred) == rs.take(i).filter(pred).push(rs[i]));
        assert(rs.take(i + 1).filter(pred).map_values(f) =~= rs.take(i).filter(pred).map_values(
            f,
        ).push(f(rs[i])));
    } else {
        assert(rs.take(i + 1).filter(pred) == rs.take(i).filter(pred));
    }
}

/// Whether two device-ready regions of one copy conflict.
pub fn regions_overlap(r1: &BufferCopy, r2: &BufferCopy, same_object: bool) -> (r: bool)
    ensures
        r == regions_conflict(*r1, *r2, same_object),
{
    let (s1, d1, n1) = (r1.src_offset as u128, r1.dst_offset as u128, r1.size as u128);
    let (s2, d2, n2) = (r2.src_offset as u128, r2.dst_offset as u128, r2.size as u128);
    let src = s1 <= s2 + n2 && s2 <= s1 + n1;
    let dst = d1 <= d2 + n2 && d2 <= d1 + n1;
    let cross12 = s1 <= d2 + n2 && d2 <= s1 + n1;
    let cross21 = s2 <= d1 + n1 && d1 <= s2 + n2;
    let cross = same_object && (cross12 || cross21);
    src || dst || cross
}

/// Whether some two distinct regions of the list conflict.
pub fn has_overlapping_regions(list: &RegionList, same_object: bool) -> (r: bool)
    ensures
        r == has_conflict(region_list_items(*list), same_object),
{
    let ghost cs = region_list_items(*list);
    let n = region_list_len(list);
    let mut i: usize = 0;
    while i < n
        invariant
            cs == region_list_items(*list),
            n == cs.len(),
            i <= n,
            forall|a: int, b: int|
                0 <= a < i && a < b < n ==> !#[trigger] regions_conflict(cs[a], cs[b], same_object),
        decreases n - i,
    {
        let first = region_list_get(list, i);
        let mut j: usize = i + 1;
        while j < n
            invariant
                cs == region_list_items(*list),
                n == cs.len(),
                i < n,
                i < j <= n,
                first == cs[i as int],
                forall|a: int, b: int|
                    0 <= a < i && a < b < n ==> !#[trigger] regions_conflict(
                        cs[a],
                        cs[b],
                        same_object,
                    ),
                forall|b: int|
                    i < b < j ==> !#[trigger] regions_conflict(cs[i as int], cs[b], same_object),
            decreases n - j,
        {
            let second = region_list_get(list, j);
            if regions_overlap(&first, &second, same_object) {
                assert(regions_conflict(cs[i as int], cs[j as int], same_object));
                return true;
            }
            j = j + 1;
        }
        assert forall|a: int, b: int|
            0 <= a < i + 1 && a < b < n implies !#[trigger] regions_conflict(
            cs[a],
            cs[b],
            same_object,
        ) by {
            if a == i {
            }
        }
        i = i + 1;
    }
    false
}

/// Checks the regions of a copy between a source buffer of `src_size` bytes and a
/// destination buffer of `dst_size` bytes, and returns them in device-ready form with the
/// zero-sized ones left out. `same_object` tells that both buffers are one device object.
pub fn validate_copy_regions(
    regions: &[BufferCopyRegion],
    src_size: usize,
    dst_size: usize,
    same_object: bool,
) -> (r: Result<RegionList, BufferCopyError>)
    ensures
        match r {
            Ok(list) => copy_validation(regions@, src_size as int, dst_size as int, same_object)
                == Ok::<Seq<BufferCopy>, BufferCopyError>(region_list_items(list)),
            Err(e) => copy_validation(regions@, src_size as int, dst_size as int, same_object)
                == Err::<Seq<BufferCopy>, BufferCopyError>(e),
        },
{
    let ghost rs = regions@;
    let mut list = region_list_new();
    let mut i: usize = 0;
    while i < regions.len()
        invariant
            rs == regions@,
            i <= rs.len(),
            forall|k: int|
                0 <= k < i ==> #[trigger] rs[k].in_bounds(src_size as int, dst_size as int),
            region_list_items(list) == normalized_regions(rs.take(i as int)),
        decreases rs.len() - i,
    {
        let region = regions[i];
        proof {
            lemma_normalized_step(rs, i as int);
        }
        match region.source_offset.checked_add(region.size) {
            Some(end) if end <= src_size => {},
            _ => {
                assert(!rs[i as int].in_bounds(src_size as int, dst_size as int));
                return Err(BufferCopyError::OutOfRange);
            },
        }
        match region.destination_offset.checked_add(region.size) {
            Some(end) if end <= dst_size => {},
            _ => {
                assert(!rs[i as int].in_bounds(src_size as int, dst_size as int));
                return Err(BufferCopyError::OutOfRange);
            },
        }
        if region.size != 0 {
            region_list_push(
                &mut list,
                BufferCopy {
                    src_offset: region.source_offset as u64,
                    dst_offset: region.destination_offset as u64,
                    size: region.size as u64,
                },
            );
        }
        i = i + 1;
    }
    assert(rs.take(rs.len() as int) =~= rs);
    if has_overlapping_regions(&list, same_object) {
        return Err(BufferCopyError::OverlappingRegions);
    }
    Ok(list)
}

} // verus!
