use vstd::prelude::*;

use crate::error::BufferCopyError;
use crate::region::{
    all_in_bounds, copy_validation, has_conflict, normalized_regions, regions_conflict,
    BufferCopy, BufferCopyRegion,
};

verus! {

/// Two distinct regions of `rs`, neither of size zero, conflict once in device-ready form.
pub open spec fn input_conflict(rs: Seq<BufferCopyRegion>, same_object: bool) -> bool {
    exists|i: int, j: int|
        0 <= i < j < rs.len() && rs[i].size != 0 && rs[j].size != 0 && #[trigger] regions_conflict(
            rs[i].device_region(),
            rs[j].device_region(),
            same_object,
        )
}

proof fn lemma_normalized_last(rs: Seq<BufferCopyRegion>)
    requires
        rs.len() > 0,
    ensures
        normalized_regions(rs) == (if rs.last().size != 0 {
            normalized_regions(rs.drop_last()).push(rs.last().device_region())
        } else {
            normalized_regions(rs.drop_last())
        }),
{
    let pred = |r: BufferCopyRegion| r.size != 0;
    let f = |r: BufferCopyRegion| r.device_region();
    reveal(Seq::filter);
    if pred(rs.last()) {
        assert(rs.filter(pred) == rs.drop_last().filter(pred).push(rs.last()));
        assert(rs.filter(pred).map_values(f) =~= rs.drop_last().filter(pred).map_values(f).push(
            f(rs.last()),
        ));
    }
}

proof fn lemma_filter_idempotent(s: Seq<BufferCopyRegion>, pred: spec_fn(BufferCopyRegion) -> bool)
    ensures
        s.filter(pred).filter(pred) == s.filter(pred),
    decreases s.len(),
{
    reveal(Seq::filter);
    if s.len() > 0 {
        lemma_filter_idempotent(s.drop_last(), pred);
        let x = s.drop_last().filter(pred);
        if pred(s.last()) {
            assert(x.push(s.last()).drop_last() =~= x);
        }
    }
}

proof fn lemma_filter_keeps_bounds(rs: Seq<BufferCopyRegion>, src_size: int, dst_size: int)
    requires
        all_in_bounds(rs, src_size, dst_size),
    ensures
        all_in_bounds(rs.filter(|r: BufferCopyRegion| r.size != 0), src_size, dst_size),
{
    let pred = |r: BufferCopyRegion| r.size != 0;
    let fs = rs.filter(pred);
    assert forall|k: int| 0 <= k < fs.len() implies #[trigger] fs[k].in_bounds(
        src_size,
        dst_size,
    ) by {
        assert(fs.contains(fs[k]));
        rs.lemma_filter_contains_rev(pred, fs[k]);
        let i = choose|i: int| 0 <= i < rs.len() && rs[i] == fs[k];
        assert(rs[i].in_bounds(src_size, dst_size));
    }
}

proof fn lemma_normalized_has(rs: Seq<BufferCopyRegion>, i: int)
    requires
        0 <= i < rs.len(),
        rs[i].size != 0,
    ensures
        exists|k: int|
            0 <= k < normalized_regions(rs).len() && normalized_regions(rs)[k]
                == rs[i].device_region(),
{
    let pred = |r: BufferCopyRegion| r.size != 0;
    rs.lemma_filter_contains(pred, i);
    let k = choose|k: int| 0 <= k < rs.filter(pred).len() && rs.filter(pred)[k] == rs[i];
    assert(normalized_regions(rs)[k] == rs[i].device_region());
}

proof fn lemma_normalized_from(rs: Seq<BufferCopyRegion>, k: int)
    requires
        0 <= k < normalized_regions(rs).len(),
    ensures
        exists|i: int|
            0 <= i < rs.len() && rs[i].size != 0 && normalized_regions(rs)[k]
                == rs[i].device_region(),
{
    let pred = |r: BufferCopyRegion| r.size != 0;
    let fs = rs.filter(pred);
    assert(fs.contains(fs[k]));
    rs.lemma_filter_contains_rev(pred, fs[k]);
    rs.lemma_filter_pred(pred, k);
    let i = choose|i: int| 0 <= i < rs.len() && rs[i] == fs[k];
    assert(rs[i].size != 0 && normalized_regions(rs)[k] == rs[i].device_region());
}

/// A conflict among the normalized regions is a conflict among the non-empty input regions,
/// and the other way round.
pub proof fn lemma_conflict_correspondence(rs: Seq<BufferCopyRegion>, same_object: bool)
    ensures
        has_conflict(normalized_regions(rs), same_object) == input_conflict(rs, same_object),
    decreases rs.len(),
{
    if rs.len() > 0 {
        let p = rs.drop_last();
        let n = rs.len() - 1;
        lemma_conflict_correspondence(p, same_object);
        lemma_normalized_last(rs);
        let np = normalized_regions(p);
        let nr = normalized_regions(rs);
        assert forall|a: int| 0 <= a < np.len() implies nr[a] == np[a] by {}
        if has_conflict(nr, same_object) {
            let (a, b) = choose|a: int, b: int|
                0 <= a < b < nr.len() && #[trigger] regions_conflict(nr[a], nr[b], same_object);
            if b < np.len() {
                assert(regions_conflict(np[a], np[b], same_object));
                assert(has_conflict(np, same_object));
                let (i, j) = choose|i: int, j: int|
                    0 <= i < j < p.len() && p[i].size != 0 && p[j].size != 0
                        && #[trigger] regions_conflict(
                        p[i].device_region(),
                        p[j].device_region(),
                        same_object,
                    );
                assert(rs[i] == p[i] && rs[j] == p[j]);
            } else {
                lemma_normalized_from(p, a);
                let i = choose|i: int|
                    0 <= i < p.len() && p[i].size != 0 && np[a] == p[i].device_region();
                assert(rs[i] == p[i]);
                assert(regions_conflict(rs[i].device_region(), rs[n].device_region(), same_object));
            }
            assert(input_conflict(rs, same_object));
        }
        if input_conflict(rs, same_object) {
            let (i, j) = choose|i: int, j: int|
                0 <= i < j < rs.len() && rs[i].size != 0 && rs[j].size != 0
                    && #[trigger] regions_conflict(
                    rs[i].device_region(),
                    rs[j].device_region(),
                    same_object,
                );
            if j < n {
                assert(rs[i] == p[i] && rs[j] == p[j]);
                assert(input_conflict(p, same_object));
                let (a, b) = choose|a: int, b: int|
                    0 <= a < b < np.len() && #[trigger] regions_conflict(
                        np[a],
                        np[b],
                        same_object,
                    );
                assert(regions_conflict(nr[a], nr[b], same_object));
            } else {
                assert(rs[i] == p[i]);
                lemma_normalized_has(p, i);
                let a = choose|a: int| 0 <= a < np.len() && np[a] == p[i].device_region();
                assert(nr[np.len() as int] == rs[n].device_region());
                assert(regions_conflict(nr[a], nr[np.len() as int], same_object));
            }
            assert(has_conflict(nr, same_object));
        }
    } else {
        reveal(Seq::filter);
    }
}

/// Zero-size elision is exact: an accepted list of regions comes out as its regions of
/// non-zero size, each in device-ready form, in their order, and nothing else.
pub proof fn lemma_elision_exact(
    rs: Seq<BufferCopyRegion>,
    src_size: int,
    dst_size: int,
    same_object: bool,
)
    requires
        copy_validation(rs, src_size, dst_size, same_object) is Ok,
    ensures
        ({
            let cs = copy_validation(rs, src_size, dst_size, same_object)->Ok_0;
            let kept = rs.filter(|r: BufferCopyRegion| r.size != 0);
            &&& cs.len() == kept.len()
            &&& forall|k: int|
                0 <= k < cs.len() ==> kept[k].size != 0 && #[trigger] cs[k]
                    == kept[k].device_region()
            &&& forall|i: int|
                0 <= i < rs.len() && rs[i].size != 0 ==> cs.contains(
                    #[trigger] rs[i].device_region(),
                )
        }),
{
    let pred = |r: BufferCopyRegion| r.size != 0;
    let kept = rs.filter(pred);
    assert forall|k: int| 0 <= k < kept.len() implies kept[k].size != 0 by {
        rs.lemma_filter_pred(pred, k);
    }
    assert forall|i: int| 0 <= i < rs.len() && rs[i].size != 0 implies normalized_regions(
        rs,
    ).contains(#[trigger] rs[i].device_region()) by {
        lemma_normalized_has(rs, i);
    }
}

/// Validation accepts every in-bounds list whose non-empty regions do not conflict, and
/// returns one device-ready region per non-empty input region, in their order.
pub proof fn lemma_accepts_disjoint(
    rs: Seq<BufferCopyRegion>,
    src_size: int,
    dst_size: int,
    same_object: bool,
)
    requires
        all_in_bounds(rs, src_size, dst_size),
        !input_conflict(rs, same_object),
    ensures
        copy_validation(rs, src_size, dst_size, same_object) == Ok::<
            Seq<BufferCopy>,
            BufferCopyError,
        >(rs.filter(|r: BufferCopyRegion| r.size != 0).map_values(
            |r: BufferCopyRegion| r.device_region(),
        )),
{
    lemma_conflict_correspondence(rs, same_object);
}

/// Validation rejects an in-bounds list with `OverlappingRegions` as soon as two of its
/// non-empty regions conflict.
pub proof fn lemma_rejects_conflict(
    rs: Seq<BufferCopyRegion>,
    src_size: int,
    dst_size: int,
    same_object: bool,
    i: int,
    j: int,
)
    requires
        all_in_bounds(rs, src_size, dst_size),
        0 <= i < j < rs.len(),
        rs[i].size != 0,
        rs[j].size != 0,
        regions_conflict(rs[i].device_region(), rs[j].device_region(), same_object),
    ensures
        copy_validation(rs, src_size, dst_size, same_object) == Err::<
            Seq<BufferCopy>,
            BufferCopyError,
        >(BufferCopyError::OverlappingRegions),
{
    assert(input_conflict(rs, same_object));
    lemma_conflict_correspondence(rs, same_object);
}

/// Validating the list that elision left gives the same outcome as validating the original
/// in-bounds list.
pub proof fn lemma_elision_idempotent(
    rs: Seq<BufferCopyRegion>,
    src_size: int,
    dst_size: int,
    same_object: bool,
)
    requires
        all_in_bounds(rs, src_size, dst_size),
    ensures
        normalized_regions(rs.filter(|r: BufferCopyRegion| r.size != 0)) == normalized_regions(rs),
        copy_validation(
            rs.filter(|r: BufferCopyRegion| r.size != 0),
            src_size,
            dst_size,
            same_object,
        )
            == copy_validation(rs, src_size, dst_size, same_object),
{
    let pred = |r: BufferCopyRegion| r.size != 0;
    lemma_filter_idempotent(rs, pred);
    lemma_filter_keeps_bounds(rs, src_size, dst_size);
}

} // verus!
