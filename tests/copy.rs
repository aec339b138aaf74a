use std::sync::Arc;

use vulkano::builder::UnsafeCommandBufferBuilder;
use vulkano::command::Command;
use vulkano::error::BufferCopyError;
use vulkano::region::{BufferCopy, BufferCopyRegion};
use vulkano::resource::{CommandBufferPool, QueueFamily, UnsafeBuffer};

fn pool() -> CommandBufferPool {
    CommandBufferPool {
        device: 1,
        queue_family: QueueFamily { id: 0, supports_graphics: true, supports_compute: true },
    }
}

fn buffer(object: u64, size: usize) -> Arc<UnsafeBuffer> {
    Arc::new(UnsafeBuffer {
        object,
        device: 1,
        size,
        usage_transfer_src: true,
        usage_transfer_dest: true,
    })
}

fn region(source_offset: usize, destination_offset: usize, size: usize) -> BufferCopyRegion {
    BufferCopyRegion { source_offset, destination_offset, size }
}

#[test]
fn copy_single_region_between_two_buffers() {
    let mut b = UnsafeCommandBufferBuilder::new(pool(), false);
    let src = buffer(10, 16);
    let dst = buffer(11, 32);
    assert_eq!(b.copy_buffer_untyped(&src, &dst, &[region(0, 0, 16)]), Ok(()));
    assert_eq!(
        b.commands(),
        &vec![Command::CopyBuffer {
            src: 10,
            dst: 11,
            regions: vec![BufferCopy { src_offset: 0, dst_offset: 0, size: 16 }],
        }]
    );
    let kept: Vec<u64> = b.keep_alive().iter().map(|k| k.object).collect();
    assert_eq!(kept, vec![10, 11]);
    assert!(Arc::ptr_eq(&b.keep_alive()[0], &src));
    assert!(Arc::ptr_eq(&b.keep_alive()[1], &dst));
}

#[test]
fn copy_rejects_overlapping_source_ranges() {
    let mut b = UnsafeCommandBufferBuilder::new(pool(), false);
    let src = buffer(10, 64);
    let dst = buffer(11, 200);
    let r = b.copy_buffer_untyped(&src, &dst, &[region(0, 0, 16), region(8, 100, 16)]);
    assert_eq!(r, Err(BufferCopyError::OverlappingRegions));
    assert!(b.commands().is_empty());
    assert!(b.keep_alive().is_empty());
}

#[test]
fn copy_rejects_touching_ranges() {
    let mut b = UnsafeCommandBufferBuilder::new(pool(), false);
    let src = buffer(10, 64);
    let dst = buffer(11, 200);
    let r = b.copy_buffer_untyped(&src, &dst, &[region(0, 0, 16), region(16, 100, 16)]);
    assert_eq!(r, Err(BufferCopyError::OverlappingRegions));
    let r = b.copy_buffer_untyped(&src, &dst, &[region(0, 50, 16), region(32, 66, 16)]);
    assert_eq!(r, Err(BufferCopyError::OverlappingRegions));
    let r = b.copy_buffer_untyped(&src, &dst, &[region(0, 50, 16), region(17, 67, 16)]);
    assert_eq!(r, Ok(()));
}

#[test]
fn copy_within_render_pass_is_forbidden() {
    let mut b = UnsafeCommandBufferBuilder::new(pool(), false);
    b.begin_render_pass();
    let src = buffer(10, 64);
    let dst = buffer(11, 64);
    let r = b.copy_buffer_untyped(&src, &dst, &[region(0, 0, 16)]);
    assert_eq!(r, Err(BufferCopyError::ForbiddenWithinRenderPass));
    assert!(b.keep_alive().is_empty());
    assert!(b.commands().is_empty());
    assert!(b.within_render_pass());
    b.end_render_pass();
    assert!(!b.within_render_pass());
    assert_eq!(b.copy_buffer_untyped(&src, &dst, &[region(0, 0, 16)]), Ok(()));
}

#[test]
fn copy_with_no_region_records_nothing() {
    let mut b = UnsafeCommandBufferBuilder::new(pool(), false);
    let src = buffer(10, 64);
    let dst = buffer(11, 64);
    assert_eq!(b.copy_buffer_untyped(&src, &dst, &[]), Ok(()));
    assert!(b.commands().is_empty());
    assert!(b.keep_alive().is_empty());
    assert!(!b.within_render_pass());
    assert_eq!(b.current_graphics_pipeline(), None);
    assert_eq!(b.current_compute_pipeline(), None);
}

#[test]
fn copy_with_only_empty_regions_records_nothing() {
    let mut b = UnsafeCommandBufferBuilder::new(pool(), false);
    let src = buffer(10, 64);
    let dst = buffer(11, 64);
    assert_eq!(b.copy_buffer_untyped(&src, &dst, &[region(0, 0, 0), region(0, 0, 0)]), Ok(()));
    assert!(b.commands().is_empty());
    assert!(b.keep_alive().is_empty());
}

#[test]
fn copy_out_of_range() {
    let mut b = UnsafeCommandBufferBuilder::new(pool(), false);
    let src = buffer(10, 16);
    let dst = buffer(11, 64);
    assert_eq!(
        b.copy_buffer_untyped(&src, &dst, &[region(8, 0, 16)]),
        Err(BufferCopyError::OutOfRange)
    );
    assert_eq!(
        b.copy_buffer_untyped(&src, &dst, &[region(0, 60, 8)]),
        Err(BufferCopyError::OutOfRange)
    );
    assert_eq!(
        b.copy_buffer_untyped(&src, &dst, &[region(usize::MAX, 0, 1)]),
        Err(BufferCopyError::OutOfRange)
    );
    // An empty region still has to lie within the buffers.
    assert_eq!(
        b.copy_buffer_untyped(&src, &dst, &[region(0, 0, 4), region(17, 0, 0)]),
        Err(BufferCopyError::OutOfRange)
    );
    // The bounds are checked before the overlaps.
    assert_eq!(
        b.copy_buffer_untyped(&src, &dst, &[region(0, 0, 8), region(4, 8, 8), region(40, 0, 8)]),
        Err(BufferCopyError::OutOfRange)
    );
    assert!(b.commands().is_empty());
    assert!(b.keep_alive().is_empty());
}

#[test]
fn copy_needs_transfer_usage() {
    let mut b = UnsafeCommandBufferBuilder::new(pool(), false);
    let src = Arc::new(UnsafeBuffer {
        object: 10,
        device: 1,
        size: 64,
        usage_transfer_src: false,
        usage_transfer_dest: true,
    });
    let dst = Arc::new(UnsafeBuffer {
        object: 11,
        device: 1,
        size: 64,
        usage_transfer_src: true,
        usage_transfer_dest: false,
    });
    let ok = buffer(12, 64);
    assert_eq!(
        b.copy_buffer_untyped(&src, &ok, &[region(0, 0, 4)]),
        Err(BufferCopyError::WrongUsageFlag)
    );
    assert_eq!(
        b.copy_buffer_untyped(&ok, &dst, &[region(0, 0, 4)]),
        Err(BufferCopyError::WrongUsageFlag)
    );
    assert_eq!(b.copy_buffer_untyped(&dst, &src, &[region(0, 0, 4)]), Ok(()));
}

#[test]
fn copy_within_one_object_checks_source_against_destination() {
    let mut b = UnsafeCommandBufferBuilder::new(pool(), false);
    let a = buffer(10, 256);
    let alias = buffer(10, 256);
    let other = buffer(11, 256);
    let regions = [region(0, 100, 16), region(50, 8, 16)];
    assert_eq!(
        b.copy_buffer_untyped(&a, &alias, &regions),
        Err(BufferCopyError::OverlappingRegions)
    );
    assert_eq!(b.copy_buffer_untyped(&a, &a, &regions), Err(BufferCopyError::OverlappingRegions));
    let swapped = [region(50, 8, 16), region(0, 100, 16)];
    assert_eq!(b.copy_buffer_untyped(&a, &a, &swapped), Err(BufferCopyError::OverlappingRegions));
    assert!(b.commands().is_empty());
    assert_eq!(b.copy_buffer_untyped(&a, &other, &regions), Ok(()));
    assert_eq!(b.commands().len(), 1);
    // A single region may read and write overlapping ranges of one object.
    assert_eq!(b.copy_buffer_untyped(&a, &a, &[region(0, 8, 16)]), Ok(()));
    assert_eq!(b.commands().len(), 2);
}

#[test]
fn failed_copy_leaves_builder_unchanged() {
    let mut b = UnsafeCommandBufferBuilder::new(pool(), true);
    let src = buffer(10, 64);
    let dst = buffer(11, 64);
    assert_eq!(b.copy_buffer_untyped(&src, &dst, &[region(0, 0, 16), region(0, 32, 0)]), Ok(()));
    assert_eq!(b.keep_alive().len(), 2);
    assert_eq!(b.commands().len(), 1);
    let r = b.copy_buffer_untyped(&src, &dst, &[region(0, 0, 8), region(4, 20, 8)]);
    assert_eq!(r, Err(BufferCopyError::OverlappingRegions));
    assert_eq!(b.keep_alive().len(), 2);
    assert_eq!(b.commands().len(), 1);
    assert!(!b.within_render_pass());
    assert!(b.is_secondary());
    assert_eq!(b.current_graphics_pipeline(), None);
    assert_eq!(b.current_compute_pipeline(), None);
    assert_eq!(b.pool(), pool());
}

#[test]
fn keep_alive_list_grows_with_duplicates() {
    let mut b = UnsafeCommandBufferBuilder::new(pool(), false);
    let src = buffer(10, 64);
    let dst = buffer(11, 64);
    assert_eq!(b.copy_buffer_untyped(&src, &dst, &[region(0, 0, 16)]), Ok(()));
    assert_eq!(b.copy_buffer_untyped(&src, &dst, &[region(16, 16, 16)]), Ok(()));
    let kept: Vec<u64> = b.keep_alive().iter().map(|k| k.object).collect();
    assert_eq!(kept, vec![10, 11, 10, 11]);
    assert_eq!(Arc::strong_count(&src), 3);
}

#[test]
fn copy_error_descriptions() {
    assert_eq!(
        BufferCopyError::ForbiddenWithinRenderPass.description(),
        "can't copy buffers from within a render pass"
    );
    assert_eq!(
        BufferCopyError::OutOfRange.description(),
        "one of regions is out of range of the buffer"
    );
    assert_eq!(
        BufferCopyError::WrongUsageFlag.description(),
        "one of the buffers doesn't have the correct usage flag"
    );
    assert_eq!(BufferCopyError::OverlappingRegions.description(), "some regions are overlapping");
}
