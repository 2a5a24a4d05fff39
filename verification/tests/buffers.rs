use temu::viewport::{FrameStep, SurfaceStatus, Viewport};
use temu::wgpu_cell::WgpuCell;
use temu::wgpu_vec::{GpuWrite, WgpuVec, INITIAL_CAPACITY};

#[test]
fn new_vector_is_empty_with_the_initial_capacity() {
    let vec: WgpuVec<u32> = WgpuVec::new();
    assert_eq!(vec.len(), 0);
    assert_eq!(vec.gpu_capacity(), INITIAL_CAPACITY);
    assert_eq!(vec.gpu_capacity(), 256);
    assert!(vec.cpu_buffer().is_empty());
}

#[test]
fn zero_capacity_counts_as_one() {
    let vec: WgpuVec<u8> = WgpuVec::with_capacity(0);
    assert_eq!(vec.gpu_capacity(), 1);
    let vec: WgpuVec<u8> = WgpuVec::with_capacity(7);
    assert_eq!(vec.gpu_capacity(), 7);
}

#[test]
fn write_reuses_a_buffer_that_is_large_enough() {
    let mut vec: WgpuVec<u32> = WgpuVec::with_capacity(4);
    vec.cpu_buffer_mut().extend([1, 2, 3, 4]);
    assert_eq!(vec.write(), GpuWrite::Reuse);
    assert_eq!(vec.gpu_capacity(), 4);
    assert_eq!(vec.cpu_buffer(), &[1, 2, 3, 4]);
}

#[test]
fn write_doubles_until_the_items_fit() {
    let mut vec: WgpuVec<u32> = WgpuVec::with_capacity(4);
    vec.cpu_buffer_mut().extend(0..5);
    assert_eq!(vec.write(), GpuWrite::Reallocate { capacity: 8 });
    assert_eq!(vec.gpu_capacity(), 8);
    vec.cpu_buffer_mut().extend(0..28);
    assert_eq!(vec.len(), 33);
    assert_eq!(vec.write(), GpuWrite::Reallocate { capacity: 64 });
    assert_eq!(vec.write(), GpuWrite::Reuse);
}

#[test]
fn capacity_never_shrinks() {
    let mut vec: WgpuVec<u32> = WgpuVec::with_capacity(2);
    let mut capacity = vec.gpu_capacity();
    for round in 0..20u32 {
        vec.clear();
        for item in 0..(round * 37 % 101) {
            vec.push(item);
        }
        vec.write();
        assert!(vec.gpu_capacity() >= capacity);
        assert!(vec.gpu_capacity() >= vec.len());
        capacity = vec.gpu_capacity();
    }
    vec.clear();
    assert_eq!(vec.write(), GpuWrite::Reuse);
    assert_eq!(vec.gpu_capacity(), capacity);
}

#[test]
fn cell_is_flushed_once_after_a_change() {
    let mut cell = WgpuCell::new(5u32);
    assert_eq!(*cell.get(), 5);
    assert!(!cell.is_outdated());
    assert!(!cell.flush());
    *cell.as_mut() = 9;
    assert!(cell.is_outdated());
    assert_eq!(*cell.get(), 9);
    assert!(cell.flush());
    assert!(!cell.flush());
    assert_eq!(*cell.get(), 9);
}

#[test]
fn viewport_keeps_the_last_size() {
    let mut viewport = Viewport::new(800, 600);
    assert_eq!((viewport.width(), viewport.height()), (800, 600));
    viewport.resize(1024, 768);
    assert_eq!((viewport.width(), viewport.height()), (1024, 768));
    viewport.resize(800, 600);
    assert_eq!((viewport.width(), viewport.height()), (800, 600));
}

#[test]
fn outdated_surface_costs_one_frame() {
    assert_eq!(Viewport::frame_step(SurfaceStatus::Ready), FrameStep::Draw);
    assert_eq!(Viewport::frame_step(SurfaceStatus::Outdated), FrameStep::Skip);
    assert_eq!(Viewport::frame_step(SurfaceStatus::Failed), FrameStep::Abort);
}
