use temu::atlas::{Allocation, ArrayAllocator, MAX_LAYER_SIDE};

fn overlap(a: (Allocation, u32, u32), b: (Allocation, u32, u32)) -> bool {
    a.0.layer == b.0.layer
        && a.0.x < b.0.x + b.1
        && b.0.x < a.0.x + a.1
        && a.0.y < b.0.y + b.2
        && b.0.y < a.0.y + a.2
}

#[test]
fn new_stack_has_two_layers() {
    let stack = ArrayAllocator::new(64, 64);
    assert_eq!(stack.layer_count(), 2);
}

#[test]
fn first_rectangle_goes_into_the_first_layer() {
    let mut stack = ArrayAllocator::new(64, 64);
    let place = stack.allocate(10, 12);
    assert_eq!(place.layer, 0);
    assert!(place.x + 10 <= 64);
    assert!(place.y + 12 <= 64);
    assert_eq!(stack.layer_count(), 2);
}

#[test]
fn rectangles_stay_inside_and_apart() {
    let mut stack = ArrayAllocator::new(128, 128);
    let sizes = [(10u32, 20u32), (30, 8), (7, 7), (64, 64), (1, 1), (20, 33), (128, 5), (9, 40)];
    let mut placed: Vec<(Allocation, u32, u32)> = Vec::new();
    for round in 0..6 {
        for (w, h) in sizes {
            let w = w.min(128 - round);
            let place = stack.allocate(w, h);
            assert!(place.x + w <= 128);
            assert!(place.y + h <= 128);
            assert!(place.layer < stack.layer_count());
            for earlier in placed.iter() {
                assert!(!overlap(*earlier, (place, w, h)));
            }
            placed.push((place, w, h));
        }
    }
}

#[test]
fn full_layers_make_the_stack_grow() {
    let mut stack = ArrayAllocator::new(32, 32);
    let first = stack.allocate(32, 32);
    let second = stack.allocate(32, 32);
    let third = stack.allocate(32, 32);
    assert_eq!((first.x, first.y, first.layer), (0, 0, 0));
    assert_eq!((second.x, second.y, second.layer), (0, 0, 1));
    assert_eq!((third.x, third.y, third.layer), (0, 0, 2));
    assert_eq!(stack.layer_count(), 3);
    let small = stack.allocate(1, 1);
    assert_eq!(small.layer, 3);
    assert_eq!(stack.layer_count(), 4);
}

#[test]
fn allocation_default_is_the_origin() {
    let place = Allocation::default();
    assert_eq!((place.x, place.y, place.layer), (0, 0, 0));
}

#[test]
fn layer_of_the_largest_side_takes_a_rectangle_of_its_size() {
    assert_eq!(MAX_LAYER_SIDE, 46340);
    let mut stack = ArrayAllocator::new(MAX_LAYER_SIDE, MAX_LAYER_SIDE);
    let whole = stack.allocate(MAX_LAYER_SIDE, MAX_LAYER_SIDE);
    assert_eq!((whole.x, whole.y, whole.layer), (0, 0, 0));
    let small = stack.allocate(10, 10);
    assert_eq!(small.layer, 1);
    assert!(small.x + 10 <= MAX_LAYER_SIDE && small.y + 10 <= MAX_LAYER_SIDE);
    let tall = stack.allocate(10, MAX_LAYER_SIDE);
    assert_eq!(tall.layer, 2);
    assert_eq!(stack.layer_count(), 3);
}

#[test]
fn new_layer_comes_only_when_no_layer_has_room() {
    let mut stack = ArrayAllocator::new(64, 64);
    let mut layers = Vec::new();
    for _ in 0..40 {
        let before = stack.layer_count();
        let place = stack.allocate(32, 32);
        assert!(stack.layer_count() == before || place.layer == before);
        layers.push(place.layer);
    }
    // four rectangles fill a layer, and the stack starts with two layers
    let expect: Vec<u32> = (0..40).map(|i| i / 4).collect();
    assert_eq!(layers, expect);
    assert_eq!(stack.layer_count(), 10);
    let small = stack.allocate(1, 1);
    assert_eq!(small.layer, 10);
}
