use sfml::geometry::{Fixed, Vector2};
use sfml::handle::{CustomShapeClass, FBox, ForeignHeap};
use sfml::shape::CustomShapePoints;
use sfml::trampoline::{teardown_with_capability, CapabilityRegistry, SoundRecorder};
use std::cell::RefCell;

/// A point source that records every call made to it.
struct SpyPoints {
    count_calls: RefCell<usize>,
    point_calls: RefCell<Vec<usize>>,
}

impl SpyPoints {
    fn new() -> SpyPoints {
        SpyPoints { count_calls: RefCell::new(0), point_calls: RefCell::new(Vec::new()) }
    }
}

impl CustomShapePoints for SpyPoints {
    fn point_count(&self) -> usize {
        *self.count_calls.borrow_mut() += 1;
        5
    }

    fn point(&self, point: usize) -> Vector2 {
        self.point_calls.borrow_mut().push(point);
        Vector2::new(Fixed::from_int(point as i64), Fixed::from_int(0))
    }
}

#[test]
fn pull_calls_each_index_once_and_release_runs_once_after() {
    let mut registry: CapabilityRegistry<SpyPoints> = CapabilityRegistry::new();
    let token = registry.bind(SpyPoints::new());
    assert!(registry.is_bound(token));

    let (count, points) = registry.pull_points(token);
    assert_eq!(count, 5);
    assert_eq!(points.len(), 5);
    for (i, p) in points.iter().enumerate() {
        assert_eq!(*p, Vector2::new(Fixed::from_int(i as i64), Fixed::from_int(0)));
    }

    // Not released while the foreign object still lives and calls back.
    assert_eq!(registry.count_released(), 0);

    let spy = registry.release(token);
    assert_eq!(registry.count_released(), 1);
    assert!(!registry.is_bound(token));

    // The capability saw one count query and indices 0..count-1 once each,
    // in order, and nothing after the release.
    assert_eq!(*spy.count_calls.borrow(), 1);
    assert_eq!(*spy.point_calls.borrow(), vec![0, 1, 2, 3, 4]);
}

#[test]
fn trampolines_dispatch_to_the_bound_capability() {
    let mut registry: CapabilityRegistry<SpyPoints> = CapabilityRegistry::new();
    let token = registry.bind(SpyPoints::new());
    assert_eq!(registry.trampoline_point_count(token), 5);
    assert_eq!(
        registry.trampoline_point(token, 3),
        Vector2::new(Fixed::from_int(3), Fixed::from_int(0))
    );
    registry.release(token);
}

#[test]
fn release_leaves_other_bindings_alone() {
    let mut registry: CapabilityRegistry<SpyPoints> = CapabilityRegistry::new();
    let first = registry.bind(SpyPoints::new());
    let second = registry.bind(SpyPoints::new());
    assert_ne!(first, second);

    registry.release(first);
    assert!(!registry.is_bound(first));
    assert!(registry.is_bound(second));
    assert_eq!(registry.count_released(), 1);

    let (count, _) = registry.pull_points(second);
    assert_eq!(count, 5);
    registry.release(second);
    assert_eq!(registry.count_released(), 2);
}

#[test]
fn teardown_pairs_one_destruction_with_one_release() {
    let mut heap = ForeignHeap::new();
    let mut registry: CapabilityRegistry<SpyPoints> = CapabilityRegistry::new();

    let handle = FBox::<CustomShapeClass>::acquire(heap.allocate()).unwrap();
    let token = registry.bind(SpyPoints::new());
    let (count, _) = registry.pull_points(token);
    assert_eq!(count, 5);

    let spy = teardown_with_capability(handle, &mut heap, &mut registry, token);
    assert_eq!(heap.count_destructor_calls(), 1);
    assert_eq!(registry.count_released(), 1);
    assert!(!registry.is_bound(token));
    // The capability saw nothing after the teardown began.
    assert_eq!(*spy.count_calls.borrow(), 1);
    assert_eq!(*spy.point_calls.borrow(), vec![0, 1, 2, 3, 4]);
}

/// A recording sink that asks to stop on its third invocation.
struct StopOnThird {
    invocations: usize,
    samples_seen: usize,
}

impl SoundRecorder for StopOnThird {
    fn on_process_samples(&mut self, samples: &[i16]) -> bool {
        self.invocations += 1;
        self.samples_seen += samples.len();
        self.invocations < 3
    }
}

#[test]
fn capture_stops_on_the_third_invocation_and_never_makes_a_fourth() {
    let mut registry: CapabilityRegistry<StopOnThird> = CapabilityRegistry::new();
    let token = registry.bind(StopOnThird { invocations: 0, samples_seen: 0 });

    let blocks = vec![vec![1i16; 4], vec![2; 4], vec![3; 4], vec![4; 4], vec![5; 4]];
    let answers = registry.run_capture(token, &blocks);

    // The stop sentinel goes out on the third call and ends the stream.
    assert_eq!(answers, vec![true, true, false]);

    let sink = registry.release(token);
    assert_eq!(sink.invocations, 3);
    assert_eq!(sink.samples_seen, 12);
}

#[test]
fn capture_runs_the_whole_stream_when_never_stopped() {
    let mut registry: CapabilityRegistry<StopOnThird> = CapabilityRegistry::new();
    let token = registry.bind(StopOnThird { invocations: 0, samples_seen: 0 });

    let blocks = vec![vec![7i16; 2], vec![8; 2]];
    let answers = registry.run_capture(token, &blocks);
    assert_eq!(answers, vec![true, true]);

    let sink = registry.release(token);
    assert_eq!(sink.invocations, 2);
}
