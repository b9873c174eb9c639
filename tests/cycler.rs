use vision_renderer::cycler::{CyclerError, InstanceWindowCycler};

fn range(c: &InstanceWindowCycler) -> (u32, u32) {
    (c.window_start(), c.window_end())
}

#[test]
fn new_starts_at_first_window() {
    let c = InstanceWindowCycler::new(50, 25).unwrap();
    assert_eq!(range(&c), (0, 25));
    assert_eq!(c.pool_size(), 50);
    assert_eq!(c.window_size(), 25);
}

#[test]
fn four_windows_cycle_back_to_start() {
    for w in [1u32, 3, 25, 1000] {
        let mut c = InstanceWindowCycler::new(4 * w, w).unwrap();
        assert_eq!(range(&c), (0, w));
        c.advance();
        assert_eq!(range(&c), (w, 2 * w));
        c.advance();
        assert_eq!(range(&c), (2 * w, 3 * w));
        c.advance();
        assert_eq!(range(&c), (3 * w, 4 * w));
        c.advance();
        assert_eq!(range(&c), (0, w));
    }
}

#[test]
fn empty_window_is_refused() {
    assert_eq!(InstanceWindowCycler::new(10, 0).unwrap_err(), CyclerError::EmptyWindow);
    assert_eq!(InstanceWindowCycler::new(0, 0).unwrap_err(), CyclerError::EmptyWindow);
}

#[test]
fn window_larger_than_pool_is_refused() {
    assert_eq!(
        InstanceWindowCycler::new(5, 10).unwrap_err(),
        CyclerError::WindowLargerThanPool
    );
}

#[test]
fn window_as_large_as_pool_stays_put() {
    let mut c = InstanceWindowCycler::new(7, 7).unwrap();
    c.advance();
    assert_eq!(range(&c), (0, 7));
    c.advance();
    assert_eq!(range(&c), (0, 7));
}

#[test]
fn tail_beyond_last_whole_window_is_never_drawn() {
    let mut c = InstanceWindowCycler::new(10, 3).unwrap();
    let mut seen = Vec::new();
    for _ in 0..6 {
        seen.push(range(&c));
        c.advance();
    }
    assert_eq!(seen, vec![(0, 3), (3, 6), (6, 9), (0, 3), (3, 6), (6, 9)]);
}

#[test]
fn period_is_number_of_whole_windows() {
    let mut c = InstanceWindowCycler::new(50, 25).unwrap();
    c.advance();
    assert_eq!(range(&c), (25, 50));
    c.advance();
    assert_eq!(range(&c), (0, 25));
}

#[test]
fn largest_pool_does_not_overflow() {
    let mut c = InstanceWindowCycler::new(u32::MAX, u32::MAX / 2).unwrap();
    c.advance();
    assert_eq!(range(&c), (u32::MAX / 2, 2 * (u32::MAX / 2)));
    c.advance();
    assert_eq!(range(&c), (0, u32::MAX / 2));
}
