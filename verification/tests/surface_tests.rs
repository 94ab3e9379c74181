use frame_lifecycle::surface::{choose_format, clamp_dimension, Extent, SurfaceFormat, MIN_DIMENSION};

#[test]
fn zero_dimension_is_raised_to_one() {
    assert_eq!(clamp_dimension(0), 1);
    assert_eq!(MIN_DIMENSION, 1);
}

#[test]
fn positive_dimension_is_kept() {
    assert_eq!(clamp_dimension(1), 1);
    assert_eq!(clamp_dimension(2), 2);
    assert_eq!(clamp_dimension(800), 800);
    assert_eq!(clamp_dimension(u32::MAX), u32::MAX);
}

#[test]
fn clamping_twice_is_clamping_once() {
    let requests: Vec<u32> = vec![0, 1, 2, 300, 400, 65_535, u32::MAX];
    for requested in requests {
        let once: u32 = clamp_dimension(requested);
        assert_eq!(clamp_dimension(once), once);
        assert!(once >= 1);
        assert_eq!(once, requested.max(1));
    }
}

#[test]
fn extent_of_empty_window_is_one_by_one() {
    assert_eq!(Extent::clamped(0, 0), Extent { width: 1, height: 1 });
}

#[test]
fn extent_clamps_each_side_on_its_own() {
    assert_eq!(Extent::clamped(0, 300), Extent { width: 1, height: 300 });
    assert_eq!(Extent::clamped(400, 0), Extent { width: 400, height: 1 });
    assert_eq!(Extent::clamped(400, 300), Extent { width: 400, height: 300 });
    assert_eq!(Extent::clamped(800, 800), Extent { width: 800, height: 800 });
}

#[test]
fn first_offered_format_is_chosen() {
    let formats: Vec<SurfaceFormat> =
        vec![SurfaceFormat { id: 7 }, SurfaceFormat { id: 3 }, SurfaceFormat { id: 9 }];
    assert_eq!(choose_format(&formats), Some(SurfaceFormat { id: 7 }));
    let single: Vec<SurfaceFormat> = vec![SurfaceFormat { id: 0 }];
    assert_eq!(choose_format(&single), Some(SurfaceFormat { id: 0 }));
}

#[test]
fn no_format_is_chosen_where_none_is_offered() {
    let formats: Vec<SurfaceFormat> = Vec::new();
    assert_eq!(choose_format(&formats), None);
}
