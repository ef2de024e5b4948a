use image_sort::preview::fit_to_viewport;

#[test]
fn an_image_that_already_fits_is_untouched() {
    assert_eq!(fit_to_viewport(100, 50, 200, 100), (100, 50));
    assert_eq!(fit_to_viewport(200, 100, 200, 100), (200, 100));
}

#[test]
fn height_clamp_scales_the_width_along() {
    assert_eq!(fit_to_viewport(1000, 500, 500, 250), (500, 250));
}

#[test]
fn width_clamp_scales_the_height_along() {
    assert_eq!(fit_to_viewport(100, 10, 50, 20), (50, 5));
}

#[test]
fn both_clamps_apply_in_sequence() {
    // Height clamp: 400 -> 200, width 1000 -> 500; then width clamp:
    // 500 -> 300, height 200 -> 120, computed against the scaled width.
    assert_eq!(fit_to_viewport(1000, 400, 300, 200), (300, 120));
}

#[test]
fn result_never_exceeds_image_or_viewport() {
    let cases: [(u32, u32, u32, u32); 5] = [
        (1, 1, 1, 1),
        (4096, 2160, 998, 684),
        (33, 7777, 640, 480),
        (0, 0, 100, 100),
        (u32::MAX, u32::MAX, 800, 600),
    ];
    for (iw, ih, fw, fh) in cases {
        let (w, h) = fit_to_viewport(iw, ih, fw, fh);
        assert!(w <= iw && h <= ih);
        assert!(w <= fw && h <= fh);
    }
}
