use aaag::dimensions::build_target_dimensions;
use aaag::dimensions::resolve_dimensions;
use aaag::dimensions::DimensionError;

#[test]
fn explicit_dimensions_kept_verbatim() {
    assert_eq!(resolve_dimensions(100, 50, Some(7), Some(9), 0, 0), Ok((7, 9)));
    assert_eq!(resolve_dimensions(1, 1, Some(3000), Some(2), 0, 0), Ok((3000, 2)));
}

#[test]
fn height_only_scales_width_truncating() {
    // 1600/900 * 9 = 16
    assert_eq!(resolve_dimensions(1600, 900, None, Some(9), 0, 0), Ok((16, 9)));
    // 100/70 * 50 = 71.43 -> truncates to 71
    assert_eq!(resolve_dimensions(100, 70, None, Some(50), 0, 0), Ok((71, 50)));
}

#[test]
fn width_only_scales_height_truncating() {
    // 900/1600 * 16 = 9
    assert_eq!(resolve_dimensions(1600, 900, Some(16), None, 0, 0), Ok((16, 9)));
    // 70/100 * 45 = 31.5 -> truncates to 31
    assert_eq!(resolve_dimensions(100, 70, Some(45), None, 0, 0), Ok((45, 31)));
}

#[test]
fn terminal_wider_than_image_keeps_rows() {
    // terminal 80x24 is relatively wider than 16:9, so height = 24,
    // width = truncate(24 * 16/9) = 42
    assert_eq!(resolve_dimensions(1600, 900, None, None, 80, 24), Ok((42, 24)));
}

#[test]
fn terminal_narrower_than_image_keeps_cols() {
    // a 16:1 image is relatively wider than an 80x24 terminal,
    // so width = 80, height = truncate(80 * 1/16) = 5
    assert_eq!(resolve_dimensions(1600, 100, None, None, 80, 24), Ok((80, 5)));
}

#[test]
fn zero_resolved_width_is_an_error() {
    assert_eq!(
        resolve_dimensions(10, 10, Some(0), Some(5), 0, 0),
        Err(DimensionError::WidthTooSmall)
    );
    // 1/100 * 50 truncates to 0
    assert_eq!(
        resolve_dimensions(1, 100, None, Some(50), 0, 0),
        Err(DimensionError::WidthTooSmall)
    );
}

#[test]
fn zero_resolved_height_is_an_error() {
    assert_eq!(
        resolve_dimensions(10, 10, Some(5), Some(0), 0, 0),
        Err(DimensionError::HeightTooSmall)
    );
    // 100/1 wide image against a narrow terminal: height truncates to 0
    assert_eq!(
        resolve_dimensions(10000, 1, None, None, 80, 24),
        Err(DimensionError::HeightTooSmall)
    );
}

#[test]
fn width_checked_before_height() {
    assert_eq!(
        resolve_dimensions(10, 10, Some(0), Some(0), 0, 0),
        Err(DimensionError::WidthTooSmall)
    );
}

#[test]
fn build_with_explicit_sizes_needs_no_terminal() {
    assert_eq!(build_target_dimensions(100, 50, Some(10), None), Ok((10, 5)));
    assert_eq!(build_target_dimensions(100, 50, None, Some(5)), Ok((10, 5)));
    assert_eq!(build_target_dimensions(100, 50, Some(12), Some(34)), Ok((12, 34)));
}

#[test]
fn build_with_no_sizes_queries_the_terminal() {
    // The live terminal (if any) decides the outcome; every allowed
    // outcome is a policy result or the unavailability error.
    match build_target_dimensions(160, 90, None, None) {
        Ok((w, h)) => {
            assert!(w >= 1);
            assert!(h >= 1);
        }
        Err(e) => {
            assert!(matches!(
                e,
                DimensionError::TerminalUnavailable
                    | DimensionError::WidthTooSmall
                    | DimensionError::HeightTooSmall
            ));
        }
    }
}
