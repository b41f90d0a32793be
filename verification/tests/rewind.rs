use chimera_tui::rewind::{is_double_esc, DOUBLE_ESC_WINDOW_MS};

#[test]
fn first_esc_is_never_double() {
    assert!(!is_double_esc(None, 1000, DOUBLE_ESC_WINDOW_MS));
}

#[test]
fn within_window_is_double() {
    assert!(is_double_esc(Some(1000), 1499, DOUBLE_ESC_WINDOW_MS));
}

#[test]
fn boundary_equal_window_is_double() {
    assert!(is_double_esc(Some(1000), 1500, DOUBLE_ESC_WINDOW_MS));
}

#[test]
fn beyond_window_is_not_double() {
    assert!(!is_double_esc(Some(1000), 1501, DOUBLE_ESC_WINDOW_MS));
}

#[test]
fn clock_backwards_is_not_double() {
    assert!(!is_double_esc(Some(2000), 1000, DOUBLE_ESC_WINDOW_MS));
}

#[test]
fn window_boundary_gaps() {
    for base in [0u64, 7, 999_999] {
        for gap in [0u64, 1, 499, 500, 501, 1999] {
            assert_eq!(is_double_esc(Some(base), base + gap, DOUBLE_ESC_WINDOW_MS), gap <= DOUBLE_ESC_WINDOW_MS);
        }
    }
}
