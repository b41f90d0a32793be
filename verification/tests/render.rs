use chimera_tui::render::{virtual_scroll_window, FOOTER_TEXT};
use chimera_tui::rewind::is_double_esc;

#[test]
fn test_footer_text_constant() {
    assert!(FOOTER_TEXT.contains("Tab"));
    assert!(FOOTER_TEXT.contains(":"));
    assert!(FOOTER_TEXT.contains("q"));
}

#[test]
fn test_virtual_scroll_window_empty() {
    assert_eq!(virtual_scroll_window(0, 0, 10), (0, 0));
}

#[test]
fn test_virtual_scroll_window_zero_visible() {
    assert_eq!(virtual_scroll_window(100, 50, 0), (0, 0));
}

#[test]
fn test_virtual_scroll_window_small_list() {
    let (start, end) = virtual_scroll_window(10, 0, 20);
    assert_eq!(start, 0);
    assert_eq!(end, 10);
}

#[test]
fn test_virtual_scroll_window_large_list_middle() {
    let (start, end) = virtual_scroll_window(10000, 5000, 20);
    assert_eq!(start, 4995);
    assert_eq!(end, 5025);
    assert_eq!(end - start, 30);
}

#[test]
fn test_virtual_scroll_window_near_start() {
    let (start, end) = virtual_scroll_window(1000, 2, 20);
    assert_eq!(start, 0);
    assert_eq!(end, 27);
}

#[test]
fn test_virtual_scroll_window_near_end() {
    let (start, end) = virtual_scroll_window(100, 95, 20);
    assert_eq!(end, 100);
    assert_eq!(start, 90);
}

#[test]
fn test_virtual_scroll_window_offset_exceeds_total() {
    let (start, end) = virtual_scroll_window(50, 100, 20);
    assert_eq!(start, 44);
    assert_eq!(end, 50);
}

#[test]
fn double_esc_within_window() {
    assert!(is_double_esc(Some(1000), 1200, 500));
    assert!(!is_double_esc(Some(1000), 1600, 500));
    assert!(!is_double_esc(None, 1200, 500));
}
