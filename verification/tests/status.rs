use vellum_core::{opened_status, page_status, render_error_status, rendering_status, DocumentError};

#[test]
fn status_texts_match_the_window_formats() {
    assert_eq!(page_status("a.pdf", 0, 3), "a.pdf — page 1 of 3");
    assert_eq!(page_status("a.pdf", 9, 120), format!("{} — page {} of {}", "a.pdf", 10, 120));
    assert_eq!(rendering_status("b.pdf", 99, 100), "b.pdf — rendering page 100 of 100");
    assert_eq!(render_error_status("boom"), "Could not render page: boom");
    assert_eq!(opened_status("c.png", 1), "c.png — 1 page");
    assert_eq!(page_status("e.pdf", 5, 3), "e.pdf — page 6 of 3");
    assert_eq!(opened_status("d.pdf", 0), "d.pdf — 0 pages");
    assert_eq!(opened_status("d.pdf", 12), "d.pdf — 12 pages");
}

#[test]
fn large_page_numbers_are_written_in_decimal() {
    let count = usize::MAX;
    assert_eq!(
        page_status("x", count - 1, count),
        format!("x — page {} of {}", count, count)
    );
    assert_eq!(
        rendering_status("x", 1_234_567, 10_000_000),
        "x — rendering page 1234568 of 10000000"
    );
}

#[test]
fn errors_are_equal_exactly_when_their_messages_are() {
    let a = DocumentError::new(String::from("same"));
    let b = DocumentError::new(String::from("same"));
    let c = DocumentError::new(String::from("other"));
    assert_eq!(a, b);
    assert_ne!(a, c);
    assert_eq!(a.clone(), a);
    assert_eq!(a.message(), "same");
}
