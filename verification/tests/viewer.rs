use vellum_core::{window_title, Key, KeyOutcome, RenderNotice, Viewer, ZoomChange};

#[test]
fn new_viewer_clamps_the_initial_page() {
    let viewer = Viewer::new(Some(3), 10);
    assert_eq!(viewer.current_page(), 2);
    assert_eq!(viewer.page_count(), 3);
    assert!(viewer.fit_to_window());
    assert!(!viewer.fullscreen());
    assert!(!viewer.chrome_visible());
    assert_eq!(Viewer::new(Some(3), 1).current_page(), 1);
    let empty = Viewer::new(None, 5);
    assert_eq!(empty.current_page(), 0);
    assert_eq!(empty.page_count(), 0);
}

#[test]
fn prefetch_previous_next_then_current() {
    assert_eq!(Viewer::new(Some(5), 2).prefetch_pages(), vec![1, 3, 2]);
    assert_eq!(Viewer::new(Some(5), 0).prefetch_pages(), vec![1, 0]);
    assert_eq!(Viewer::new(Some(5), 4).prefetch_pages(), vec![3, 4]);
    assert_eq!(Viewer::new(Some(1), 0).prefetch_pages(), vec![0]);
    assert_eq!(Viewer::new(None, 0).prefetch_pages(), Vec::<usize>::new());
}

#[test]
fn moving_pages_is_clamped() {
    let mut viewer = Viewer::new(Some(4), 1);
    assert_eq!(viewer.move_page(1), Some(2));
    assert_eq!(viewer.move_page(10), Some(3));
    assert_eq!(viewer.move_page(1), None);
    assert_eq!(viewer.move_page(-2), Some(1));
    assert_eq!(viewer.move_page(isize::MIN), Some(0));
    assert_eq!(viewer.move_page(-1), None);
    assert_eq!(viewer.move_page(isize::MAX), Some(3));
    let mut empty = Viewer::new(None, 0);
    assert_eq!(empty.move_page(1), None);
}

#[test]
fn navigation_keys() {
    let mut viewer = Viewer::new(Some(5), 2);
    assert_eq!(viewer.handle_key(Key::Right), KeyOutcome::MovedTo(3));
    assert_eq!(viewer.handle_key(Key::PageDown), KeyOutcome::MovedTo(4));
    assert_eq!(viewer.handle_key(Key::Space), KeyOutcome::Handled);
    assert_eq!(viewer.handle_key(Key::Left), KeyOutcome::MovedTo(3));
    assert_eq!(viewer.handle_key(Key::PageUp), KeyOutcome::MovedTo(2));
    assert_eq!(viewer.handle_key(Key::Home), KeyOutcome::MovedTo(0));
    assert_eq!(viewer.handle_key(Key::Home), KeyOutcome::Handled);
    assert_eq!(viewer.handle_key(Key::End), KeyOutcome::MovedTo(4));
    assert_eq!(viewer.handle_key(Key::End), KeyOutcome::Handled);
    assert_eq!(viewer.current_page(), 4);
    assert_eq!(viewer.handle_key(Key::Other), KeyOutcome::Ignored);
    assert_eq!(viewer.handle_key(Key::Char('x')), KeyOutcome::Ignored);
    assert_eq!(viewer.handle_key(Key::Function(10)), KeyOutcome::Ignored);
}

#[test]
fn zoom_keys_leave_fit_to_window() {
    let mut viewer = Viewer::new(Some(1), 0);
    assert_eq!(viewer.handle_key(Key::Char('+')), KeyOutcome::Zoom(ZoomChange::In));
    assert!(!viewer.fit_to_window());
    viewer.set_fit_to_window(true);
    assert_eq!(viewer.handle_key(Key::Char('=')), KeyOutcome::Zoom(ZoomChange::In));
    assert_eq!(viewer.handle_key(Key::Char('-')), KeyOutcome::Zoom(ZoomChange::Out));
    assert_eq!(viewer.handle_key(Key::Char('_')), KeyOutcome::Zoom(ZoomChange::Out));
    assert_eq!(viewer.handle_key(Key::Char('0')), KeyOutcome::Zoom(ZoomChange::Reset));
    assert!(!viewer.fit_to_window());
}

#[test]
fn fullscreen_keys_and_chrome() {
    let mut viewer = Viewer::new(None, 0);
    assert_eq!(viewer.handle_key(Key::Escape), KeyOutcome::Ignored);
    assert_eq!(viewer.handle_key(Key::Function(11)), KeyOutcome::Handled);
    assert!(viewer.fullscreen());
    assert!(!viewer.chrome_visible());
    viewer.update_chrome_visibility(10);
    assert!(viewer.chrome_visible());
    viewer.update_chrome_visibility(48);
    assert!(!viewer.chrome_visible());
    assert_eq!(viewer.handle_key(Key::Escape), KeyOutcome::Handled);
    assert!(!viewer.fullscreen());
    assert!(viewer.chrome_visible());
    viewer.update_chrome_visibility(500);
    assert!(viewer.chrome_visible());
    viewer.toggle_fullscreen();
    viewer.toggle_fullscreen();
    assert!(!viewer.fullscreen());
}

#[test]
fn fullscreen_requests_follow_the_window() {
    let mut viewer = Viewer::new(None, 0);
    assert_eq!(viewer.fullscreen_request(), None);
    viewer.set_fullscreen_mode(true);
    assert_eq!(viewer.fullscreen_request(), Some(true));
    assert_eq!(viewer.fullscreen_request_done(true, true), None);
    assert_eq!(viewer.fullscreen_request(), None);
    assert!(!viewer.decorations_hidden());
    viewer.window_resized();
    assert!(viewer.decorations_hidden());

    viewer.set_fullscreen_mode(false);
    assert_eq!(viewer.fullscreen_request(), Some(false));
    assert_eq!(
        viewer.fullscreen_request_done(false, false),
        Some(String::from("Could not leave fullscreen"))
    );
    assert!(viewer.fullscreen());
    assert!(!viewer.chrome_visible());
    assert_eq!(viewer.fullscreen_request(), None);

    let mut other = Viewer::new(None, 0);
    other.set_fullscreen_mode(true);
    assert_eq!(
        other.fullscreen_request_done(true, false),
        Some(String::from("Could not enter fullscreen"))
    );
    assert!(!other.fullscreen());
    assert!(other.chrome_visible());
}

#[test]
fn window_reports_fullscreen_changes() {
    let mut viewer = Viewer::new(Some(2), 0);
    viewer.fullscreen_changed(true);
    assert!(viewer.fullscreen());
    assert!(viewer.decorations_hidden());
    assert!(!viewer.chrome_visible());
    assert_eq!(viewer.fullscreen_request(), None);
    viewer.fullscreen_changed(false);
    assert!(!viewer.decorations_hidden());
    assert!(viewer.chrome_visible());
}

#[test]
fn window_titles() {
    assert_eq!(window_title(Some("a.pdf")), "Vellum — a.pdf");
    assert_eq!(window_title(None), "Vellum — Image & PDF Viewer");
}

#[test]
fn finished_renders_of_other_pages_are_ignored() {
    let viewer = Viewer::new(Some(3), 1);
    assert_eq!(viewer.page_render_finished(0, true), RenderNotice::Stale);
    assert_eq!(viewer.page_render_finished(2, false), RenderNotice::Stale);
    assert_eq!(viewer.page_render_finished(1, true), RenderNotice::Rendered);
    assert_eq!(viewer.page_render_finished(1, false), RenderNotice::Failed);
}
