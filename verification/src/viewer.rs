//! The decisions of the viewer window: which page is shown, which pages to
//! render ahead, what a key does, and how fullscreen follows the window.
//!
//! Zoom factors are floating point and stay with the application; this
//! state machine only records whether the page is fitted to the window.

use vstd::prelude::*;

verus! {

/// A key press or typed character, as the viewer distinguishes them.
#[derive(Clone, Copy, Debug, PartialEq, Eq)]
pub enum Key {
    /// A function key `F1`, `F2`, ... by its number.
    Function(u8),
    Escape,
    Left,
    Right,
    PageUp,
    PageDown,
    Space,
    Home,
    End,
    /// A typed character.
    Char(char),
    /// Any other key.
    Other,
}

/// A change of the zoom factor that a key asks for.
#[derive(Clone, Copy, Debug, PartialEq, Eq)]
pub enum ZoomChange {
    /// Zoom in by a step.
    In,
    /// Zoom out by a step.
    Out,
    /// Show the page at its original size.
    Reset,
}

/// What handling a key did.
#[derive(Clone, Copy, Debug, PartialEq, Eq)]
pub enum KeyOutcome {
    /// The key means nothing to the viewer.
    Ignored,
    /// The key was handled and nothing more is to be done.
    Handled,
    /// The key moved to another page, which now has to be shown.
    MovedTo(usize),
    /// The key asks for a zoom change; the page is no longer fitted.
    Zoom(ZoomChange),
}

/// What to do once a page finished rendering.
#[derive(Clone, Copy, Debug, PartialEq, Eq)]
pub enum RenderNotice {
    /// Another page is shown by now; nothing changes.
    Stale,
    /// The page shown was rendered: redraw it and show its number.
    Rendered,
    /// The page shown could not be rendered: show the error.
    Failed,
}

/// The state of the viewer.
pub struct ViewerModel {
    /// The number of pages of the open document, if one is open.
    pub page_count: Option<usize>,
    pub current_page: usize,
    pub fit_to_window: bool,
    /// Whether fullscreen is wanted.
    pub fullscreen: bool,
    /// Whether the window is fullscreen as far as the viewer knows.
    pub fullscreen_applied: bool,
    pub decorations_hidden: bool,
    /// Whether the header bar shows while in fullscreen.
    pub chrome_visible: bool,
}

/// The last page of a document with `count` pages (0 when it has none).
pub open spec fn last_page(count: usize) -> int {
    if count == 0 {
        0
    } else {
        count - 1
    }
}

/// The page that moving by `delta` from `current` reaches, clamped to the
/// first and last page.
pub open spec fn moved_page(current: int, delta: int, last: int) -> int {
    if delta < 0 {
        if current + delta < 0 {
            0
        } else {
            current + delta
        }
    } else if current + delta > last {
        last
    } else {
        current + delta
    }
}

impl ViewerModel {
    /// Pages stay in the document; page counts fit a slice's length.
    pub open spec fn wf(self) -> bool {
        match self.page_count {
            Some(count) => count <= isize::MAX && self.current_page <= last_page(count),
            None => self.current_page == 0,
        }
    }

    /// The state of a new viewer window.
    pub open spec fn initial(page_count: Option<usize>, initial_page: usize) -> ViewerModel {
        ViewerModel {
            page_count,
            current_page: match page_count {
                Some(count) => if initial_page <= last_page(count) {
                    initial_page
                } else {
                    last_page(count) as usize
                },
                None => 0,
            },
            fit_to_window: true,
            fullscreen: false,
            fullscreen_applied: false,
            decorations_hidden: false,
            chrome_visible: false,
        }
    }

    /// The page that moving by `delta` leads to, when it leads anywhere new.
    pub open spec fn move_target(self, delta: int) -> Option<usize> {
        match self.page_count {
            Some(count) => {
                let target = moved_page(self.current_page as int, delta, last_page(count));
                if target == self.current_page {
                    None
                } else {
                    Some(target as usize)
                }
            },
            None => None,
        }
    }

    /// The state after moving by `delta`.
    pub open spec fn after_move(self, delta: int) -> ViewerModel {
        match self.move_target(delta) {
            Some(target) => ViewerModel { current_page: target, ..self },
            None => self,
        }
    }

    /// The pages to render, in order: the previous one, the next one, and
    /// the current one.
    pub open spec fn prefetch_order(self) -> Seq<usize> {
        match self.page_count {
            Some(count) => {
                let page = self.current_page;
                let before = if page > 0 {
                    seq![(page - 1) as usize]
                } else {
                    Seq::<usize>::empty()
                };
                let after = if page + 1 < count {
                    seq![(page + 1) as usize]
                } else {
                    Seq::<usize>::empty()
                };
                before + after + seq![page]
            },
            None => Seq::empty(),
        }
    }

    /// The state after fullscreen is set to `fullscreen`.
    pub open spec fn with_fullscreen(self, fullscreen: bool) -> ViewerModel {
        ViewerModel { fullscreen, chrome_visible: !fullscreen, ..self }
    }

    /// What a key does: the next state and the outcome.
    pub open spec fn key_transition(self, key: Key) -> (ViewerModel, KeyOutcome) {
        let moved = |delta: int|
            (
                self.after_move(delta),
                match self.move_target(delta) {
                    Some(target) => KeyOutcome::MovedTo(target),
                    None => KeyOutcome::Handled,
                },
            );
        let zoom = |change: ZoomChange|
            (ViewerModel { fit_to_window: false, ..self }, KeyOutcome::Zoom(change));
        match key {
            Key::Function(11) => (self.with_fullscreen(!self.fullscreen), KeyOutcome::Handled),
            Key::Escape => if self.fullscreen {
                (self.with_fullscreen(false), KeyOutcome::Handled)
            } else {
                (self, KeyOutcome::Ignored)
            },
            Key::Left | Key::PageUp => moved(-1),
            Key::Right | Key::PageDown | Key::Space => moved(1),
            Key::Home => moved(-(self.current_page as int)),
            Key::End => {
                let remaining = match self.page_count {
                    Some(count) => last_page(count) - self.current_page,
                    None => 0,
                };
                moved(if remaining < 0 {
                    0
                } else {
                    remaining
                })
            },
            Key::Char(c) => if c == '+' || c == '=' {
                zoom(ZoomChange::In)
            } else if c == '-' || c == '_' {
                zoom(ZoomChange::Out)
            } else if c == '0' {
                zoom(ZoomChange::Reset)
            } else {
                (self, KeyOutcome::Ignored)
            },
            _ => (self, KeyOutcome::Ignored),
        }
    }

    /// The fullscreen state that the window should be asked for, if it
    /// differs from what the window has.
    pub open spec fn fullscreen_request(self) -> Option<bool> {
        if self.fullscreen == self.fullscreen_applied {
            None
        } else {
            Some(self.fullscreen)
        }
    }

    /// The state after the window was asked for fullscreen `desired`; when
    /// the window refused, fullscreen falls back to what the window has.
    pub open spec fn after_fullscreen_request(self, desired: bool, succeeded: bool) -> ViewerModel {
        if succeeded {
            ViewerModel { fullscreen_applied: desired, ..self }
        } else {
            ViewerModel {
                fullscreen: self.fullscreen_applied,
                chrome_visible: !self.fullscreen_applied,
                ..self
            }
        }
    }
}

/// The viewer window's state.
#[derive(Clone, Copy, Debug)]
pub struct Viewer {
    page_count: Option<usize>,
    current_page: usize,
    fit_to_window: bool,
    fullscreen: bool,
    fullscreen_applied: bool,
    decorations_hidden: bool,
    chrome_visible: bool,
}

impl View for Viewer {
    type V = ViewerModel;

    closed spec fn view(&self) -> ViewerModel {
        ViewerModel {
            page_count: self.page_count,
            current_page: self.current_page,
            fit_to_window: self.fit_to_window,
            fullscreen: self.fullscreen,
            fullscreen_applied: self.fullscreen_applied,
            decorations_hidden: self.decorations_hidden,
            chrome_visible: self.chrome_visible,
        }
    }
}

impl Viewer {
    #[verifier::type_invariant]
    closed spec fn page_in_document(&self) -> bool {
        self@.wf()
    }

    /// A new viewer over a document with `page_count` pages (or none),
    /// starting at `initial_page`, clamped to the last page.
    pub fn new(page_count: Option<usize>, initial_page: usize) -> (viewer: Viewer)
        requires
            page_count matches Some(count) ==> count <= isize::MAX,
        ensures
            viewer@ == ViewerModel::initial(page_count, initial_page),
            viewer@.wf(),
    {
        let current_page: usize = match page_count {
            Some(count) => {
                let last: usize = count.saturating_sub(1);
                if initial_page <= last {
                    initial_page
                } else {
                    last
                }
            },
            None => 0,
        };
        Viewer {
            page_count,
            current_page,
            fit_to_window: true,
            fullscreen: false,
            fullscreen_applied: false,
            decorations_hidden: false,
            chrome_visible: false,
        }
    }

    /// The number of pages, or 0 without a document.
    pub fn page_count(&self) -> (count: usize)
        ensures
            count == match self@.page_count {
                Some(n) => n,
                None => 0,
            },
            self@.wf(),
    {
        proof {
            use_type_invariant(self);
        }
        match self.page_count {
            Some(count) => count,
            None => 0,
        }
    }

    /// The zero-based page shown.
    pub fn current_page(&self) -> (page: usize)
        ensures
            page == self@.current_page,
            self@.wf(),
    {
        proof {
            use_type_invariant(self);
        }
        self.current_page
    }

    /// Whether the page is fitted to the window.
    pub fn fit_to_window(&self) -> (fit: bool)
        ensures
            fit == self@.fit_to_window,
    {
        self.fit_to_window
    }

    /// Whether fullscreen is wanted.
    pub fn fullscreen(&self) -> (fullscreen: bool)
        ensures
            fullscreen == self@.fullscreen,
    {
        self.fullscreen
    }

    /// Whether the header bar shows while in fullscreen.
    pub fn chrome_visible(&self) -> (visible: bool)
        ensures
            visible == self@.chrome_visible,
    {
        self.chrome_visible
    }

    /// Whether the window decorations are hidden.
    pub fn decorations_hidden(&self) -> (hidden: bool)
        ensures
            hidden == self@.decorations_hidden,
    {
        self.decorations_hidden
    }

    /// The pages to render around the current one: the previous, the next,
    /// and the current page itself. Without a document there are none.
    pub fn prefetch_pages(&self) -> (pages: Vec<usize>)
        ensures
            pages@ == self@.prefetch_order(),
    {
        proof {
            use_type_invariant(self);
        }
        let mut pages: Vec<usize> = Vec::new();
        match self.page_count {
            Some(count) => {
                let page: usize = self.current_page;
                if page > 0 {
                    pages.push(page - 1);
                }
                if page + 1 < count {
                    pages.push(page + 1);
                }
                pages.push(page);
            },
            None => {},
        }
        assert(pages@ =~= self@.prefetch_order());
        pages
    }

    /// Move by `delta` pages, clamped to the first and last page. Returns
    /// the page moved to, or `None` when the page stays the same.
    pub fn move_page(&mut self, delta: isize) -> (target: Option<usize>)
        ensures
            target == old(self)@.move_target(delta as int),
            final(self)@ == old(self)@.after_move(delta as int),
    {
        proof {
            use_type_invariant(&*self);
        }
        let count: usize = match self.page_count {
            Some(count) => count,
            None => {
                return None;
            },
        };
        let current: usize = self.current_page;
        let last: usize = count.saturating_sub(1);
        let target: usize = if delta < 0 {
            let magnitude: usize = if delta == isize::MIN {
                (isize::MAX as usize) + 1
            } else {
                (-delta) as usize
            };
            current.saturating_sub(magnitude)
        } else {
            let moved: usize = current.saturating_add(delta as usize);
            if moved < last {
                moved
            } else {
                last
            }
        };
        if target == current {
            return None;
        }
        self.current_page = target;
        Some(target)
    }

    /// Decide what a finished rendering of `page` means for the window: it
    /// is ignored unless `page` is still the page shown.
    pub fn page_render_finished(&self, page: usize, succeeded: bool) -> (notice: RenderNotice)
        ensures
            notice == if page != self@.current_page {
                RenderNotice::Stale
            } else if succeeded {
                RenderNotice::Rendered
            } else {
                RenderNotice::Failed
            },
    {
        if self.current_page != page {
            RenderNotice::Stale
        } else if succeeded {
            RenderNotice::Rendered
        } else {
            RenderNotice::Failed
        }
    }

    /// Fit the page to the window, or show it at its own zoom factor.
    pub fn set_fit_to_window(&mut self, fit: bool)
        ensures
            final(self)@ == (ViewerModel { fit_to_window: fit, ..old(self)@ }),
    {
        proof {
            use_type_invariant(&*self);
        }
        self.fit_to_window = fit;
    }

    /// Enter or leave fullscreen; the header bar shows exactly outside it.
    pub fn set_fullscreen_mode(&mut self, fullscreen: bool)
        ensures
            final(self)@ == old(self)@.with_fullscreen(fullscreen),
    {
        proof {
            use_type_invariant(&*self);
        }
        self.fullscreen = fullscreen;
        self.chrome_visible = !fullscreen;
    }

    /// Toggle fullscreen.
    pub fn toggle_fullscreen(&mut self)
        ensures
            final(self)@ == old(self)@.with_fullscreen(!old(self)@.fullscreen),
    {
        let fullscreen = !self.fullscreen;
        self.set_fullscreen_mode(fullscreen);
    }

    /// In fullscreen, show the header bar while the pointer is near the top
    /// of the window.
    pub fn update_chrome_visibility(&mut self, y: i32)
        ensures
            final(self)@ == if old(self)@.fullscreen {
                ViewerModel { chrome_visible: y < 48, ..old(self)@ }
            } else {
                old(self)@
            },
    {
        proof {
            use_type_invariant(&*self);
        }
        if self.fullscreen {
            self.chrome_visible = y < 48;
        }
    }

    /// Handle a key: fullscreen with `F11` and `Escape`, pages with the
    /// arrow, page, space, home and end keys, zoom with `+`, `=`, `-`, `_`
    /// and `0`.
    pub fn handle_key(&mut self, key: Key) -> (outcome: KeyOutcome)
        ensures
            (final(self)@, outcome) == old(self)@.key_transition(key),
    {
        proof {
            use_type_invariant(&*self);
        }
        match key {
            Key::Function(11) => {
                self.toggle_fullscreen();
                KeyOutcome::Handled
            },
            Key::Escape => {
                if self.fullscreen {
                    self.set_fullscreen_mode(false);
                    KeyOutcome::Handled
                } else {
                    KeyOutcome::Ignored
                }
            },
            Key::Left | Key::PageUp => self.moved_outcome(-1),
            Key::Right | Key::PageDown | Key::Space => self.moved_outcome(1),
            Key::Home => {
                let current: usize = self.current_page;
                self.moved_outcome(-(current as isize))
            },
            Key::End => {
                let count: usize = match self.page_count {
                    Some(count) => count,
                    None => 0,
                };
                let remaining: usize = count.saturating_sub(1).saturating_sub(self.current_page);
                self.moved_outcome(remaining as isize)
            },
            Key::Char(c) => {
                if c == '+' || c == '=' {
                    self.fit_to_window = false;
                    KeyOutcome::Zoom(ZoomChange::In)
                } else if c == '-' || c == '_' {
                    self.fit_to_window = false;
                    KeyOutcome::Zoom(ZoomChange::Out)
                } else if c == '0' {
                    self.fit_to_window = false;
                    KeyOutcome::Zoom(ZoomChange::Reset)
                } else {
                    KeyOutcome::Ignored
                }
            },
            _ => KeyOutcome::Ignored,
        }
    }

    fn moved_outcome(&mut self, delta: isize) -> (outcome: KeyOutcome)
        ensures
            final(self)@ == old(self)@.after_move(delta as int),
            outcome == match old(self)@.move_target(delta as int) {
                Some(target) => KeyOutcome::MovedTo(target),
                None => KeyOutcome::Handled,
            },
    {
        match self.move_page(delta) {
            Some(target) => KeyOutcome::MovedTo(target),
            None => KeyOutcome::Handled,
        }
    }

    /// The fullscreen state to ask the window for, when it differs from
    /// what the window has.
    pub fn fullscreen_request(&self) -> (request: Option<bool>)
        ensures
            request == self@.fullscreen_request(),
    {
        if self.fullscreen == self.fullscreen_applied {
            None
        } else {
            Some(self.fullscreen)
        }
    }

    /// Record how the window answered a request for fullscreen `desired`.
    /// When it refused, fullscreen falls back to what the window has and
    /// the status message to show is returned.
    pub fn fullscreen_request_done(&mut self, desired: bool, succeeded: bool) -> (message: Option<String>)
        ensures
            final(self)@ == old(self)@.after_fullscreen_request(desired, succeeded),
            succeeded ==> message is None,
            !succeeded && desired ==> (message matches Some(m) && m@ == "Could not enter fullscreen"@),
            !succeeded && !desired ==> (message matches Some(m) && m@ == "Could not leave fullscreen"@),
    {
        proof {
            use_type_invariant(&*self);
        }
        if succeeded {
            self.fullscreen_applied = desired;
            None
        } else {
            let applied = self.fullscreen_applied;
            self.fullscreen = applied;
            self.chrome_visible = !applied;
            if desired {
                Some(String::from_str("Could not enter fullscreen"))
            } else {
                Some(String::from_str("Could not leave fullscreen"))
            }
        }
    }

    /// The window entered or left fullscreen by itself.
    pub fn fullscreen_changed(&mut self, fullscreen: bool)
        ensures
            final(self)@ == (ViewerModel {
                fullscreen,
                fullscreen_applied: fullscreen,
                decorations_hidden: fullscreen,
                chrome_visible: !fullscreen,
                ..old(self)@
            }),
    {
        proof {
            use_type_invariant(&*self);
        }
        self.fullscreen = fullscreen;
        self.fullscreen_applied = fullscreen;
        self.decorations_hidden = fullscreen;
        self.chrome_visible = !fullscreen;
    }

    /// The window was resized: once fullscreen is applied, the decorations
    /// follow it.
    pub fn window_resized(&mut self)
        ensures
            final(self)@ == if old(self)@.fullscreen_applied == old(self)@.fullscreen
                && old(self)@.decorations_hidden != old(self)@.fullscreen {
                ViewerModel { decorations_hidden: old(self)@.fullscreen, ..old(self)@ }
            } else {
                old(self)@
            },
    {
        proof {
            use_type_invariant(&*self);
        }
        let fullscreen = self.fullscreen;
        if self.fullscreen_applied == fullscreen && self.decorations_hidden != fullscreen {
            self.decorations_hidden = fullscreen;
        }
    }
}

/// Every key keeps the shown page inside the document.
pub proof fn lemma_keys_keep_page_in_document(viewer: ViewerModel, key: Key)
    requires
        viewer.wf(),
    ensures
        viewer.key_transition(key).0.wf(),
        viewer.key_transition(key).0.page_count == viewer.page_count,
{
}

/// With a document open, `Home` shows the first page, `End` the last, and
/// the arrow keys step one page back or forward unless already at the end.
pub proof fn lemma_navigation_keys(viewer: ViewerModel, count: usize)
    requires
        viewer.wf(),
        viewer.page_count == Some(count),
        count >= 1,
    ensures
        viewer.key_transition(Key::Home).0.current_page == 0,
        viewer.key_transition(Key::End).0.current_page == count - 1,
        viewer.current_page > 0 ==> viewer.key_transition(Key::Left).0.current_page
            == viewer.current_page - 1,
        viewer.current_page == 0 ==> viewer.key_transition(Key::Left).1 == KeyOutcome::Handled,
        viewer.current_page + 1 < count ==> viewer.key_transition(Key::Right).0.current_page
            == viewer.current_page + 1,
        viewer.current_page + 1 == count ==> viewer.key_transition(Key::Right).1 == KeyOutcome::Handled,
        viewer.key_transition(Key::PageUp) == viewer.key_transition(Key::Left),
        viewer.key_transition(Key::PageDown) == viewer.key_transition(Key::Right),
        viewer.key_transition(Key::Space) == viewer.key_transition(Key::Right),
{
}

/// Stepping forward one page and back again returns to the page shown,
/// unless the document ended there.
pub proof fn lemma_step_forward_then_back(viewer: ViewerModel, count: usize)
    requires
        viewer.wf(),
        viewer.page_count == Some(count),
        viewer.current_page + 1 < count,
    ensures
        viewer.after_move(1).after_move(-1) == viewer,
{
}

/// Toggling fullscreen twice restores the fullscreen wish.
pub proof fn lemma_toggle_twice(viewer: ViewerModel)
    ensures
        viewer.with_fullscreen(!viewer.fullscreen).with_fullscreen(!viewer.with_fullscreen(
            !viewer.fullscreen,
        ).fullscreen).fullscreen == viewer.fullscreen,
{
}

/// `F11` toggles fullscreen: it leaves fullscreen when in it and enters it
/// otherwise, shows the header bar exactly outside fullscreen, keeps the
/// page, and pressing it twice restores the fullscreen state.
pub proof fn lemma_f11_toggles_fullscreen(viewer: ViewerModel)
    ensures
        viewer.key_transition(Key::Function(11)).0.fullscreen == !viewer.fullscreen,
        viewer.key_transition(Key::Function(11)).0.chrome_visible == viewer.fullscreen,
        viewer.key_transition(Key::Function(11)).0.current_page == viewer.current_page,
        viewer.key_transition(Key::Function(11)).1 == KeyOutcome::Handled,
        viewer.key_transition(Key::Function(11)).0.key_transition(Key::Function(11)).0.fullscreen
            == viewer.fullscreen,
        viewer.fullscreen ==> !viewer.key_transition(Key::Escape).0.fullscreen
            && viewer.key_transition(Key::Escape).0.chrome_visible,
{
}

/// Once the window answered a fullscreen request, nothing more is to be
/// asked of it, whether it complied or refused.
pub proof fn lemma_fullscreen_request_settles(viewer: ViewerModel, succeeded: bool)
    requires
        viewer.fullscreen_request() is Some,
    ensures
        viewer.after_fullscreen_request(viewer.fullscreen, succeeded).fullscreen_request() is None,
        !succeeded ==> viewer.after_fullscreen_request(viewer.fullscreen, succeeded).fullscreen
            == viewer.fullscreen_applied,
{
}

/// The pages rendered ahead are pages of the document, and the current page
/// is always among them.
pub proof fn lemma_prefetch_in_document(viewer: ViewerModel, count: usize)
    requires
        viewer.wf(),
        viewer.page_count == Some(count),
        count >= 1,
    ensures
        viewer.prefetch_order().contains(viewer.current_page),
        viewer.current_page + 1 < count ==> viewer.prefetch_order().contains(
            (viewer.current_page + 1) as usize,
        ),
        viewer.current_page > 0 ==> viewer.prefetch_order().contains(
            (viewer.current_page - 1) as usize,
        ),
        forall|i: int|
            0 <= i < viewer.prefetch_order().len() ==> #[trigger] viewer.prefetch_order()[i] < count,
        forall|i: int|
            0 <= i < viewer.prefetch_order().len() ==> viewer.current_page - 1
                <= #[trigger] viewer.prefetch_order()[i] <= viewer.current_page + 1,
        viewer.prefetch_order().last() == viewer.current_page,
{
    let order = viewer.prefetch_order();
    let page = viewer.current_page;
    assert(order[order.len() - 1] == page);
    if page > 0 {
        assert(order[0] == (page - 1) as usize);
    }
    if page + 1 < count {
        if page > 0 {
            assert(order[1] == (page + 1) as usize);
        } else {
            assert(order[0] == (page + 1) as usize);
        }
    }
}

/// The window title: the document's title, or what the viewer is.
pub fn window_title(document_title: Option<&str>) -> (title: String)
    ensures
        title@ == match document_title {
            Some(t) => "Vellum — "@ + t@,
            None => "Vellum — Image & PDF Viewer"@,
        },
{
    match document_title {
        Some(t) => {
            let mut title = String::from_str("Vellum — ");
            title.append(t);
            title
        },
        None => String::from_str("Vellum — Image & PDF Viewer"),
    }
}

} // verus!
