//! Window registry: tracks at most one live window per id, creates a window
//! lazily on the first request and surfaces (shows and focuses) the existing
//! one on every later request.
//!
//! A window is never destroyed: the platform's close button only hides it,
//! and a hidden window is found again by the next request and re-shown
//! rather than duplicated. The actual windowing calls (create, show, set
//! focus) are carried out by the surrounding application; the registry is
//! the authoritative model of which windows exist and whether they are
//! visible and focused.

use vstd::prelude::*;

verus! {

/// Construction parameters for a named window: title, content source URL,
/// initial and minimum logical sizes, and the resizable/centered flags.
pub struct WindowConfig {
    pub title: String,
    pub url: String,
    pub width: u32,
    pub height: u32,
    pub min_width: u32,
    pub min_height: u32,
    pub resizable: bool,
    pub centered: bool,
}

/// Mathematical model of a [`WindowConfig`].
pub struct WindowConfigView {
    pub title: Seq<char>,
    pub url: Seq<char>,
    pub width: u32,
    pub height: u32,
    pub min_width: u32,
    pub min_height: u32,
    pub resizable: bool,
    pub centered: bool,
}

impl View for WindowConfig {
    type V = WindowConfigView;

    open spec fn view(&self) -> WindowConfigView {
        WindowConfigView {
            title: self.title@,
            url: self.url@,
            width: self.width,
            height: self.height,
            min_width: self.min_width,
            min_height: self.min_height,
            resizable: self.resizable,
            centered: self.centered,
        }
    }
}

/// One window tracked by the registry, with its current visibility state.
pub struct TrackedWindow {
    pub id: String,
    pub config: WindowConfig,
    pub visible: bool,
    pub focused: bool,
}

/// Mathematical model of a [`TrackedWindow`].
pub struct TrackedWindowView {
    pub id: Seq<char>,
    pub config: WindowConfigView,
    pub visible: bool,
    pub focused: bool,
}

impl View for TrackedWindow {
    type V = TrackedWindowView;

    open spec fn view(&self) -> TrackedWindowView {
        TrackedWindowView {
            id: self.id@,
            config: self.config@,
            visible: self.visible,
            focused: self.focused,
        }
    }
}

/// Well-formedness of a registry model: ids are unique, so at most one live
/// window exists per id.
pub open spec fn wf_registry(ws: Seq<TrackedWindowView>) -> bool {
    forall|i: int, j: int| 0 <= i < j < ws.len() ==> ws[i].id != ws[j].id
}

/// Some tracked window carries `id`.
pub open spec fn has_window(ws: Seq<TrackedWindowView>, id: Seq<char>) -> bool {
    exists|i: int| 0 <= i < ws.len() && ws[i].id == id
}

/// The position of the window carrying `id` (meaningful when
/// `has_window(ws, id)` holds; under `wf_registry` it is unique).
pub open spec fn window_index(ws: Seq<TrackedWindowView>, id: Seq<char>) -> int {
    choose|i: int| 0 <= i < ws.len() && ws[i].id == id
}

/// How many tracked windows carry `id`.
pub open spec fn count_id(ws: Seq<TrackedWindowView>, id: Seq<char>) -> nat
    decreases ws.len(),
{
    if ws.len() == 0 {
        0
    } else {
        count_id(ws.drop_last(), id) + (if ws.last().id == id {
            1nat
        } else {
            0nat
        })
    }
}

/// The registry after an "ensure visible" request: an existing window with
/// this id is shown and focused in place; otherwise a new visible, focused
/// window is registered from `c`.
pub open spec fn ensure_visible(
    ws: Seq<TrackedWindowView>,
    id: Seq<char>,
    c: WindowConfigView,
) -> Seq<TrackedWindowView> {
    if has_window(ws, id) {
        let i = window_index(ws, id);
        ws.update(i, TrackedWindowView { visible: true, focused: true, ..ws[i] })
    } else {
        ws.push(TrackedWindowView { id: id, config: c, visible: true, focused: true })
    }
}

/// The registry after the platform hides the window carrying `id` (the
/// native close button): the window stays registered, merely invisible and
/// unfocused. Without such a window nothing changes.
pub open spec fn mark_hidden(ws: Seq<TrackedWindowView>, id: Seq<char>) -> Seq<TrackedWindowView> {
    if has_window(ws, id) {
        let i = window_index(ws, id);
        ws.update(i, TrackedWindowView { visible: false, focused: false, ..ws[i] })
    } else {
        ws
    }
}

/// The window registry itself; its model is the sequence of tracked
/// windows.
pub struct WindowRegistry {
    windows: Vec<TrackedWindow>,
}

impl View for WindowRegistry {
    type V = Seq<TrackedWindowView>;

    closed spec fn view(&self) -> Seq<TrackedWindowView> {
        self.windows@.map_values(|w: TrackedWindow| w@)
    }
}

impl WindowRegistry {
    /// A registry tracking no windows.
    pub fn new() -> (r: WindowRegistry)
        ensures
            r@.len() == 0,
            wf_registry(r@),
    {
        let r = WindowRegistry { windows: Vec::new() };
        proof {
            assert(r@ =~= Seq::<TrackedWindowView>::empty());
        }
        r
    }

    /// How many windows the registry tracks.
    pub fn window_count(&self) -> (n: usize)
        ensures
            n == self@.len(),
    {
        self.windows.len()
    }

    /// The position of the window carrying `id`, if one exists.
    fn find_index(&self, id: &String) -> (r: Option<usize>)
        requires
            wf_registry(self@),
        ensures
            match r {
                Some(i) => {
                    &&& 0 <= i < self@.len()
                    &&& self@[i as int].id == id@
                    &&& has_window(self@, id@)
                    &&& window_index(self@, id@) == i
                },
                None => !has_window(self@, id@),
            },
    {
        let n = self.windows.len();
        let mut k: usize = 0;
        while k < n
            invariant
                n == self@.len(),
                k <= n,
                wf_registry(self@),
                forall|m: int| 0 <= m < k ==> self@[m].id != id@,
            decreases n - k,
        {
            if self.windows[k].id == *id {
                proof {
                    assert(self@[k as int].id == id@);
                    let w = window_index(self@, id@);
                    assert(0 <= w < self@.len() && self@[w].id == id@);
                    if w != k as int {
                        assert(self@[w].id != self@[k as int].id);
                    }
                }
                return Some(k);
            }
            k = k + 1;
        }
        None
    }

    /// Visibility and focus of the window carrying `id`, if one exists.
    pub fn window_state(&self, id: &String) -> (r: Option<(bool, bool)>)
        requires
            wf_registry(self@),
        ensures
            match r {
                Some(st) => {
                    &&& has_window(self@, id@)
                    &&& st.0 == self@[window_index(self@, id@)].visible
                    &&& st.1 == self@[window_index(self@, id@)].focused
                },
                None => !has_window(self@, id@),
            },
    {
        match self.find_index(id) {
            Some(i) => {
                let w = &self.windows[i];
                Some((w.visible, w.focused))
            },
            None => None,
        }
    }

    /// Ensure the window carrying `id` exists and is visible and focused:
    /// show and focus an existing window, or register a new one built from
    /// `config`. Returns whether a window had to be created.
    pub fn ensure_window_visible(&mut self, id: String, config: WindowConfig) -> (created: bool)
        requires
            wf_registry(old(self)@),
        ensures
            final(self)@ == ensure_visible(old(self)@, id@, config@),
            wf_registry(final(self)@),
            created == !has_window(old(self)@, id@),
    {
        let found = self.find_index(&id);
        match found {
            Some(i) => {
                self.windows[i].visible = true;
                self.windows[i].focused = true;
                proof {
                    let gi = i as int;
                    let target = ensure_visible(old(self)@, id@, config@);
                    assert(self@ =~= target);
                    lemma_update_keeps_ids(old(self)@, target, gi);
                }
                false
            },
            None => {
                let w = TrackedWindow { id: id, config: config, visible: true, focused: true };
                self.windows.push(w);
                proof {
                    assert(self@ =~= ensure_visible(old(self)@, id@, config@));
                    lemma_ensure_visible_wf(old(self)@, id@, config@);
                }
                true
            },
        }
    }

    /// Record that the platform hid the window carrying `id` (the native
    /// close button): it stays registered, invisible and unfocused.
    pub fn hide_window(&mut self, id: &String)
        requires
            wf_registry(old(self)@),
        ensures
            final(self)@ == mark_hidden(old(self)@, id@),
            wf_registry(final(self)@),
    {
        let found = self.find_index(id);
        match found {
            Some(i) => {
                self.windows[i].visible = false;
                self.windows[i].focused = false;
                proof {
                    let gi = i as int;
                    let target = mark_hidden(old(self)@, id@);
                    assert(self@ =~= target);
                    lemma_update_keeps_ids(old(self)@, target, gi);
                }
            },
            None => {
                proof {
                    assert(self@ =~= mark_hidden(old(self)@, id@));
                }
            },
        }
    }
}

/// An update that keeps every id in place preserves well-formedness.
proof fn lemma_update_keeps_ids(ws: Seq<TrackedWindowView>, ws2: Seq<TrackedWindowView>, i: int)
    requires
        wf_registry(ws),
        ws2.len() == ws.len(),
        forall|k: int| 0 <= k < ws.len() ==> ws2[k].id == ws[k].id,
    ensures
        wf_registry(ws2),
{
    assert forall|a: int, b: int| 0 <= a < b < ws2.len() implies ws2[a].id != ws2[b].id by {
        assert(ws[a].id != ws[b].id);
    }
}

/// In a well-formed registry the position of an id is the position of any
/// window carrying it.
pub proof fn lemma_window_index_of(ws: Seq<TrackedWindowView>, id: Seq<char>, i: int)
    requires
        wf_registry(ws),
        0 <= i < ws.len(),
        ws[i].id == id,
    ensures
        has_window(ws, id),
        window_index(ws, id) == i,
{
    assert(has_window(ws, id));
    let j = window_index(ws, id);
    assert(0 <= j < ws.len() && ws[j].id == id);
    if j != i {
        assert(ws[i].id != ws[j].id);
    }
}

/// An "ensure visible" request preserves well-formedness, and grows the
/// registry exactly when no window carried the id.
pub proof fn lemma_ensure_visible_wf(ws: Seq<TrackedWindowView>, id: Seq<char>, c: WindowConfigView)
    requires
        wf_registry(ws),
    ensures
        wf_registry(ensure_visible(ws, id, c)),
        has_window(ws, id) ==> ensure_visible(ws, id, c).len() == ws.len(),
        !has_window(ws, id) ==> ensure_visible(ws, id, c).len() == ws.len() + 1,
{
    let ws2 = ensure_visible(ws, id, c);
    if has_window(ws, id) {
        lemma_update_keeps_ids(ws, ws2, window_index(ws, id));
    } else {
        assert forall|a: int, b: int| 0 <= a < b < ws2.len() implies ws2[a].id != ws2[b].id by {
            if b < ws2.len() - 1 {
                assert(ws[a].id != ws[b].id);
            } else {
                assert(!(0 <= a < ws.len() && ws[a].id == id));
            }
        }
    }
}

/// An "ensure visible" request leaves a window carrying the id, visible and
/// focused, whatever its prior visibility state; its id and construction
/// parameters are those it already had, or the requested ones on creation.
pub proof fn lemma_ensure_visible_shows_window(
    ws: Seq<TrackedWindowView>,
    id: Seq<char>,
    c: WindowConfigView,
)
    requires
        wf_registry(ws),
    ensures
        ({
            let ws2 = ensure_visible(ws, id, c);
            &&& wf_registry(ws2)
            &&& has_window(ws2, id)
            &&& ws2[window_index(ws2, id)].visible
            &&& ws2[window_index(ws2, id)].focused
            &&& has_window(ws, id) ==> window_index(ws2, id) == window_index(ws, id)
                && ws2[window_index(ws2, id)].config == ws[window_index(ws, id)].config
            &&& !has_window(ws, id) ==> window_index(ws2, id) == ws.len() && ws2[window_index(
                ws2,
                id,
            )].config == c
        }),
{
    let ws2 = ensure_visible(ws, id, c);
    lemma_ensure_visible_wf(ws, id, c);
    if has_window(ws, id) {
        let i = window_index(ws, id);
        assert(0 <= i < ws.len() && ws[i].id == id);
        lemma_window_index_of(ws2, id, i);
    } else {
        lemma_window_index_of(ws2, id, ws.len() as int);
    }
}

/// Hiding preserves well-formedness, the set of windows and their ids and
/// construction parameters; the window carrying the id, if any, is left
/// invisible and unfocused.
pub proof fn lemma_mark_hidden_keeps_window(ws: Seq<TrackedWindowView>, id: Seq<char>)
    requires
        wf_registry(ws),
    ensures
        ({
            let ws2 = mark_hidden(ws, id);
            &&& wf_registry(ws2)
            &&& ws2.len() == ws.len()
            &&& forall|k: int| 0 <= k < ws.len() ==> ws2[k].id == ws[k].id && ws2[k].config
                == ws[k].config
            &&& has_window(ws, id) ==> window_index(ws2, id) == window_index(ws, id)
                && !ws2[window_index(ws2, id)].visible && !ws2[window_index(ws2, id)].focused
        }),
{
    let ws2 = mark_hidden(ws, id);
    if has_window(ws, id) {
        let i = window_index(ws, id);
        assert(0 <= i < ws.len() && ws[i].id == id);
        lemma_update_keeps_ids(ws, ws2, i);
        lemma_window_index_of(ws2, id, i);
    }
}

/// In a well-formed registry an id is carried by exactly one window, or by
/// none.
pub proof fn lemma_count_unique(ws: Seq<TrackedWindowView>, id: Seq<char>)
    requires
        wf_registry(ws),
    ensures
        count_id(ws, id) == (if has_window(ws, id) {
            1nat
        } else {
            0nat
        }),
    decreases ws.len(),
{
    if ws.len() == 0 {
        assert(!has_window(ws, id));
    } else {
        let prefix = ws.drop_last();
        assert forall|a: int, b: int| 0 <= a < b < prefix.len() implies prefix[a].id
            != prefix[b].id by {
            assert(ws[a].id != ws[b].id);
        }
        lemma_count_unique(prefix, id);
        if ws.last().id == id {
            assert(has_window(ws, id));
            assert forall|a: int| 0 <= a < prefix.len() implies prefix[a].id != id by {
                assert(ws[a].id != ws[ws.len() - 1].id);
            }
            assert(!has_window(prefix, id));
        } else {
            if has_window(prefix, id) {
                let i = choose|i: int| 0 <= i < prefix.len() && prefix[i].id == id;
                assert(ws[i].id == id);
                assert(has_window(ws, id));
            }
            if has_window(ws, id) {
                let i = choose|i: int| 0 <= i < ws.len() && ws[i].id == id;
                assert(i < ws.len() - 1);
                assert(prefix[i].id == id);
                assert(has_window(prefix, id));
            }
        }
    }
}

/// Law: two successive "ensure visible" requests for one id leave exactly
/// one window registered under that id — the second request never creates a
/// duplicate.
pub proof fn lemma_ensure_visible_idempotent(
    ws: Seq<TrackedWindowView>,
    id: Seq<char>,
    c1: WindowConfigView,
    c2: WindowConfigView,
)
    requires
        wf_registry(ws),
    ensures
        ({
            let ws1 = ensure_visible(ws, id, c1);
            let ws2 = ensure_visible(ws1, id, c2);
            &&& ws2.len() == ws1.len()
            &&& count_id(ws2, id) == 1
        }),
{
    let ws1 = ensure_visible(ws, id, c1);
    let ws2 = ensure_visible(ws1, id, c2);
    lemma_ensure_visible_shows_window(ws, id, c1);
    lemma_ensure_visible_wf(ws1, id, c2);
    lemma_ensure_visible_shows_window(ws1, id, c2);
    lemma_count_unique(ws2, id);
}

/// Law: after the platform hides a window (without destroying it), a later
/// "ensure visible" request re-shows and focuses the same window — same
/// slot, same construction parameters — and registers nothing new.
pub proof fn lemma_hidden_window_reshown(
    ws: Seq<TrackedWindowView>,
    id: Seq<char>,
    c0: WindowConfigView,
    c: WindowConfigView,
)
    requires
        wf_registry(ws),
    ensures
        ({
            let ws1 = ensure_visible(ws, id, c0);
            let ws2 = mark_hidden(ws1, id);
            let ws3 = ensure_visible(ws2, id, c);
            &&& !ws2[window_index(ws2, id)].visible
            &&& ws3.len() == ws1.len()
            &&& window_index(ws3, id) == window_index(ws1, id)
            &&& ws3[window_index(ws3, id)].config == ws1[window_index(ws1, id)].config
            &&& ws3[window_index(ws3, id)].visible
            &&& ws3[window_index(ws3, id)].focused
        }),
{
    let ws1 = ensure_visible(ws, id, c0);
    let ws2 = mark_hidden(ws1, id);
    let ws3 = ensure_visible(ws2, id, c);
    lemma_ensure_visible_shows_window(ws, id, c0);
    lemma_mark_hidden_keeps_window(ws1, id);
    let i = window_index(ws1, id);
    assert(ws2[i].id == id);
    lemma_window_index_of(ws2, id, i);
    lemma_ensure_visible_shows_window(ws2, id, c);
    lemma_ensure_visible_wf(ws2, id, c);
}

} // verus!
