//! The cascade of context-menu windows: the root menu and one submenu window per level below
//! it, which window has focus, and the generations that let late timers find out that they
//! are stale.

use vstd::prelude::*;

verus! {

/// A page of the context menu that opens in a submenu window.
#[derive(Debug, Clone, Copy, PartialEq, Eq, Structural)]
pub enum MenuPage {
    /// Theme presets.
    Theme,
    /// Overlay shapes.
    Shape,
    /// Interface languages.
    Language,
    /// Cameras.
    Camera,
    /// Advanced settings.
    Advanced,
    /// Capture rates.
    CameraFps,
    /// Capture resolutions.
    CameraResolution,
    /// Fit modes.
    Fit,
    /// Ring thicknesses.
    RingThickness,
    /// Corner roundnesses.
    CornerRoundness,
}

/// A submenu window and the page it shows.
#[derive(Debug, Clone, Copy, PartialEq, Eq, Structural)]
pub struct MenuWindow {
    /// The window.
    pub id: u64,
    /// The page it shows.
    pub page: MenuPage,
}

/// The open menu windows: the root menu, if open, and the submenus below it, level by level
/// (the submenu at index `i` hangs from level `i`: the root for `0`, the submenu at `i - 1`
/// otherwise); the menu window with focus; and a generation that moves on with each focus
/// change.
#[derive(Debug, Clone)]
pub struct MenuCascade {
    /// The root menu window.
    pub root: Option<u64>,
    /// The submenu windows, shallowest first.
    pub submenus: Vec<MenuWindow>,
    /// The menu window with focus.
    pub focused: Option<u64>,
    /// Moves on with each focus change, saturating at `u64::MAX`.
    pub focus_generation: u64,
    /// The hover and aim timers of submenus.
    pub timers: SubmenuTimers,
}

/// The timers that open and close submenus late: a hovered row opens its submenu after a
/// short delay, and while the pointer heads for an open submenu an open or close is put off.
/// Each arming or cancelling moves a generation on (saturating at `u64::MAX`), so that a
/// timer armed before finds itself stale.
#[derive(Debug, Clone, Copy, PartialEq, Eq, Structural)]
pub struct SubmenuTimers {
    /// The generation of the latest hover timer.
    pub hover_generation: u64,
    /// The generation of the latest put-off open or close.
    pub intent_generation: u64,
    /// The menu window whose open or close is put off.
    pub deferred_parent: Option<u64>,
}

/// The timers after every pending hover, open and close is cancelled.
pub open spec fn cancelled(timers: SubmenuTimers) -> SubmenuTimers {
    SubmenuTimers {
        hover_generation: next_generation(timers.hover_generation),
        intent_generation: next_generation(timers.intent_generation),
        deferred_parent: None,
    }
}

/// The windows of submenus, in order.
pub open spec fn window_ids(submenus: Seq<MenuWindow>) -> Seq<u64> {
    submenus.map_values(|w: MenuWindow| w.id)
}

/// Whether no window is tracked twice.
pub open spec fn distinct_windows(cascade: MenuCascade) -> bool {
    &&& forall|i: int, j: int|
        0 <= i < j < cascade.submenus@.len() ==> (#[trigger] cascade.submenus@[i]).id != (
        #[trigger] cascade.submenus@[j]).id
    &&& cascade.root matches Some(root) ==> forall|i: int|
        0 <= i < cascade.submenus@.len() ==> (#[trigger] cascade.submenus@[i]).id != root
}

/// Whether `window` is a menu window of the cascade.
pub open spec fn tracks(cascade: MenuCascade, window: u64) -> bool {
    cascade.root == Some(window) || window_ids(cascade.submenus@).contains(window)
}

/// The position of `window` among the submenus, when it is one (the first, should it occur
/// twice).
#[verifier::opaque]
pub open spec fn submenu_index(submenus: Seq<MenuWindow>, window: u64) -> Option<int> {
    if exists|i: int| 0 <= i < submenus.len() && (#[trigger] submenus[i]).id == window {
        Some(
            choose|i: int|
                0 <= i < submenus.len() && (#[trigger] submenus[i]).id == window && forall|j: int|
                    0 <= j < i ==> (#[trigger] submenus[j]).id != window,
        )
    } else {
        None
    }
}

/// The level that a submenu opened from `parent` takes: `0` below the root menu, `i + 1`
/// below the submenu at index `i`; `None` when `parent` is no menu window.
pub open spec fn spec_level_below(cascade: MenuCascade, parent: u64) -> Option<int> {
    if cascade.root == Some(parent) {
        Some(0)
    } else {
        match submenu_index(cascade.submenus@, parent) {
            Some(i) => Some(i + 1),
            None => None,
        }
    }
}

/// The generation after one more change.
pub open spec fn next_generation(generation: u64) -> u64 {
    if generation < u64::MAX {
        (generation + 1) as u64
    } else {
        generation
    }
}

/// Some index holding `window` has a first one.
proof fn lemma_first_index_exists(submenus: Seq<MenuWindow>, window: u64, k: int)
    requires
        0 <= k < submenus.len(),
        submenus[k].id == window,
    ensures
        exists|i: int|
            0 <= i <= k && (#[trigger] submenus[i]).id == window && forall|j: int|
                0 <= j < i ==> (#[trigger] submenus[j]).id != window,
    decreases k,
{
    if exists|j: int| 0 <= j < k && (#[trigger] submenus[j]).id == window {
        let j = choose|j: int| 0 <= j < k && (#[trigger] submenus[j]).id == window;
        lemma_first_index_exists(submenus, window, j);
    } else {
        assert(submenus[k].id == window);
    }
}

/// What the position of a window among the submenus is.
proof fn lemma_submenu_index(submenus: Seq<MenuWindow>, window: u64)
    ensures
        match submenu_index(submenus, window) {
            Some(i) => 0 <= i < submenus.len() && submenus[i].id == window && forall|j: int|
                0 <= j < i ==> (#[trigger] submenus[j]).id != window,
            None => forall|i: int| 0 <= i < submenus.len() ==> (#[trigger] submenus[i]).id != window,
        },
{
    reveal(submenu_index);
    if exists|i: int| 0 <= i < submenus.len() && (#[trigger] submenus[i]).id == window {
        let k = choose|i: int| 0 <= i < submenus.len() && (#[trigger] submenus[i]).id == window;
        lemma_first_index_exists(submenus, window, k);
    }
}

/// The windows of a cut of the submenus are a cut of their windows.
proof fn lemma_window_ids_subrange(submenus: Seq<MenuWindow>, from: int, to: int, window: u64)
    requires
        0 <= from <= to <= submenus.len(),
        forall|i: int| from <= i < to ==> (#[trigger] submenus[i]).id != window,
    ensures
        !window_ids(submenus.subrange(from, to)).contains(window),
{
    if window_ids(submenus.subrange(from, to)).contains(window) {
        let k = choose|k: int|
            0 <= k < window_ids(submenus.subrange(from, to)).len() && window_ids(
                submenus.subrange(from, to),
            )[k] == window;
        assert(submenus[from + k].id == window);
    }
}

impl MenuCascade {
    /// No menu window open.
    pub fn new() -> (cascade: MenuCascade)
        ensures
            cascade.root is None,
            cascade.submenus@.len() == 0,
            cascade.focused is None,
            cascade.focus_generation == 0,
            cascade.timers == (SubmenuTimers {
                hover_generation: 0,
                intent_generation: 0,
                deferred_parent: None,
            }),
    {
        MenuCascade {
            root: None,
            submenus: Vec::new(),
            focused: None,
            focus_generation: 0,
            timers: SubmenuTimers { hover_generation: 0, intent_generation: 0, deferred_parent: None },
        }
    }

    /// Whether `window` is a menu window.
    pub fn is_menu_window(&self, window: u64) -> (menu: bool)
        ensures
            menu == tracks(*self, window),
    {
        if self.root == Some(window) {
            return true;
        }
        let mut i: usize = 0;
        while i < self.submenus.len()
            invariant
                i <= self.submenus@.len(),
                forall|j: int| 0 <= j < i ==> (#[trigger] self.submenus@[j]).id != window,
            decreases self.submenus@.len() - i,
        {
            if self.submenus[i].id == window {
                assert(window_ids(self.submenus@)[i as int] == window);
                return true;
            }
            i = i + 1;
        }
        assert(!window_ids(self.submenus@).contains(window)) by {
            if window_ids(self.submenus@).contains(window) {
                let k = choose|k: int|
                    0 <= k < window_ids(self.submenus@).len() && window_ids(self.submenus@)[k]
                        == window;
                assert(self.submenus@[k].id == window);
            }
        }
        false
    }

    /// The level that a submenu opened from `parent` takes.
    pub fn level_below(&self, parent: u64) -> (level: Option<usize>)
        ensures
            match level {
                Some(l) => spec_level_below(*self, parent) == Some(l as int),
                None => spec_level_below(*self, parent) is None,
            },
            level matches Some(l) ==> l <= self.submenus@.len(),
    {
        if self.root == Some(parent) {
            return Some(0);
        }
        let mut i: usize = 0;
        while i < self.submenus.len()
            invariant
                i <= self.submenus@.len(),
                self.root != Some(parent),
                forall|j: int| 0 <= j < i ==> (#[trigger] self.submenus@[j]).id != parent,
            decreases self.submenus@.len() - i,
        {
            if self.submenus[i].id == parent {
                proof {
                    lemma_submenu_index(self.submenus@, parent);
                }
                return Some(i + 1);
            }
            i = i + 1;
        }
        proof {
            lemma_submenu_index(self.submenus@, parent);
        }
        None
    }
}

/// Where the submenus are cut when those from `level` down close.
pub open spec fn cut_at(len: int, level: int) -> int {
    if level < len {
        level
    } else {
        len
    }
}

/// The root window as a sequence of none or one window.
pub open spec fn root_ids(root: Option<u64>) -> Seq<u64> {
    match root {
        Some(id) => seq![id],
        None => Seq::empty(),
    }
}

/// What opening a submenu changed.
#[derive(Debug, Clone, PartialEq, Eq)]
pub enum SubmenuChange {
    /// The parent is no menu window: nothing changed.
    NoParent,
    /// The level already showed the page; these deeper submenu windows are to close.
    Kept {
        /// Windows to close, shallowest first.
        closed: Vec<u64>,
    },
    /// The level's window now shows the page and is to be resized and moved; these deeper
    /// submenu windows are to close.
    Replaced {
        /// The window that shows the page.
        window: u64,
        /// Windows to close, shallowest first.
        closed: Vec<u64>,
    },
    /// A new window opens at the level.
    Opened {
        /// The new window.
        window: u64,
    },
}

/// What a menu window's close request or closing changed.
#[derive(Debug, Clone, PartialEq, Eq)]
pub struct MenuClosing {
    /// Windows to close, deepest submenus last and the root menu after them.
    pub close: Vec<u64>,
    /// Whether the whole menu is gone, so that the preview panel returns.
    pub dismissed: bool,
}

/// How the application treats a window that has just opened.
#[derive(Debug, Clone, Copy, PartialEq, Eq, Structural)]
pub enum OpenedWindowReaction {
    /// A menu window: give it focus.
    Focus,
    /// The overlay window: nothing to do.
    Keep,
    /// A popup whose branch closed while it opened: close it, so that no untracked window
    /// stays alive.
    Close,
}

/// Whether opening `page` at `level` of `before` gave `change` and left `after`: the level's
/// page kept, its window switched to the page, or the new window `fresh` pushed at the end.
pub open spec fn opened_at(
    before: Seq<MenuWindow>,
    level: int,
    page: MenuPage,
    fresh: u64,
    change: SubmenuChange,
    after: Seq<MenuWindow>,
) -> bool {
    if level < before.len() {
        let deeper = window_ids(before.subrange(level + 1, before.len() as int));
        let window = before[level].id;
        if before[level].page == page {
            &&& change matches SubmenuChange::Kept { closed } && closed@ == deeper
            &&& after == before.subrange(0, level + 1)
        } else {
            &&& change matches SubmenuChange::Replaced { window: w, closed } && w == window
                && closed@ == deeper
            &&& after == before.subrange(0, level + 1).update(level, MenuWindow { id: window, page })
        }
    } else {
        &&& change == SubmenuChange::Opened { window: fresh }
        &&& after == before.push(MenuWindow { id: fresh, page })
    }
}

/// Whether the root menu's close request (`requested`) or closing gave `closing` and left
/// `after`: the whole menu is gone; on a request its submenus and then the root are to close
/// and focus is cleared, once closed only its submenus are.
pub open spec fn root_closed(
    before: MenuCascade,
    requested: bool,
    closing: MenuClosing,
    after: MenuCascade,
) -> bool {
    &&& closing.dismissed
    &&& after.root is None
    &&& after.submenus@.len() == 0
    &&& if requested {
        &&& closing.close@ == window_ids(before.submenus@) + root_ids(before.root)
        &&& after.focused is None
        &&& after.focus_generation == next_generation(before.focus_generation)
        &&& after.timers == cancelled(before.timers)
    } else {
        &&& closing.close@ == window_ids(before.submenus@)
        &&& after.focused == before.focused
        &&& after.focus_generation == before.focus_generation
        &&& after.timers == before.timers
    }
}

/// Whether a close request (`requested`) or closing of `window`, not the root menu, gave
/// `closing` and left `after`: a submenu goes with the deeper ones, the window itself among
/// those to close only on a request; another window changes nothing.
pub open spec fn submenu_closed(
    before: MenuCascade,
    window: u64,
    requested: bool,
    closing: MenuClosing,
    after: MenuCascade,
) -> bool {
    &&& !closing.dismissed
    &&& after.root == before.root
    &&& after.focused == before.focused
    &&& after.focus_generation == before.focus_generation
    &&& after.timers == before.timers
    &&& match submenu_index(before.submenus@, window) {
        Some(i) => {
            &&& after.submenus@ == before.submenus@.subrange(0, i)
            &&& closing.close@ == window_ids(
                before.submenus@.subrange(
                    if requested {
                        i
                    } else {
                        i + 1
                    },
                    before.submenus@.len() as int,
                ),
            )
        },
        None => after.submenus@ == before.submenus@ && closing.close@.len() == 0,
    }
}

impl MenuCascade {
    /// Closes the submenus from `level` down. Returns their windows, shallowest first.
    pub fn close_from_level(&mut self, level: usize) -> (closed: Vec<u64>)
        ensures
            final(self).submenus@ == old(self).submenus@.subrange(
                0,
                cut_at(old(self).submenus@.len() as int, level as int),
            ),
            closed@ == window_ids(
                old(self).submenus@.subrange(
                    cut_at(old(self).submenus@.len() as int, level as int),
                    old(self).submenus@.len() as int,
                ),
            ),
            final(self).root == old(self).root,
            final(self).focused == old(self).focused,
            final(self).focus_generation == old(self).focus_generation,
            final(self).timers == old(self).timers,
            distinct_windows(*old(self)) ==> distinct_windows(*final(self)),
    {
        let len = self.submenus.len();
        let cut = if level < len {
            level
        } else {
            len
        };
        let mut closed: Vec<u64> = Vec::new();
        let mut i: usize = cut;
        while i < self.submenus.len()
            invariant
                cut <= i <= self.submenus@.len(),
                self.submenus@ == old(self).submenus@,
                closed@ == window_ids(self.submenus@.subrange(cut as int, i as int)),
            decreases self.submenus@.len() - i,
        {
            closed.push(self.submenus[i].id);
            assert(window_ids(self.submenus@.subrange(cut as int, i + 1)) =~= window_ids(
                self.submenus@.subrange(cut as int, i as int),
            ).push(self.submenus@[i as int].id));
            i = i + 1;
        }
        self.submenus.truncate(cut);
        closed
    }

    /// Closes the whole menu (as Escape, a chosen entry or a lost focus does): the submenus,
    /// then the root. Focus is cleared, the focus generation moves on and pending submenu
    /// timers are cancelled.
    pub fn close_all(&mut self) -> (closed: Vec<u64>)
        ensures
            final(self).root is None,
            final(self).submenus@.len() == 0,
            final(self).focused is None,
            final(self).focus_generation == next_generation(old(self).focus_generation),
            final(self).timers == cancelled(old(self).timers),
            closed@ == window_ids(old(self).submenus@) + root_ids(old(self).root),
    {
        self.focused = None;
        self.focus_generation = self.focus_generation.saturating_add(1);
        self.cancel_intent();
        self.cancel_hover();
        let mut closed = self.close_from_level(0);
        assert(old(self).submenus@.subrange(0, old(self).submenus@.len() as int) =~= old(
            self,
        ).submenus@);
        if let Some(root) = self.root {
            closed.push(root);
        }
        self.root = None;
        assert(closed@ =~= window_ids(old(self).submenus@) + root_ids(old(self).root));
        closed
    }

    /// Opens the root menu in the new window `window`, closing any menu that was open.
    pub fn open_root(&mut self, window: u64) -> (closed: Vec<u64>)
        ensures
            final(self).root == Some(window),
            final(self).submenus@.len() == 0,
            final(self).focused is None,
            final(self).focus_generation == next_generation(old(self).focus_generation),
            final(self).timers == cancelled(old(self).timers),
            closed@ == window_ids(old(self).submenus@) + root_ids(old(self).root),
            distinct_windows(*final(self)),
    {
        let closed = self.close_all();
        self.root = Some(window);
        closed
    }

    /// Closes the submenus below `parent`, if it is a menu window.
    pub fn close_after(&mut self, parent: u64) -> (closed: Vec<u64>)
        ensures
            match spec_level_below(*old(self), parent) {
                Some(level) => final(self).submenus@ == old(self).submenus@.subrange(0, level)
                    && closed@ == window_ids(
                    old(self).submenus@.subrange(level, old(self).submenus@.len() as int),
                ),
                None => final(self).submenus@ == old(self).submenus@ && closed@.len() == 0,
            },
            final(self).root == old(self).root,
            final(self).focused == old(self).focused,
            final(self).focus_generation == old(self).focus_generation,
            final(self).timers == old(self).timers,
            distinct_windows(*old(self)) ==> distinct_windows(*final(self)),
    {
        match self.level_below(parent) {
            Some(level) => self.close_from_level(level),
            None => Vec::new(),
        }
    }
}

impl MenuCascade {
    /// Opens `page` in a submenu below `parent`. A level keeps one window for the life of its
    /// branch: if the level already shows the page, only the deeper submenus close; if it
    /// shows another page, its window switches to this one and the deeper submenus close;
    /// otherwise the new window `fresh` opens at the level.
    pub fn open_submenu(&mut self, parent: u64, page: MenuPage, fresh: u64) -> (change:
        SubmenuChange)
        ensures
            final(self).root == old(self).root,
            final(self).focused == old(self).focused,
            final(self).focus_generation == old(self).focus_generation,
            final(self).timers == old(self).timers,
            spec_level_below(*old(self), parent) is None ==> change == SubmenuChange::NoParent
                && final(self).submenus@ == old(self).submenus@,
            spec_level_below(*old(self), parent) matches Some(level) ==> opened_at(
                old(self).submenus@,
                level,
                page,
                fresh,
                change,
                final(self).submenus@,
            ),
            distinct_windows(*old(self)) && !tracks(*old(self), fresh) ==> distinct_windows(
                *final(self),
            ),
    {
        let level = match self.level_below(parent) {
            Some(level) => level,
            None => return SubmenuChange::NoParent,
        };
        if level < self.submenus.len() {
            let window = self.submenus[level].id;
            let shown = self.submenus[level].page;
            let closed = self.close_from_level(level + 1);
            let ghost kept = self.submenus@;
            if shown == page {
                SubmenuChange::Kept { closed }
            } else {
                self.submenus.set(level, MenuWindow { id: window, page });
                proof {
                    assert(forall|i: int|
                        0 <= i < kept.len() ==> (#[trigger] self.submenus@[i]).id == kept[i].id);
                }
                SubmenuChange::Replaced { window, closed }
            }
        } else {
            self.submenus.push(MenuWindow { id: fresh, page });
            proof {
                if distinct_windows(*old(self)) && !tracks(*old(self), fresh) {
                    assert forall|i: int| 0 <= i < old(self).submenus@.len() implies (
                    #[trigger] old(self).submenus@[i]).id != fresh by {
                        assert(window_ids(old(self).submenus@)[i] == old(self).submenus@[i].id);
                    }
                }
            }
            SubmenuChange::Opened { window: fresh }
        }
    }

    /// A menu window asked to close (`requested`) or has closed. For the root menu the whole
    /// menu goes: on a request, as [`MenuCascade::close_all`] does; once it has closed, its
    /// submenus close with it. For a submenu, it and the deeper submenus go (a closed window is
    /// not closed again). Any other window changes nothing.
    pub fn window_closed(&mut self, window: u64, requested: bool) -> (closing: MenuClosing)
        ensures
            old(self).root == Some(window) ==> root_closed(
                *old(self),
                requested,
                closing,
                *final(self),
            ),
            old(self).root != Some(window) ==> submenu_closed(
                *old(self),
                window,
                requested,
                closing,
                *final(self),
            ),
            distinct_windows(*old(self)) ==> distinct_windows(*final(self)) && !tracks(
                *final(self),
                window,
            ),
    {
        if self.root == Some(window) {
            let close = if requested {
                self.close_all()
            } else {
                let closed = self.close_from_level(0);
                assert(old(self).submenus@.subrange(0, old(self).submenus@.len() as int)
                    =~= old(self).submenus@);
                self.root = None;
                closed
            };
            proof {
                assert(root_ids(old(self).root) =~= seq![window]);
            }
            return MenuClosing { close, dismissed: true };
        }
        proof {
            lemma_submenu_index(self.submenus@, window);
        }
        match self.level_below(window) {
            Some(level) => {
                let i = level - 1;
                let close = if requested {
                    self.close_from_level(i)
                } else {
                    self.close_from_level(level)
                };
                self.submenus.truncate(i);
                proof {
                    assert(self.submenus@ =~= old(self).submenus@.subrange(0, i as int));
                    if distinct_windows(*old(self)) {
                        lemma_window_ids_subrange(old(self).submenus@, 0, i as int, window);
                    }
                }
                MenuClosing { close, dismissed: false }
            },
            None => {
                proof {
                    lemma_window_ids_subrange(
                        self.submenus@,
                        0,
                        self.submenus@.len() as int,
                        window,
                    );
                    assert(self.submenus@.subrange(0, self.submenus@.len() as int)
                        =~= self.submenus@);
                }
                MenuClosing { close: Vec::new(), dismissed: false }
            },
        }
    }

    /// A menu window gained focus: it is the focused one, and the focus generation moves on.
    /// Other windows change nothing.
    pub fn window_focused(&mut self, window: u64)
        ensures
            final(self).root == old(self).root,
            final(self).submenus@ == old(self).submenus@,
            final(self).timers == old(self).timers,
            tracks(*old(self), window) ==> final(self).focused == Some(window)
                && final(self).focus_generation == next_generation(old(self).focus_generation),
            !tracks(*old(self), window) ==> final(self).focused == old(self).focused
                && final(self).focus_generation == old(self).focus_generation,
    {
        if self.is_menu_window(window) {
            self.focused = Some(window);
            self.focus_generation = self.focus_generation.saturating_add(1);
        }
    }

    /// A menu window lost focus: it is no longer the focused one, pending submenu timers are
    /// cancelled, the focus generation moves on, and the returned generation arms the timer after which an unfocused menu is
    /// dismissed. Other windows change nothing and arm no timer.
    pub fn window_unfocused(&mut self, window: u64) -> (dismiss_timer: Option<u64>)
        ensures
            final(self).root == old(self).root,
            final(self).submenus@ == old(self).submenus@,
            tracks(*old(self), window) ==> {
                &&& final(self).focused == (if old(self).focused == Some(window) {
                    None
                } else {
                    old(self).focused
                })
                &&& final(self).focus_generation == next_generation(old(self).focus_generation)
                &&& final(self).timers == cancelled(old(self).timers)
                &&& dismiss_timer == Some(final(self).focus_generation)
            },
            !tracks(*old(self), window) ==> final(self).focused == old(self).focused
                && final(self).focus_generation == old(self).focus_generation
                && final(self).timers == old(self).timers && dismiss_timer is None,
    {
        if !self.is_menu_window(window) {
            return None;
        }
        self.cancel_intent();
        self.cancel_hover();
        if self.focused == Some(window) {
            self.focused = None;
        }
        self.focus_generation = self.focus_generation.saturating_add(1);
        Some(self.focus_generation)
    }

    /// Whether a dismiss timer armed with `generation` closes the menu: only when focus has
    /// not changed since and no menu window has it.
    pub fn should_dismiss(&self, generation: u64) -> (dismiss: bool)
        ensures
            dismiss == (generation == self.focus_generation && self.focused is None),
    {
        generation == self.focus_generation && self.focused.is_none()
    }

    /// How a window that has just opened is treated, given the overlay window.
    pub fn opened_window(&self, window: u64, overlay: Option<u64>) -> (reaction:
        OpenedWindowReaction)
        ensures
            reaction == (if tracks(*self, window) {
                OpenedWindowReaction::Focus
            } else if overlay == Some(window) {
                OpenedWindowReaction::Keep
            } else {
                OpenedWindowReaction::Close
            }),
    {
        if self.is_menu_window(window) {
            OpenedWindowReaction::Focus
        } else if overlay == Some(window) {
            OpenedWindowReaction::Keep
        } else {
            OpenedWindowReaction::Close
        }
    }
}

impl MenuCascade {
    /// Arms the hover timer of a row: returns its generation.
    pub fn schedule_hover(&mut self) -> (generation: u64)
        ensures
            final(self).timers == (SubmenuTimers {
                hover_generation: next_generation(old(self).timers.hover_generation),
                ..old(self).timers
            }),
            generation == final(self).timers.hover_generation,
            final(self).root == old(self).root,
            final(self).submenus@ == old(self).submenus@,
            final(self).focused == old(self).focused,
            final(self).focus_generation == old(self).focus_generation,
    {
        self.timers.hover_generation = self.timers.hover_generation.saturating_add(1);
        self.timers.hover_generation
    }

    /// Cancels a pending hover timer.
    pub fn cancel_hover(&mut self)
        ensures
            final(self).timers == (SubmenuTimers {
                hover_generation: next_generation(old(self).timers.hover_generation),
                ..old(self).timers
            }),
            final(self).root == old(self).root,
            final(self).submenus@ == old(self).submenus@,
            final(self).focused == old(self).focused,
            final(self).focus_generation == old(self).focus_generation,
    {
        self.timers.hover_generation = self.timers.hover_generation.saturating_add(1);
    }

    /// Whether a hover timer armed with `generation` still acts: no hover came or was
    /// cancelled since.
    pub fn hover_is_current(&self, generation: u64) -> (current: bool)
        ensures
            current == (generation == self.timers.hover_generation),
    {
        generation == self.timers.hover_generation
    }

    /// Puts off an open or close below `parent` while the pointer heads for an open submenu:
    /// the hover timer is cancelled and the returned generation arms the aim timer.
    pub fn defer_intent(&mut self, parent: u64) -> (generation: u64)
        ensures
            final(self).timers == (SubmenuTimers {
                hover_generation: next_generation(old(self).timers.hover_generation),
                intent_generation: next_generation(old(self).timers.intent_generation),
                deferred_parent: Some(parent),
            }),
            generation == final(self).timers.intent_generation,
            final(self).root == old(self).root,
            final(self).submenus@ == old(self).submenus@,
            final(self).focused == old(self).focused,
            final(self).focus_generation == old(self).focus_generation,
    {
        self.cancel_hover();
        self.timers.intent_generation = self.timers.intent_generation.saturating_add(1);
        self.timers.deferred_parent = Some(parent);
        self.timers.intent_generation
    }

    /// Cancels a put-off open or close.
    pub fn cancel_intent(&mut self)
        ensures
            final(self).timers == (SubmenuTimers {
                intent_generation: next_generation(old(self).timers.intent_generation),
                deferred_parent: None,
                ..old(self).timers
            }),
            final(self).root == old(self).root,
            final(self).submenus@ == old(self).submenus@,
            final(self).focused == old(self).focused,
            final(self).focus_generation == old(self).focus_generation,
    {
        self.timers.intent_generation = self.timers.intent_generation.saturating_add(1);
        self.timers.deferred_parent = None;
    }

    /// The aim timer armed with `generation` for a put-off open or close below `parent` has
    /// fired: it acts (and nothing stays put off) only when it is the latest and still for
    /// `parent`.
    pub fn resolve_intent(&mut self, generation: u64, parent: u64) -> (act: bool)
        ensures
            (final(self).timers, act) == spec_resolve_intent(old(self).timers, generation, parent),
            final(self).root == old(self).root,
            final(self).submenus@ == old(self).submenus@,
            final(self).focused == old(self).focused,
            final(self).focus_generation == old(self).focus_generation,
    {
        if generation != self.timers.intent_generation || self.timers.deferred_parent != Some(
            parent,
        ) {
            return false;
        }
        self.timers.deferred_parent = None;
        true
    }
}

/// An aim timer fires: the timers afterwards, and whether the put-off open or close acts,
/// which it does only when the timer is the latest and still for `parent`.
pub open spec fn spec_resolve_intent(timers: SubmenuTimers, generation: u64, parent: u64) -> (
    SubmenuTimers,
    bool,
) {
    if generation == timers.intent_generation && timers.deferred_parent == Some(parent) {
        (SubmenuTimers { deferred_parent: None, ..timers }, true)
    } else {
        (timers, false)
    }
}

/// A put-off open or close acts at most once: a timer that has acted does not act again when
/// it fires a second time, nor does any other timer until something is put off anew.
pub proof fn lemma_intent_acts_once(
    timers: SubmenuTimers,
    generation: u64,
    parent: u64,
    later_generation: u64,
    later_parent: u64,
)
    requires
        spec_resolve_intent(timers, generation, parent).1,
    ensures
        !spec_resolve_intent(
            spec_resolve_intent(timers, generation, parent).0,
            later_generation,
            later_parent,
        ).1,
{
}

/// Height of one menu row, in logical pixels.
pub const MENU_ROW_HEIGHT: u32 = 28;

/// Height of a menu separator, in logical pixels.
pub const MENU_SEPARATOR_HEIGHT: u32 = 9;

/// Padding above and below a menu's rows, in logical pixels.
pub const MENU_PADDING: u32 = 5;

/// The rows and separators of a submenu page; the camera page has a row per camera (at least
/// one, for the empty state).
pub open spec fn spec_page_rows(page: MenuPage, cameras: nat) -> (nat, nat) {
    match page {
        MenuPage::Theme | MenuPage::Shape | MenuPage::RingThickness | MenuPage::CornerRoundness => (
            6,
            0,
        ),
        MenuPage::Language => (3, 0),
        MenuPage::Camera => (if cameras > 1 {
            cameras
        } else {
            1
        }, 0),
        MenuPage::Advanced => (7, 1),
        MenuPage::CameraFps | MenuPage::CameraResolution => (4, 0),
        MenuPage::Fit => (2, 0),
    }
}

/// The height of a submenu window showing `page`, with `cameras` cameras enumerated: its rows
/// (counted up to `u16::MAX`), its separators and its padding.
pub open spec fn spec_page_height(page: MenuPage, cameras: nat) -> int {
    let (rows, separators) = spec_page_rows(page, cameras);
    let counted = if rows > u16::MAX {
        u16::MAX as int
    } else {
        rows as int
    };
    counted * MENU_ROW_HEIGHT + separators * MENU_SEPARATOR_HEIGHT + 2 * MENU_PADDING
}

/// The height of a submenu window showing `page`, in logical pixels.
pub fn menu_page_height(page: MenuPage, cameras: usize) -> (height: u32)
    ensures
        height == spec_page_height(page, cameras as nat),
{
    let (rows, separators): (usize, u32) = match page {
        MenuPage::Theme | MenuPage::Shape | MenuPage::RingThickness | MenuPage::CornerRoundness => (
            6,
            0,
        ),
        MenuPage::Language => (3, 0),
        MenuPage::Camera => (if cameras > 1 {
            cameras
        } else {
            1
        }, 0),
        MenuPage::Advanced => (7, 1),
        MenuPage::CameraFps | MenuPage::CameraResolution => (4, 0),
        MenuPage::Fit => (2, 0),
    };
    let counted: u32 = if rows > 65535 {
        65535
    } else {
        rows as u32
    };
    counted * MENU_ROW_HEIGHT + separators * MENU_SEPARATOR_HEIGHT + 2 * MENU_PADDING
}

/// Closing a submenu window that has just opened at the end of the cascade gives the cascade
/// back as it was, and closes that window alone.
pub proof fn lemma_closing_a_new_submenu_restores_the_cascade(
    before: MenuCascade,
    page: MenuPage,
    fresh: u64,
    change: SubmenuChange,
    opened: MenuCascade,
    closing: MenuClosing,
    after: MenuCascade,
)
    requires
        distinct_windows(before),
        !tracks(before, fresh),
        opened_at(
            before.submenus@,
            before.submenus@.len() as int,
            page,
            fresh,
            change,
            opened.submenus@,
        ),
        opened.root == before.root,
        submenu_closed(opened, fresh, true, closing, after),
    ensures
        after.submenus@ == before.submenus@,
        closing.close@ == seq![fresh],
{
    let n = before.submenus@.len() as int;
    lemma_submenu_index(opened.submenus@, fresh);
    assert forall|i: int| 0 <= i < n implies (#[trigger] before.submenus@[i]).id != fresh by {
        assert(window_ids(before.submenus@)[i] == before.submenus@[i].id);
    }
    assert(opened.submenus@[n].id == fresh);
    assert(submenu_index(opened.submenus@, fresh) == Some(n)) by {
        let i = submenu_index(opened.submenus@, fresh)->0;
        if i < n {
            assert(opened.submenus@[i] == before.submenus@[i]);
        }
    }
    assert(opened.submenus@.subrange(0, n) =~= before.submenus@);
    assert(window_ids(opened.submenus@.subrange(n, n + 1)) =~= seq![fresh]);
}

} // verus!
