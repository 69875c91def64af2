//! The page shell: the state machine that binds browser navigation to route
//! resolution and page display.
//!
//! The browser's history is the one externally owned resource. The shell
//! models it as the stack of routes visited so far together with the position
//! the browser currently shows; in-page navigation appends to the stack
//! (push-only: prior entries are never rewritten), and the back and forward
//! buttons move the position along it. Every navigation event discards the
//! displayed page's instance, so the freshly mounted page starts with a fresh
//! [`MountState`]. The surrounding, unverified code performs the actual
//! browser calls and feeds every navigation event back through these methods.

use vstd::prelude::*;
use crate::router::{spec_resolve, resolve, Route};

verus! {

/// The per-page-instance lifecycle flag: is the next render this instance's
/// first? A page resets the document scroll to the top on its first render
/// after being mounted, and never again for that instance, however often it
/// re-renders; this flag guards that one-shot effect. It is owned by the page
/// instance and destroyed with it.
pub struct MountState {
    first: bool,
}

impl MountState {
    /// Whether this instance has not rendered yet.
    pub closed spec fn is_first(self) -> bool {
        self.first
    }

    /// A freshly mounted page instance, which has not rendered yet.
    pub fn new() -> (mount: MountState)
        ensures
            mount.is_first(),
    {
        MountState { first: true }
    }

    /// Check and clear the flag in one step: returns whether this is the
    /// first render, and makes sure every later call answers no.
    pub fn take_first(&mut self) -> (first: bool)
        ensures
            first == old(self).is_first(),
            !final(self).is_first(),
    {
        let was_first = self.first;
        self.first = false;
        was_first
    }
}

/// The application root's state: the browser history as visited so far, the
/// entry currently displayed, and the displayed page instance's mount flag.
pub struct Shell {
    entries: Vec<Route>,
    index: usize,
    mount: MountState,
}

/// What one in-page navigation does to the shell: it pushes exactly one
/// entry, the requested route, right after the displayed one (dropping any
/// entries the back button had left ahead of it), displays the new entry,
/// and mounts a fresh page instance.
pub open spec fn navigate_step(pre: Shell, post: Shell, route: Route) -> bool {
    &&& post.history() == pre.history().take(pre.position() + 1).push(route)
    &&& post.position() == pre.position() + 1
    &&& post.fresh_mount()
}

/// What one press of the browser's back button does to the shell: the
/// history itself is untouched; if an earlier entry exists the position moves
/// back by one and a fresh page instance is mounted, otherwise nothing
/// changes.
pub open spec fn back_step(pre: Shell, post: Shell, moved: bool) -> bool {
    &&& post.history() == pre.history()
    &&& if pre.position() > 0 {
        moved && post.position() == pre.position() - 1 && post.fresh_mount()
    } else {
        !moved && post == pre
    }
}

/// What one press of the browser's forward button does to the shell: the
/// mirror image of [`back_step`].
pub open spec fn forward_step(pre: Shell, post: Shell, moved: bool) -> bool {
    &&& post.history() == pre.history()
    &&& if pre.position() + 1 < pre.history().len() {
        moved && post.position() == pre.position() + 1 && post.fresh_mount()
    } else {
        !moved && post == pre
    }
}

/// What one render of the displayed page does to the shell: the history and
/// position are untouched, the scroll is reset exactly when this was the
/// instance's first render, and afterwards the instance counts as rendered.
pub open spec fn render_step(pre: Shell, post: Shell, scrolled: bool) -> bool {
    &&& post.history() == pre.history()
    &&& post.position() == pre.position()
    &&& scrolled == pre.fresh_mount()
    &&& !post.fresh_mount()
}

impl Shell {
    /// The routes visited so far, in the order the history holds them.
    pub closed spec fn history(self) -> Seq<Route> {
        self.entries@
    }

    /// Which history entry the browser currently shows.
    pub closed spec fn position(self) -> int {
        self.index as int
    }

    /// Whether the displayed page instance has not rendered yet.
    pub closed spec fn fresh_mount(self) -> bool {
        self.mount.is_first()
    }

    /// The shell always displays an entry of the history.
    pub open spec fn wf(self) -> bool {
        0 <= self.position() < self.history().len()
    }

    /// The route currently displayed.
    pub open spec fn spec_current(self) -> Route {
        self.history()[self.position()]
    }

    /// Start the shell on the browser's initial path: the history holds the
    /// one entry that path resolves to, displayed by a fresh page instance.
    pub fn new(path: &str) -> (shell: Shell)
        ensures
            shell.wf(),
            shell.history() == seq![spec_resolve(path@)],
            shell.position() == 0,
            shell.fresh_mount(),
    {
        let route = resolve(path);
        let mut entries: Vec<Route> = Vec::new();
        entries.push(route);
        let shell = Shell { entries, index: 0, mount: MountState::new() };
        proof {
            assert(shell.history() =~= seq![spec_resolve(path@)]);
        }
        shell
    }

    /// The route currently displayed.
    pub fn current(&self) -> (route: Route)
        requires
            self.wf(),
        ensures
            route == self.spec_current(),
    {
        self.entries[self.index]
    }

    /// How many entries the history stack holds.
    pub fn history_len(&self) -> (len: usize)
        ensures
            len == self.history().len(),
    {
        self.entries.len()
    }

    /// An in-page link or button requests navigation to `route` without a
    /// page reload: push exactly one new history entry and display it with a
    /// fresh page instance, discarding the previous page's instance and its
    /// mount state.
    pub fn navigate(&mut self, route: Route)
        requires
            old(self).wf(),
        ensures
            final(self).wf(),
            navigate_step(*old(self), *final(self), route),
            final(self).spec_current() == route,
            final(self).history().len() == old(self).position() + 2,
    {
        let len = self.entries.len();
        assert(self.index < len);
        self.entries.truncate(self.index + 1);
        self.entries.push(route);
        self.index = self.index + 1;
        self.mount = MountState::new();
        proof {
            assert(self.entries@ =~= old(self).history().take(old(self).position() + 1).push(
                route,
            ));
        }
    }

    /// The browser's back button was pressed: move to the previous history
    /// entry if there is one, mounting a fresh page instance for it. Returns
    /// whether the position moved.
    pub fn back(&mut self) -> (moved: bool)
        requires
            old(self).wf(),
        ensures
            final(self).wf(),
            back_step(*old(self), *final(self), moved),
    {
        if self.index > 0 {
            self.index = self.index - 1;
            self.mount = MountState::new();
            true
        } else {
            false
        }
    }

    /// The browser's forward button was pressed: move to the next history
    /// entry if the back button had left one ahead, mounting a fresh page
    /// instance for it. Returns whether the position moved.
    pub fn forward(&mut self) -> (moved: bool)
        requires
            old(self).wf(),
        ensures
            final(self).wf(),
            forward_step(*old(self), *final(self), moved),
    {
        let len = self.entries.len();
        assert(self.index < len);
        if self.index < len - 1 {
            self.index = self.index + 1;
            self.mount = MountState::new();
            true
        } else {
            false
        }
    }

    /// Render the displayed page: returns its route together with whether
    /// this render must reset the document scroll to the top, which is the
    /// case exactly on a page instance's first render.
    pub fn render(&mut self) -> (display: (Route, bool))
        requires
            old(self).wf(),
        ensures
            final(self).wf(),
            render_step(*old(self), *final(self), display.1),
            display.0 == old(self).spec_current(),
    {
        let route = self.entries[self.index];
        let scroll_reset = self.mount.take_first();
        (route, scroll_reset)
    }
}

/// Navigation round-trip: pushing a route and then reading back the
/// displayed route always yields that route.
pub proof fn lemma_navigate_round_trip(pre: Shell, post: Shell, route: Route)
    requires
        pre.wf(),
        navigate_step(pre, post, route),
    ensures
        post.spec_current() == route,
{
    let stayed = pre.history().take(pre.position() + 1);
    assert(post.history()[stayed.len() as int] == route);
}

/// The scroll reset fires exactly once per mount: the first render of a
/// freshly mounted page instance resets the scroll, and a second render of
/// the same, already-mounted instance does not reset it again.
pub proof fn lemma_scroll_reset_once(
    mounted: Shell,
    rendered: Shell,
    rerendered: Shell,
    first_reset: bool,
    second_reset: bool,
)
    requires
        mounted.fresh_mount(),
        render_step(mounted, rendered, first_reset),
        render_step(rendered, rerendered, second_reset),
    ensures
        first_reset,
        !second_reset,
{
}

/// Back navigation after an in-page navigation returns to the route that was
/// displayed before, matching the history stack order.
pub proof fn lemma_back_returns(pre: Shell, mid: Shell, post: Shell, route: Route, moved: bool)
    requires
        pre.wf(),
        navigate_step(pre, mid, route),
        back_step(mid, post, moved),
    ensures
        moved,
        post.position() == pre.position(),
        post.spec_current() == pre.spec_current(),
{
    let stayed = pre.history().take(pre.position() + 1);
    assert(post.history()[pre.position()] == stayed[pre.position()]);
}

} // verus!
