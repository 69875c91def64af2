//! Client-side routing and page-mount lifecycle for a small static blog site.
//!
//! The site is a single-page application with a handful of fixed pages. This
//! crate holds the two mechanisms that have any behaviour worth stating:
//!
//! * the router table ([`router`]): a closed set of route identifiers, each
//!   mapped bidirectionally to a URL path, with total resolution that sends
//!   every unmatched path to a not-found route, and recovery of the intended
//!   route from the query string a static host's fallback page redirects with;
//! * the page shell ([`shell`]): the state machine over the browser history
//!   stack that decides which page is displayed after each navigation event,
//!   together with the one-shot mount flag that guards the scroll-to-top
//!   effect of a freshly mounted page.
//!
//! Rendering, styling and the browser bindings themselves live outside this
//! crate; the shell hands them plain decisions (a route, a page kind, a
//! "reset the scroll now" bit) and takes plain events back.

pub mod router;
pub mod shell;
