//! The file watcher's decisions: which notifications concern a watched
//! source file, and which of them are let through the debounce window.

use std::path::Path;
use vstd::prelude::*;
use crate::events::AppEvent;
use crate::text::{text_of, texts_of};

verus! {

/// The extension of the files that are watched.
pub const WATCHED_EXTENSION: &'static str = "dart";

/// The width of the debounce window, in milliseconds.
pub const DEBOUNCE_WINDOW_MS: u64 = 300;

/// What `Path::extension` gives for a path: the part of its file name after
/// the last dot, or `None` where the path has no file name or the name has
/// no extension.
pub uninterp spec fn path_extension(path: Seq<char>) -> Option<Seq<char>>;

/// Calls `Path::extension`. Trusted: the result is the one named by
/// [`path_extension`].
#[verifier::external_body]
fn extension_of(path: &str) -> (extension: Option<String>)
    ensures
        text_of(extension) == path_extension(path@),
{
    Path::new(path).extension().map(|extension| extension.to_string_lossy().to_string())
}

/// Whether an extension is the watched one.
pub fn is_watched_extension(extension: &Option<String>) -> (watched: bool)
    ensures
        watched == (text_of(*extension) == Some(WATCHED_EXTENSION@)),
{
    match extension {
        Some(extension) => {
            let wanted = String::from_str(WATCHED_EXTENSION);
            *extension == wanted
        },
        None => false,
    }
}

/// The path that a raw notification reports a change of, if it concerns the
/// watcher: the first path of the notification, where that path has the
/// watched extension.
pub open spec fn watched_path(paths: Seq<Seq<char>>) -> Option<Seq<char>> {
    if paths.len() > 0 && path_extension(paths[0]) == Some(WATCHED_EXTENSION@) {
        Some(paths[0])
    } else {
        None
    }
}

/// Filters a raw notification by the paths it carries.
pub fn watched_change(paths: &Vec<String>) -> (changed: Option<String>)
    ensures
        text_of(changed) == watched_path(texts_of(paths@)),
{
    if paths.len() == 0 {
        return None;
    }
    let extension = extension_of(paths[0].as_str());
    if is_watched_extension(&extension) {
        Some(paths[0].clone())
    } else {
        None
    }
}

/// Whether a notification at time `now` is let through. `last` is the time
/// of the last notification that was let through, if there was one. The
/// first notification always passes; a later one passes where at least the
/// whole window lies between it and the last one let through. Times are
/// milliseconds on a clock that does not run backwards; a reading before
/// `last` counts as no time elapsed.
pub open spec fn lets_through(last: Option<int>, window: int, now: int) -> bool {
    match last {
        None => true,
        Some(last) => (if now >= last {
            now - last
        } else {
            0
        }) >= window,
    }
}

/// The debounce window of the watcher. The window is measured from the
/// last notification that was let through. Notifications inside the window
/// are dropped, not queued.
#[derive(Clone, Copy, Debug)]
pub struct Debouncer {
    last_change_ms: Option<u64>,
    window_ms: u64,
}

impl Debouncer {
    /// The time of the last notification that was let through; `None`
    /// while none has been.
    pub closed spec fn last_change(self) -> Option<int> {
        match self.last_change_ms {
            Some(last) => Some(last as int),
            None => None,
        }
    }

    /// The width of the window.
    pub closed spec fn window(self) -> int {
        self.window_ms as int
    }

    /// A debouncer that has let nothing through yet.
    pub fn new(window_ms: u64) -> (debouncer: Debouncer)
        ensures
            debouncer.last_change() is None,
            debouncer.window() == window_ms,
    {
        Debouncer { last_change_ms: None, window_ms }
    }

    /// Decides whether a notification at `now_ms` is let through, and if so
    /// starts a new window at it.
    pub fn accept(&mut self, now_ms: u64) -> (accepted: bool)
        ensures
            accepted == lets_through(old(self).last_change(), old(self).window(), now_ms as int),
            final(self).window() == old(self).window(),
            final(self).last_change() == (if accepted {
                Some(now_ms as int)
            } else {
                old(self).last_change()
            }),
    {
        let accepted = match self.last_change_ms {
            None => true,
            Some(last) => {
                let elapsed = if now_ms >= last {
                    now_ms - last
                } else {
                    0
                };
                elapsed >= self.window_ms
            },
        };
        if accepted {
            self.last_change_ms = Some(now_ms);
        }
        accepted
    }

    /// Relays the change of a watched file at `now_ms` as an event, unless
    /// it falls inside the window.
    pub fn relay(&mut self, path: String, now_ms: u64) -> (event: Option<AppEvent>)
        ensures
            lets_through(old(self).last_change(), old(self).window(), now_ms as int) ==> event
                == Some(AppEvent::FileChanged(path)),
            !lets_through(old(self).last_change(), old(self).window(), now_ms as int) ==> event
                is None,
            final(self).window() == old(self).window(),
            final(self).last_change() == (if event is Some {
                Some(now_ms as int)
            } else {
                old(self).last_change()
            }),
    {
        if self.accept(now_ms) {
            Some(AppEvent::FileChanged(path))
        } else {
            None
        }
    }
}

/// The number of notifications let through when notifications arrive at the
/// given times, in this order. `last` is the time of the last notification
/// let through before them, if there was one.
pub open spec fn relayed_count(last: Option<int>, window: int, times: Seq<int>) -> nat
    decreases times.len(),
{
    if times.len() == 0 {
        0
    } else if lets_through(last, window, times[0]) {
        1 + relayed_count(Some(times[0]), window, times.drop_first())
    } else {
        relayed_count(last, window, times.drop_first())
    }
}

/// A burst collapses to one event: where all notifications of a burst
/// arrive less than the window after the first of them, and the first
/// comes at least the window after the last notification let through
/// before it, if there was one, exactly one notification of the burst is
/// let through.
pub proof fn law_burst_collapses(last: Option<int>, window: int, times: Seq<int>)
    requires
        times.len() > 0,
        last matches Some(before) ==> times[0] >= before + window,
        forall|i: int| 0 < i < times.len() ==> times[0] <= #[trigger] times[i] < times[0] + window,
    ensures
        relayed_count(last, window, times) == 1,
{
    lemma_inside_window_drops(times[0], window, times.drop_first());
}

/// The first burst that a watcher sees collapses to one event, however
/// soon after the start it comes.
pub proof fn law_first_burst_collapses(window: int, times: Seq<int>)
    requires
        times.len() > 0,
        forall|i: int| 0 < i < times.len() ==> times[0] <= #[trigger] times[i] < times[0] + window,
    ensures
        relayed_count(None, window, times) == 1,
{
    law_burst_collapses(None, window, times);
}

/// Notifications that all arrive less than the window after the last one
/// let through are all dropped.
pub proof fn lemma_inside_window_drops(last: int, window: int, times: Seq<int>)
    requires
        forall|i: int| 0 <= i < times.len() ==> last <= #[trigger] times[i] < last + window,
    ensures
        relayed_count(Some(last), window, times) == 0,
    decreases times.len(),
{
    if times.len() > 0 {
        assert(last <= times[0] < last + window);
        let rest = times.drop_first();
        assert forall|i: int| 0 <= i < rest.len() implies last <= #[trigger] rest[i] < last
            + window by {
            assert(rest[i] == times[i + 1]);
        }
        lemma_inside_window_drops(last, window, rest);
    }
}

/// Spaced notifications each produce an event: where every notification
/// arrives at least the window after the one before it, and the first at
/// least the window after the last one let through before them, if there
/// was one, all of them are let through.
pub proof fn law_spaced_changes_all_pass(last: Option<int>, window: int, times: Seq<int>)
    requires
        window >= 0,
        last matches Some(before) ==> times.len() > 0 ==> times[0] >= before + window,
        forall|i: int| 0 < i < times.len() ==> #[trigger] times[i] >= times[i - 1] + window,
    ensures
        relayed_count(last, window, times) == times.len(),
    decreases times.len(),
{
    if times.len() > 0 {
        let rest = times.drop_first();
        assert forall|i: int| 0 < i < rest.len() implies #[trigger] rest[i] >= rest[i - 1]
            + window by {
            assert(rest[i] == times[i + 1]);
            assert(rest[i - 1] == times[i]);
        }
        if rest.len() > 0 {
            assert(rest[0] == times[1]);
        }
        law_spaced_changes_all_pass(Some(times[0]), window, rest);
    }
}

} // verus!
